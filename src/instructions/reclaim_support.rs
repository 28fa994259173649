use vstd::prelude::*;
use crate::address::Address;
use crate::error::ErrorCode;
use crate::state::{EpochManagement, ProposalStatus, TokenProposal, UserProposalSupport};

verus! {

/// The records and balances that a refund of one user's support touches.
#[derive(Clone, Debug)]
pub struct ReclaimSupport {
    /// The signer asking for the refund.
    pub user: Address,
    pub user_lamports: u64,
    pub token_proposal: TokenProposal,
    /// Address of the proposal record, which holds the escrow.
    pub proposal_key: Address,
    pub proposal_lamports: u64,
    /// The user's support record; `None` once it has been closed.
    pub user_proposal_support: Option<UserProposalSupport>,
    /// Lamports that back the storage of the support record.
    pub support_lamports: u64,
    pub epoch_management: EpochManagement,
}

/// The first check that rejects the refund, if any.
pub open spec fn reclaim_error(c: ReclaimSupport) -> Option<ErrorCode> {
    if c.token_proposal.status != ProposalStatus::Rejected {
        Some(ErrorCode::ProposalNotRejected)
    } else {
        match c.user_proposal_support {
            None => Some(ErrorCode::NothingToReclaim),
            Some(s) => {
                if s.user != c.user {
                    Some(ErrorCode::InvalidAuthority)
                } else if s.proposal != c.proposal_key {
                    Some(ErrorCode::ProposalMismatch)
                } else if s.amount == 0 {
                    Some(ErrorCode::NothingToReclaim)
                } else if c.epoch_management.epoch_id != c.token_proposal.epoch_id {
                    Some(ErrorCode::ProposalEpochMismatch)
                } else if !c.epoch_management.processed {
                    Some(ErrorCode::EpochNotProcessedYet)
                } else if c.proposal_lamports < s.amount {
                    Some(ErrorCode::InsufficientProposalFunds)
                } else if c.user_lamports + s.amount + c.support_lamports > u64::MAX {
                    Some(ErrorCode::Overflow)
                } else {
                    None
                }
            },
        }
    }
}

/// The records after an accepted refund: the recorded amount goes back from the
/// escrow to the user, the support record is closed, and its storage lamports go
/// to the user too.
pub open spec fn reclaimed(c: ReclaimSupport) -> ReclaimSupport {
    let amount = c.user_proposal_support->Some_0.amount;
    ReclaimSupport {
        user_lamports: (c.user_lamports + amount + c.support_lamports) as u64,
        proposal_lamports: (c.proposal_lamports - amount) as u64,
        user_proposal_support: None,
        support_lamports: 0,
        ..c
    }
}

/// Refunds a user's whole support of a rejected proposal, once its epoch was
/// processed, and closes the support record.
pub fn handler(ctx: &mut ReclaimSupport) -> (r: Result<(), ErrorCode>)
    ensures
        match reclaim_error(*old(ctx)) {
            Some(e) => r == Err::<(), ErrorCode>(e) && *final(ctx) == *old(ctx),
            None => r is Ok && *final(ctx) == reclaimed(*old(ctx)),
        },
{
    if ctx.token_proposal.status != ProposalStatus::Rejected {
        return Err(ErrorCode::ProposalNotRejected);
    }
    let support = match ctx.user_proposal_support {
        Some(s) => s,
        None => return Err(ErrorCode::NothingToReclaim),
    };
    if support.user != ctx.user {
        return Err(ErrorCode::InvalidAuthority);
    }
    if support.proposal != ctx.proposal_key {
        return Err(ErrorCode::ProposalMismatch);
    }
    if support.amount == 0 {
        return Err(ErrorCode::NothingToReclaim);
    }
    if ctx.epoch_management.epoch_id != ctx.token_proposal.epoch_id {
        return Err(ErrorCode::ProposalEpochMismatch);
    }
    if !ctx.epoch_management.processed {
        return Err(ErrorCode::EpochNotProcessedYet);
    }
    let amount_to_reclaim = support.amount;
    if ctx.proposal_lamports < amount_to_reclaim {
        return Err(ErrorCode::InsufficientProposalFunds);
    }
    let refunded = match ctx.user_lamports.checked_add(amount_to_reclaim) {
        Some(v) => v,
        None => return Err(ErrorCode::Overflow),
    };
    let user_lamports = match refunded.checked_add(ctx.support_lamports) {
        Some(v) => v,
        None => return Err(ErrorCode::Overflow),
    };
    ctx.proposal_lamports = ctx.proposal_lamports - amount_to_reclaim;
    ctx.user_lamports = user_lamports;
    ctx.user_proposal_support = None;
    ctx.support_lamports = 0;
    Ok(())
}

/// A refund happens at most once: after one is accepted, asking again on the
/// same records fails with `NothingToReclaim`, and nothing moves.
pub proof fn lemma_reclaim_exactly_once(c: ReclaimSupport)
    requires
        reclaim_error(c) is None,
    ensures
        reclaim_error(reclaimed(c)) == Some(ErrorCode::NothingToReclaim),
{
}

/// An accepted refund moves lamports without creating any: the user gains
/// exactly what the escrow and the closed record give up.
pub proof fn lemma_reclaim_conserves(c: ReclaimSupport)
    requires
        reclaim_error(c) is None,
    ensures
        reclaimed(c).user_lamports + reclaimed(c).proposal_lamports + reclaimed(c).support_lamports
            == c.user_lamports + c.proposal_lamports + c.support_lamports,
        reclaimed(c).user_lamports == c.user_lamports + c.user_proposal_support->Some_0.amount
            + c.support_lamports,
{
}

} // verus!
