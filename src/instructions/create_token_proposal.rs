use vstd::prelude::*;
use crate::address::Address;
use crate::constants::{MAX_CREATOR_ALLOCATION, PROPOSAL_CREATION_FEE_LAMPORTS};
use crate::error::ErrorCode;
use crate::fee_distribution::{distribute_fees_to_treasury, distribution, FeeType};
use crate::state::{
    supporter_share, EpochManagement, EpochStatus, ProposalStatus, TokenProposal, Treasury,
};

verus! {

/// The records and balances that the creation of a proposal touches.
#[derive(Clone, Copy, Debug, PartialEq, Eq)]
pub struct CreateTokenProposal {
    /// The signer creating the proposal, who pays the creation fee.
    pub creator: Address,
    pub creator_lamports: u64,
    pub epoch: EpochManagement,
    pub treasury: Treasury,
    pub treasury_lamports: u64,
}

/// The supporters' percentage for a creator allocation; 0 for an allocation
/// above 100.
pub fn supporter_allocation(creator_allocation: u8) -> (r: u8)
    ensures
        creator_allocation <= 100 ==> r == supporter_share(creator_allocation),
        creator_allocation > 100 ==> r == 0,
{
    let remaining_allocation = 100u8.saturating_sub(creator_allocation);
    remaining_allocation.saturating_add(1) / 2
}

/// The supporters' percentage is the smallest whole percentage that is at least
/// half of what the creator leaves, for every creator allocation.
pub proof fn lemma_supporter_allocation_is_ceiling(creator_allocation: u8)
    requires
        creator_allocation <= 100,
    ensures
        2 * supporter_share(creator_allocation) >= 100 - creator_allocation,
        2 * (supporter_share(creator_allocation) - 1) < 100 - creator_allocation,
{
}

/// The first check that rejects the creation, if any.
pub open spec fn create_error(c: CreateTokenProposal, creator_allocation: u8, lockup_period: i64) -> Option<ErrorCode> {
    if creator_allocation > MAX_CREATOR_ALLOCATION {
        Some(ErrorCode::CreatorAllocationTooHigh)
    } else if lockup_period < 0 {
        Some(ErrorCode::NegativeLockupPeriod)
    } else if c.epoch.status != EpochStatus::Active {
        Some(ErrorCode::EpochNotActive)
    } else if c.creator_lamports < PROPOSAL_CREATION_FEE_LAMPORTS {
        Some(ErrorCode::InsufficientFunds)
    } else if c.treasury_lamports + PROPOSAL_CREATION_FEE_LAMPORTS > u64::MAX {
        Some(ErrorCode::Overflow)
    } else if distribution(c.treasury, PROPOSAL_CREATION_FEE_LAMPORTS, FeeType::ProposalCreation) is Err {
        Some(ErrorCode::CalculationOverflow)
    } else {
        None
    }
}

/// The records after an accepted creation: the creator paid the fixed fee into
/// the treasury, where it went to operations.
pub open spec fn fee_paid(c: CreateTokenProposal) -> CreateTokenProposal {
    CreateTokenProposal {
        creator_lamports: (c.creator_lamports - PROPOSAL_CREATION_FEE_LAMPORTS) as u64,
        treasury_lamports: (c.treasury_lamports + PROPOSAL_CREATION_FEE_LAMPORTS) as u64,
        treasury: distribution(c.treasury, PROPOSAL_CREATION_FEE_LAMPORTS, FeeType::ProposalCreation)->Ok_0,
        ..c
    }
}

/// The new proposal: in the current epoch, with no support yet.
pub open spec fn new_proposal(
    c: CreateTokenProposal,
    token_name: String,
    token_symbol: String,
    description: String,
    image_url: Option<String>,
    total_supply: u64,
    creator_allocation: u8,
    lockup_period: i64,
) -> TokenProposal {
    TokenProposal {
        epoch_id: c.epoch.epoch_id,
        creator: c.creator,
        token_name,
        token_symbol,
        description,
        image_url,
        total_supply,
        creator_allocation,
        supporter_allocation: supporter_share(creator_allocation) as u8,
        sol_raised: 0,
        total_contributions: 0,
        lockup_period,
        status: ProposalStatus::Active,
    }
}

/// Creates a proposal in an active epoch, for the fixed creation fee.
pub fn handler(
    ctx: &mut CreateTokenProposal,
    token_name: String,
    token_symbol: String,
    description: String,
    image_url: Option<String>,
    total_supply: u64,
    creator_allocation: u8,
    lockup_period: i64,
) -> (r: Result<TokenProposal, ErrorCode>)
    ensures
        match create_error(*old(ctx), creator_allocation, lockup_period) {
            Some(e) => r == Err::<TokenProposal, ErrorCode>(e) && *final(ctx) == *old(ctx),
            None => r == Ok::<TokenProposal, ErrorCode>(
                new_proposal(
                    *old(ctx),
                    token_name,
                    token_symbol,
                    description,
                    image_url,
                    total_supply,
                    creator_allocation,
                    lockup_period,
                ),
            ) && *final(ctx) == fee_paid(*old(ctx)),
        },
        r is Ok ==> r->Ok_0.wf(),
{
    if creator_allocation > MAX_CREATOR_ALLOCATION {
        return Err(ErrorCode::CreatorAllocationTooHigh);
    }
    if lockup_period < 0 {
        return Err(ErrorCode::NegativeLockupPeriod);
    }
    if ctx.epoch.status != EpochStatus::Active {
        return Err(ErrorCode::EpochNotActive);
    }
    if ctx.creator_lamports < PROPOSAL_CREATION_FEE_LAMPORTS {
        return Err(ErrorCode::InsufficientFunds);
    }
    let treasury_lamports = match ctx.treasury_lamports.checked_add(PROPOSAL_CREATION_FEE_LAMPORTS) {
        Some(v) => v,
        None => return Err(ErrorCode::Overflow),
    };
    match distribute_fees_to_treasury(&mut ctx.treasury, PROPOSAL_CREATION_FEE_LAMPORTS, FeeType::ProposalCreation) {
        Ok(()) => {},
        Err(e) => return Err(e),
    }
    ctx.creator_lamports = ctx.creator_lamports - PROPOSAL_CREATION_FEE_LAMPORTS;
    ctx.treasury_lamports = treasury_lamports;
    Ok(
        TokenProposal {
            epoch_id: ctx.epoch.epoch_id,
            creator: ctx.creator,
            token_name,
            token_symbol,
            description,
            image_url,
            total_supply,
            creator_allocation,
            supporter_allocation: supporter_allocation(creator_allocation),
            sol_raised: 0,
            total_contributions: 0,
            lockup_period,
            status: ProposalStatus::Active,
        },
    )
}

} // verus!
