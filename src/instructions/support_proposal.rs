use vstd::prelude::*;
use crate::address::Address;
use crate::constants::{SUPPORT_FEE_PERCENTAGE_DENOMINATOR, SUPPORT_FEE_PERCENTAGE_NUMERATOR};
use crate::error::ErrorCode;
use crate::fee_distribution::{
    distribute_fees_to_treasury, distribution, lemma_distribution_conserves, treasury_total, FeeType,
};
use crate::state::{
    EpochManagement, EpochStatus, ProposalStatus, TokenProposal, Treasury, UserProposalSupport,
};

verus! {

/// The records and balances that one support contribution touches.
#[derive(Clone, Debug)]
pub struct SupportProposal {
    /// The contributing signer.
    pub user: Address,
    pub user_lamports: u64,
    pub epoch: EpochManagement,
    pub proposal: TokenProposal,
    /// Address of the proposal record, which also holds its escrow.
    pub proposal_key: Address,
    pub proposal_lamports: u64,
    /// The user's support record for this proposal, if it was created already.
    pub user_support: Option<UserProposalSupport>,
    pub treasury: Treasury,
    pub treasury_lamports: u64,
}

/// The support fee on `amount`, rounded down.
pub open spec fn support_fee(amount: u64) -> nat {
    (amount as nat * SUPPORT_FEE_PERCENTAGE_NUMERATOR as nat) / SUPPORT_FEE_PERCENTAGE_DENOMINATOR as nat
}

pub open spec fn fee_overflows(amount: u64) -> bool {
    amount as nat * SUPPORT_FEE_PERCENTAGE_NUMERATOR as nat > u64::MAX
}

/// The fee taken from a contribution of `amount`; fails only where
/// `amount * NUMERATOR` does not fit in a `u64`.
pub fn calculate_support_fee(amount: u64) -> (r: Result<u64, ErrorCode>)
    ensures
        fee_overflows(amount) ==> r == Err::<u64, ErrorCode>(ErrorCode::CalculationOverflow),
        !fee_overflows(amount) ==> r == Ok::<u64, ErrorCode>(support_fee(amount) as u64),
{
    match amount.checked_mul(SUPPORT_FEE_PERCENTAGE_NUMERATOR) {
        Some(product) => Ok(product / SUPPORT_FEE_PERCENTAGE_DENOMINATOR),
        None => Err(ErrorCode::CalculationOverflow),
    }
}

/// What the user's record held before this contribution.
pub open spec fn prior_amount(c: SupportProposal) -> nat {
    match c.user_support {
        Some(s) => s.amount as nat,
        None => 0,
    }
}

/// The first check that rejects a contribution of `amount`, if any.
pub open spec fn support_error(c: SupportProposal, amount: u64) -> Option<ErrorCode> {
    let fee = support_fee(amount);
    let net = amount - fee;
    if amount == 0 {
        Some(ErrorCode::AmountMustBeGreaterThanZero)
    } else if c.epoch.status != EpochStatus::Active {
        Some(ErrorCode::EpochNotActive)
    } else if c.epoch.epoch_id != c.proposal.epoch_id {
        Some(ErrorCode::ProposalEpochMismatch)
    } else if c.proposal.status != ProposalStatus::Active {
        Some(ErrorCode::ProposalNotActive)
    } else if fee_overflows(amount) {
        Some(ErrorCode::CalculationOverflow)
    } else if fee == 0 {
        Some(ErrorCode::FeeCannotBeZero)
    } else if amount <= fee {
        Some(ErrorCode::AmountTooLowToCoverFees)
    } else if c.user_support matches Some(s) && (s.user != c.user || s.proposal != c.proposal_key) {
        Some(ErrorCode::ProposalMismatch)
    } else if c.user_lamports < amount {
        Some(ErrorCode::InsufficientFunds)
    } else if c.proposal_lamports + net > u64::MAX || c.treasury_lamports + fee > u64::MAX {
        Some(ErrorCode::Overflow)
    } else if distribution(c.treasury, fee as u64, FeeType::ProposalSupport) is Err {
        Some(ErrorCode::CalculationOverflow)
    } else if c.proposal.sol_raised + net > u64::MAX || (c.user_support is None
        && c.proposal.total_contributions + 1 > u64::MAX) || prior_amount(c) + net > u64::MAX {
        Some(ErrorCode::Overflow)
    } else {
        None
    }
}

/// The records after an accepted contribution of `amount`: the net amount moves
/// to the proposal's escrow and is added to its total and to the user's record,
/// the fee goes to the treasury and is split there, and a first contribution
/// creates the record and counts one more supporter.
pub open spec fn supported(c: SupportProposal, amount: u64) -> SupportProposal {
    let fee = support_fee(amount);
    let net = amount - fee;
    SupportProposal {
        user_lamports: (c.user_lamports - amount) as u64,
        proposal_lamports: (c.proposal_lamports + net) as u64,
        treasury_lamports: (c.treasury_lamports + fee) as u64,
        treasury: distribution(c.treasury, fee as u64, FeeType::ProposalSupport)->Ok_0,
        proposal: TokenProposal {
            sol_raised: (c.proposal.sol_raised + net) as u64,
            total_contributions: if c.user_support is None {
                (c.proposal.total_contributions + 1) as u64
            } else {
                c.proposal.total_contributions
            },
            ..c.proposal
        },
        user_support: Some(
            match c.user_support {
                Some(s) => UserProposalSupport { amount: (s.amount + net) as u64, ..s },
                None => UserProposalSupport {
                    epoch_id: c.proposal.epoch_id,
                    user: c.user,
                    proposal: c.proposal_key,
                    amount: net as u64,
                },
            },
        ),
        ..c
    }
}

/// Contributes `amount` lamports from the user to the proposal, less the
/// support fee, which the treasury collects.
pub fn handler(ctx: &mut SupportProposal, amount: u64) -> (r: Result<(), ErrorCode>)
    ensures
        match support_error(*old(ctx), amount) {
            Some(e) => r == Err::<(), ErrorCode>(e) && *final(ctx) == *old(ctx),
            None => r is Ok && *final(ctx) == supported(*old(ctx), amount),
        },
        old(ctx).proposal.wf() ==> final(ctx).proposal.wf(),
{
    if amount == 0 {
        return Err(ErrorCode::AmountMustBeGreaterThanZero);
    }
    if ctx.epoch.status != EpochStatus::Active {
        return Err(ErrorCode::EpochNotActive);
    }
    if ctx.epoch.epoch_id != ctx.proposal.epoch_id {
        return Err(ErrorCode::ProposalEpochMismatch);
    }
    if ctx.proposal.status != ProposalStatus::Active {
        return Err(ErrorCode::ProposalNotActive);
    }
    let fee = match calculate_support_fee(amount) {
        Ok(fee) => fee,
        Err(e) => return Err(e),
    };
    if fee == 0 {
        return Err(ErrorCode::FeeCannotBeZero);
    }
    if amount <= fee {
        return Err(ErrorCode::AmountTooLowToCoverFees);
    }
    let net = amount - fee;
    let prior: u64 = match &ctx.user_support {
        Some(s) => {
            if s.user != ctx.user || s.proposal != ctx.proposal_key {
                return Err(ErrorCode::ProposalMismatch);
            }
            s.amount
        },
        None => 0,
    };
    if ctx.user_lamports < amount {
        return Err(ErrorCode::InsufficientFunds);
    }
    let proposal_lamports = match ctx.proposal_lamports.checked_add(net) {
        Some(v) => v,
        None => return Err(ErrorCode::Overflow),
    };
    let treasury_lamports = match ctx.treasury_lamports.checked_add(fee) {
        Some(v) => v,
        None => return Err(ErrorCode::Overflow),
    };
    let mut treasury = ctx.treasury;
    match distribute_fees_to_treasury(&mut treasury, fee, FeeType::ProposalSupport) {
        Ok(()) => {},
        Err(e) => return Err(e),
    }
    let sol_raised = match ctx.proposal.sol_raised.checked_add(net) {
        Some(v) => v,
        None => return Err(ErrorCode::Overflow),
    };
    let is_new_supporter = ctx.user_support.is_none();
    let total_contributions = if is_new_supporter {
        match ctx.proposal.total_contributions.checked_add(1) {
            Some(v) => v,
            None => return Err(ErrorCode::Overflow),
        }
    } else {
        ctx.proposal.total_contributions
    };
    let supported_amount = match prior.checked_add(net) {
        Some(v) => v,
        None => return Err(ErrorCode::Overflow),
    };
    let record = match ctx.user_support {
        Some(s) => UserProposalSupport { amount: supported_amount, ..s },
        None => UserProposalSupport {
            epoch_id: ctx.proposal.epoch_id,
            user: ctx.user,
            proposal: ctx.proposal_key,
            amount: supported_amount,
        },
    };
    ctx.user_lamports = ctx.user_lamports - amount;
    ctx.proposal_lamports = proposal_lamports;
    ctx.treasury_lamports = treasury_lamports;
    ctx.treasury = treasury;
    ctx.proposal.sol_raised = sol_raised;
    ctx.proposal.total_contributions = total_contributions;
    ctx.user_support = Some(record);
    Ok(())
}

/// Support is cumulative per user: a second contribution by the same user adds
/// to the same record and to the proposal's total, and does not count the user
/// again.
pub proof fn lemma_repeat_support_counts_once(c: SupportProposal, first: u64, second: u64)
    requires
        c.user_support is None,
        support_error(c, first) is None,
        support_error(supported(c, first), second) is None,
    ensures
        ({
            let after = supported(supported(c, first), second);
            let net = (first - support_fee(first)) + (second - support_fee(second));
            &&& after.proposal.total_contributions == c.proposal.total_contributions + 1
            &&& after.proposal.sol_raised == c.proposal.sol_raised + net
            &&& after.user_support->Some_0.amount == net
            &&& after.user_support->Some_0.user == c.user
        }),
{
}

/// An accepted contribution moves lamports without creating any: what the user
/// pays is what the escrow and the treasury receive, and the treasury's
/// categories together record exactly the fee.
pub proof fn lemma_support_conserves(c: SupportProposal, amount: u64)
    requires
        support_error(c, amount) is None,
    ensures
        supported(c, amount).user_lamports + supported(c, amount).proposal_lamports
            + supported(c, amount).treasury_lamports == c.user_lamports + c.proposal_lamports
            + c.treasury_lamports,
        treasury_total(supported(c, amount).treasury) == treasury_total(c.treasury) + support_fee(amount),
{
    lemma_distribution_conserves(c.treasury, support_fee(amount) as u64, FeeType::ProposalSupport);
}

} // verus!
