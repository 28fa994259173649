use vstd::prelude::*;
use crate::address::Address;
use crate::constants::MAX_CREATOR_ALLOCATION;
use crate::error::ErrorCode;
use crate::instructions::create_token_proposal::supporter_allocation;
use crate::state::{supporter_share, EpochManagement, EpochStatus, ProposalStatus, TokenProposal};

verus! {

/// The first check that rejects an edit, if any.
pub open spec fn update_error(
    creator: Address,
    proposal: TokenProposal,
    epoch: EpochManagement,
    creator_allocation: Option<u8>,
    lockup_period: Option<i64>,
) -> Option<ErrorCode> {
    if proposal.creator != creator {
        Some(ErrorCode::UnauthorizedCreator)
    } else if epoch.epoch_id != proposal.epoch_id {
        Some(ErrorCode::ProposalEpochMismatch)
    } else if epoch.status != EpochStatus::Active {
        Some(ErrorCode::EpochNotActive)
    } else if proposal.status != ProposalStatus::Active {
        Some(ErrorCode::ProposalNotActive)
    } else if creator_allocation matches Some(a) && a > MAX_CREATOR_ALLOCATION {
        Some(ErrorCode::CreatorAllocationTooHigh)
    } else if lockup_period matches Some(p) && p < 0 {
        Some(ErrorCode::NegativeLockupPeriod)
    } else {
        None
    }
}

/// The proposal with each given field replaced; a new creator allocation also
/// sets the supporters' share from it.
pub open spec fn updated(
    proposal: TokenProposal,
    token_name: Option<String>,
    token_symbol: Option<String>,
    total_supply: Option<u64>,
    creator_allocation: Option<u8>,
    lockup_period: Option<i64>,
) -> TokenProposal {
    TokenProposal {
        token_name: match token_name {
            Some(n) => n,
            None => proposal.token_name,
        },
        token_symbol: match token_symbol {
            Some(s) => s,
            None => proposal.token_symbol,
        },
        total_supply: match total_supply {
            Some(s) => s,
            None => proposal.total_supply,
        },
        creator_allocation: match creator_allocation {
            Some(a) => a,
            None => proposal.creator_allocation,
        },
        supporter_allocation: match creator_allocation {
            Some(a) => supporter_share(a) as u8,
            None => proposal.supporter_allocation,
        },
        lockup_period: match lockup_period {
            Some(p) => p,
            None => proposal.lockup_period,
        },
        ..proposal
    }
}

/// Lets the creator edit an active proposal while its epoch is active.
pub fn handler(
    creator: &Address,
    proposal: &mut TokenProposal,
    epoch: &EpochManagement,
    token_name: Option<String>,
    token_symbol: Option<String>,
    total_supply: Option<u64>,
    creator_allocation: Option<u8>,
    lockup_period: Option<i64>,
) -> (r: Result<(), ErrorCode>)
    ensures
        match update_error(*creator, *old(proposal), *epoch, creator_allocation, lockup_period) {
            Some(e) => r == Err::<(), ErrorCode>(e) && *final(proposal) == *old(proposal),
            None => r is Ok && *final(proposal) == updated(
                *old(proposal),
                token_name,
                token_symbol,
                total_supply,
                creator_allocation,
                lockup_period,
            ),
        },
        old(proposal).wf() ==> final(proposal).wf(),
{
    if proposal.creator != *creator {
        return Err(ErrorCode::UnauthorizedCreator);
    }
    if epoch.epoch_id != proposal.epoch_id {
        return Err(ErrorCode::ProposalEpochMismatch);
    }
    if epoch.status != EpochStatus::Active {
        return Err(ErrorCode::EpochNotActive);
    }
    if proposal.status != ProposalStatus::Active {
        return Err(ErrorCode::ProposalNotActive);
    }
    if let Some(a) = creator_allocation {
        if a > MAX_CREATOR_ALLOCATION {
            return Err(ErrorCode::CreatorAllocationTooHigh);
        }
    }
    if let Some(p) = lockup_period {
        if p < 0 {
            return Err(ErrorCode::NegativeLockupPeriod);
        }
    }
    if let Some(name) = token_name {
        proposal.token_name = name;
    }
    if let Some(symbol) = token_symbol {
        proposal.token_symbol = symbol;
    }
    if let Some(supply) = total_supply {
        proposal.total_supply = supply;
    }
    if let Some(allocation) = creator_allocation {
        proposal.creator_allocation = allocation;
        proposal.supporter_allocation = supporter_allocation(allocation);
    }
    if let Some(period) = lockup_period {
        proposal.lockup_period = period;
    }
    Ok(())
}

} // verus!
