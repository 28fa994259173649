use vstd::prelude::*;
use crate::address::Address;
use crate::error::ErrorCode;
use crate::state::{ProposalStatus, TokenProposal};

verus! {

/// A snapshot of a proposal's public terms and progress.
#[derive(Clone, Debug)]
pub struct ProposalDetailsRetrieved {
    pub epoch_id: u64,
    pub creator: Address,
    pub token_name: String,
    pub token_symbol: String,
    pub total_supply: u64,
    pub creator_allocation: u8,
    pub supporter_allocation: u8,
    pub sol_raised: u64,
    pub total_contributions: u64,
    pub lockup_period: i64,
    pub status: ProposalStatus,
}

pub open spec fn details_of(p: TokenProposal) -> ProposalDetailsRetrieved {
    ProposalDetailsRetrieved {
        epoch_id: p.epoch_id,
        creator: p.creator,
        token_name: p.token_name,
        token_symbol: p.token_symbol,
        total_supply: p.total_supply,
        creator_allocation: p.creator_allocation,
        supporter_allocation: p.supporter_allocation,
        sol_raised: p.sol_raised,
        total_contributions: p.total_contributions,
        lockup_period: p.lockup_period,
        status: p.status,
    }
}

/// Read-only lookup of a proposal of epoch `epoch_id`.
pub fn handler(proposal: &TokenProposal, epoch_id: u64) -> (r: Result<ProposalDetailsRetrieved, ErrorCode>)
    ensures
        proposal.epoch_id == epoch_id ==> r == Ok::<ProposalDetailsRetrieved, ErrorCode>(
            details_of(*proposal),
        ),
        proposal.epoch_id != epoch_id ==> r == Err::<ProposalDetailsRetrieved, ErrorCode>(
            ErrorCode::EpochNotFound,
        ),
{
    if proposal.epoch_id != epoch_id {
        return Err(ErrorCode::EpochNotFound);
    }
    Ok(
        ProposalDetailsRetrieved {
            epoch_id: proposal.epoch_id,
            creator: proposal.creator,
            token_name: proposal.token_name.clone(),
            token_symbol: proposal.token_symbol.clone(),
            total_supply: proposal.total_supply,
            creator_allocation: proposal.creator_allocation,
            supporter_allocation: proposal.supporter_allocation,
            sol_raised: proposal.sol_raised,
            total_contributions: proposal.total_contributions,
            lockup_period: proposal.lockup_period,
            status: proposal.status,
        },
    )
}

} // verus!
