use vstd::prelude::*;
use crate::address::Address;
use crate::error::ErrorCode;
use crate::state::{EpochManagement, EpochStatus, ProgramConfig, ProposalStatus, TokenProposal};

verus! {

/// The proposal after finalization to `new_status`, or the reason it is refused.
pub open spec fn finalize_result(
    authority: Address,
    program_config: ProgramConfig,
    epoch: EpochManagement,
    proposal: TokenProposal,
    new_status: ProposalStatus,
) -> Result<TokenProposal, ErrorCode> {
    if authority != program_config.admin_authority {
        Err(ErrorCode::InvalidAuthority)
    } else if epoch.status != EpochStatus::Closed {
        Err(ErrorCode::EpochNotClosed)
    } else if proposal.epoch_id != epoch.epoch_id {
        Err(ErrorCode::ProposalNotInEpoch)
    } else if proposal.status != ProposalStatus::Active {
        Err(ErrorCode::ProposalAlreadyFinalized)
    } else if new_status == ProposalStatus::Active {
        Err(ErrorCode::InvalidProposalStatusUpdate)
    } else {
        Ok(TokenProposal { status: new_status, ..proposal })
    }
}

/// Finalizes an active proposal of a closed epoch as validated or rejected;
/// admin only.
pub fn handler(
    authority: &Address,
    program_config: &ProgramConfig,
    epoch_management: &EpochManagement,
    proposal: &mut TokenProposal,
    new_status: ProposalStatus,
) -> (r: Result<(), ErrorCode>)
    ensures
        match finalize_result(*authority, *program_config, *epoch_management, *old(proposal), new_status) {
            Ok(p) => r is Ok && *final(proposal) == p,
            Err(e) => r == Err::<(), ErrorCode>(e) && *final(proposal) == *old(proposal),
        },
        old(proposal).wf() ==> final(proposal).wf(),
{
    if *authority != program_config.admin_authority {
        return Err(ErrorCode::InvalidAuthority);
    }
    if epoch_management.status != EpochStatus::Closed {
        return Err(ErrorCode::EpochNotClosed);
    }
    if proposal.epoch_id != epoch_management.epoch_id {
        return Err(ErrorCode::ProposalNotInEpoch);
    }
    if proposal.status != ProposalStatus::Active {
        return Err(ErrorCode::ProposalAlreadyFinalized);
    }
    if new_status == ProposalStatus::Active {
        return Err(ErrorCode::InvalidProposalStatusUpdate);
    }
    proposal.status = new_status;
    Ok(())
}

/// Finalization is one-way: once a proposal was finalized, a second attempt
/// fails with `ProposalAlreadyFinalized`, whatever status it asks for.
pub proof fn lemma_finalized_once(
    authority: Address,
    program_config: ProgramConfig,
    epoch: EpochManagement,
    proposal: TokenProposal,
    new_status: ProposalStatus,
    next_status: ProposalStatus,
)
    requires
        finalize_result(authority, program_config, epoch, proposal, new_status) is Ok,
    ensures
        finalize_result(
            authority,
            program_config,
            epoch,
            finalize_result(authority, program_config, epoch, proposal, new_status)->Ok_0,
            next_status,
        ) == Err::<TokenProposal, ErrorCode>(ErrorCode::ProposalAlreadyFinalized),
{
}

} // verus!
