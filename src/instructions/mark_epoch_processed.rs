use vstd::prelude::*;
use crate::address::Address;
use crate::error::ErrorCode;
use crate::instructions::end_epoch::end_epoch_result;
use crate::instructions::start_epoch::start_epoch_result;
use crate::state::{EpochManagement, EpochStatus, ProgramConfig};

verus! {

/// The epoch after `mark_epoch_processed`, or the reason it refuses.
pub open spec fn mark_processed_result(
    authority: Address,
    program_config: ProgramConfig,
    epoch: EpochManagement,
) -> Result<EpochManagement, ErrorCode> {
    if authority != program_config.admin_authority {
        Err(ErrorCode::Unauthorized)
    } else if epoch.status != EpochStatus::Closed {
        Err(ErrorCode::EpochNotClosed)
    } else if epoch.processed {
        Err(ErrorCode::EpochAlreadyProcessed)
    } else {
        Ok(EpochManagement { processed: true, ..epoch })
    }
}

/// Marks a closed epoch as processed, which opens refunds of its rejected
/// proposals; admin only, and once.
pub fn handler(
    authority: &Address,
    program_config: &ProgramConfig,
    epoch_management: &mut EpochManagement,
) -> (r: Result<(), ErrorCode>)
    ensures
        match mark_processed_result(*authority, *program_config, *old(epoch_management)) {
            Ok(e) => r is Ok && *final(epoch_management) == e,
            Err(err) => r == Err::<(), ErrorCode>(err)
                && *final(epoch_management) == *old(epoch_management),
        },
        old(epoch_management).wf() ==> final(epoch_management).wf(),
{
    if *authority != program_config.admin_authority {
        return Err(ErrorCode::Unauthorized);
    }
    match epoch_management.status {
        EpochStatus::Closed => {},
        _ => return Err(ErrorCode::EpochNotClosed),
    }
    if epoch_management.processed {
        return Err(ErrorCode::EpochAlreadyProcessed);
    }
    epoch_management.processed = true;
    Ok(())
}

/// An epoch is processed once: a second mark on the same record fails with
/// `EpochAlreadyProcessed`.
pub proof fn lemma_processed_once(authority: Address, program_config: ProgramConfig, epoch: EpochManagement)
    requires
        mark_processed_result(authority, program_config, epoch) is Ok,
    ensures
        mark_processed_result(authority, program_config, mark_processed_result(authority, program_config, epoch)->Ok_0)
            == Err::<EpochManagement, ErrorCode>(ErrorCode::EpochAlreadyProcessed),
{
}

/// An epoch that was started and not yet ended cannot be marked processed: the
/// admin's attempt fails with `EpochNotClosed`.
pub proof fn lemma_processed_needs_closed(
    authority: Address,
    program_config: ProgramConfig,
    epoch_id: u64,
    start_time: i64,
    end_time: i64,
)
    requires
        start_epoch_result(authority, program_config, epoch_id, start_time, end_time) is Ok,
    ensures
        mark_processed_result(
            authority,
            program_config,
            start_epoch_result(authority, program_config, epoch_id, start_time, end_time)->Ok_0,
        ) == Err::<EpochManagement, ErrorCode>(ErrorCode::EpochNotClosed),
{
}

/// Once the admin ended the epoch, marking it processed succeeds, and the flag
/// stays set afterwards.
pub proof fn lemma_processed_after_end(
    authority: Address,
    program_config: ProgramConfig,
    epoch: EpochManagement,
    epoch_id: u64,
    now: i64,
)
    requires
        end_epoch_result(authority, program_config, epoch, epoch_id, now) is Ok,
        !epoch.processed,
    ensures
        mark_processed_result(
            authority,
            program_config,
            end_epoch_result(authority, program_config, epoch, epoch_id, now)->Ok_0,
        ) is Ok,
        mark_processed_result(
            authority,
            program_config,
            end_epoch_result(authority, program_config, epoch, epoch_id, now)->Ok_0,
        )->Ok_0.processed,
{
}

} // verus!
