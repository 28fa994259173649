use vstd::prelude::*;
use crate::address::Address;
use crate::error::ErrorCode;
use crate::state::{EpochManagement, EpochStatus, ProgramConfig};

verus! {

/// Notice that an epoch was closed, and when.
#[derive(Clone, Copy, Debug, PartialEq, Eq, Structural)]
pub struct EpochEnded {
    pub epoch_id: u64,
    pub ended_at: i64,
}

/// The epoch once closed at `now`.
pub open spec fn closed_at(epoch: EpochManagement, now: i64) -> EpochManagement {
    EpochManagement { status: EpochStatus::Closed, end_time: now, ..epoch }
}

/// The epoch after `end_epoch`, or the reason it refuses.
pub open spec fn end_epoch_result(
    authority: Address,
    program_config: ProgramConfig,
    epoch: EpochManagement,
    epoch_id: u64,
    now: i64,
) -> Result<EpochManagement, ErrorCode> {
    if authority != program_config.admin_authority {
        Err(ErrorCode::Unauthorized)
    } else if epoch.epoch_id != epoch_id {
        Err(ErrorCode::InvalidEpochId)
    } else if epoch.status != EpochStatus::Active {
        Err(ErrorCode::EpochAlreadyInactive)
    } else {
        Ok(closed_at(epoch, now))
    }
}

/// Closes an active epoch at the current time `now`; admin only.
pub fn handler(
    authority: &Address,
    program_config: &ProgramConfig,
    epoch_management: &mut EpochManagement,
    epoch_id: u64,
    now: i64,
) -> (r: Result<EpochEnded, ErrorCode>)
    ensures
        match end_epoch_result(*authority, *program_config, *old(epoch_management), epoch_id, now) {
            Ok(e) => r == Ok::<EpochEnded, ErrorCode>(EpochEnded { epoch_id, ended_at: now })
                && *final(epoch_management) == e,
            Err(err) => r == Err::<EpochEnded, ErrorCode>(err)
                && *final(epoch_management) == *old(epoch_management),
        },
        old(epoch_management).wf() ==> final(epoch_management).wf(),
{
    if *authority != program_config.admin_authority {
        return Err(ErrorCode::Unauthorized);
    }
    if epoch_management.epoch_id != epoch_id {
        return Err(ErrorCode::InvalidEpochId);
    }
    if epoch_management.status != EpochStatus::Active {
        return Err(ErrorCode::EpochAlreadyInactive);
    }
    epoch_management.status = EpochStatus::Closed;
    epoch_management.end_time = now;
    Ok(EpochEnded { epoch_id, ended_at: now })
}

} // verus!
