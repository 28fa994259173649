use vstd::prelude::*;
use crate::address::Address;
use crate::error::ErrorCode;
use crate::state::{EpochManagement, EpochStatus, ProgramConfig};

verus! {

/// The epoch record that `start_epoch` creates, or the reason it refuses.
pub open spec fn start_epoch_result(
    authority: Address,
    program_config: ProgramConfig,
    epoch_id: u64,
    start_time: i64,
    end_time: i64,
) -> Result<EpochManagement, ErrorCode> {
    if authority != program_config.admin_authority {
        Err(ErrorCode::Unauthorized)
    } else if start_time >= end_time {
        Err(ErrorCode::InvalidEpochTimeRange)
    } else {
        Ok(
            EpochManagement {
                epoch_id,
                start_time,
                end_time,
                status: EpochStatus::Active,
                processed: false,
            },
        )
    }
}

/// Opens epoch `epoch_id` for `[start_time, end_time)`; admin only.
pub fn handler(
    authority: &Address,
    program_config: &ProgramConfig,
    epoch_id: u64,
    start_time: i64,
    end_time: i64,
) -> (r: Result<EpochManagement, ErrorCode>)
    ensures
        r == start_epoch_result(*authority, *program_config, epoch_id, start_time, end_time),
        r is Ok ==> r->Ok_0.wf(),
{
    if *authority != program_config.admin_authority {
        return Err(ErrorCode::Unauthorized);
    }
    if start_time >= end_time {
        return Err(ErrorCode::InvalidEpochTimeRange);
    }
    Ok(EpochManagement { epoch_id, start_time, end_time, status: EpochStatus::Active, processed: false })
}

} // verus!
