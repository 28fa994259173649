use vstd::prelude::*;
use crate::address::Address;
use crate::error::ErrorCode;
use crate::instructions::check_epoch_end::{self, auto_close, TaskResponse};
use crate::state::{EpochManagement, ProgramConfig};

verus! {

/// The watchdog check run by the admin key: fails with `InvalidAuthority` for any
/// other signer, and otherwise acts as `check_epoch_end`.
pub fn handler(
    authority: &Address,
    program_config: &ProgramConfig,
    epoch_management: &mut EpochManagement,
    now: i64,
) -> (r: Result<TaskResponse, ErrorCode>)
    ensures
        *authority != program_config.admin_authority ==> r == Err::<TaskResponse, ErrorCode>(
            ErrorCode::InvalidAuthority,
        ) && *final(epoch_management) == *old(epoch_management),
        *authority == program_config.admin_authority ==> r == Ok::<TaskResponse, ErrorCode>(
            auto_close(*old(epoch_management), now).1,
        ) && *final(epoch_management) == auto_close(*old(epoch_management), now).0,
        old(epoch_management).wf() ==> final(epoch_management).wf(),
{
    if *authority != program_config.admin_authority {
        return Err(ErrorCode::InvalidAuthority);
    }
    Ok(check_epoch_end::handler(epoch_management, now))
}

} // verus!
