use vstd::prelude::*;
use crate::error::ErrorCode;
use crate::state::EpochManagement;

verus! {

/// Read-only lookup: the record, if it is the one of epoch `epoch_id`.
pub fn handler(epoch_management: &EpochManagement, epoch_id: u64) -> (r: Result<EpochManagement, ErrorCode>)
    ensures
        epoch_management.epoch_id == epoch_id ==> r == Ok::<EpochManagement, ErrorCode>(*epoch_management),
        epoch_management.epoch_id != epoch_id ==> r == Err::<EpochManagement, ErrorCode>(
            ErrorCode::EpochNotFound,
        ),
{
    if epoch_management.epoch_id != epoch_id {
        return Err(ErrorCode::EpochNotFound);
    }
    Ok(*epoch_management)
}

} // verus!
