use vstd::prelude::*;
use crate::instructions::end_epoch::closed_at;
use crate::state::{EpochManagement, EpochStatus};

verus! {

/// What a periodic watchdog should do after one check of an epoch.
#[derive(Clone, Copy, Debug, PartialEq, Eq, Structural)]
pub enum TaskResponse {
    /// The epoch is still running: check again later.
    Continue,
    /// The epoch is closed: stop checking.
    Complete,
}

/// The epoch after a watchdog check at `now`, and what the watchdog should do.
pub open spec fn auto_close(epoch: EpochManagement, now: i64) -> (EpochManagement, TaskResponse) {
    if epoch.status != EpochStatus::Active {
        (epoch, TaskResponse::Complete)
    } else if now >= epoch.end_time {
        (closed_at(epoch, now), TaskResponse::Complete)
    } else {
        (epoch, TaskResponse::Continue)
    }
}

/// One watchdog check: closes an active epoch whose end time has come. Calling
/// it on an epoch that is already closed changes nothing.
pub fn handler(epoch_management: &mut EpochManagement, now: i64) -> (r: TaskResponse)
    ensures
        (*final(epoch_management), r) == auto_close(*old(epoch_management), now),
        old(epoch_management).wf() ==> final(epoch_management).wf(),
{
    if epoch_management.status != EpochStatus::Active {
        return TaskResponse::Complete;
    }
    if now >= epoch_management.end_time {
        epoch_management.status = EpochStatus::Closed;
        epoch_management.end_time = now;
        return TaskResponse::Complete;
    }
    TaskResponse::Continue
}

/// The watchdog may retry freely: a second check right after one that completed
/// changes nothing and completes again.
pub proof fn lemma_auto_close_idempotent(epoch: EpochManagement, now: i64, later: i64)
    requires
        auto_close(epoch, now).1 == TaskResponse::Complete,
    ensures
        auto_close(auto_close(epoch, now).0, later) == (auto_close(epoch, now).0, TaskResponse::Complete),
{
}

} // verus!
