use vstd::prelude::*;
use crate::flow::{CompleteTaskState, CreateTaskState, complete_start};
use crate::model::{CreateTaskCommand, TaskCompletedEvent};

verus! {

/// Relies on chrono's `Utc::now` and `DateTime::timestamp`: the current UTC
/// time in whole seconds since the Unix epoch. Nothing is stated of its value.
#[verifier::external_body]
fn utc_now_seconds() -> (r: i64) {
    chrono::Utc::now().timestamp()
}

impl CreateTaskState {
    /// Task creation for `cmd`, stamped with the current time.
    pub fn begin(cmd: CreateTaskCommand) -> (r: CreateTaskState)
        ensures
            exists|now: i64| r == (CreateTaskState::CheckingUser { cmd, now }),
    {
        let now = utc_now_seconds();
        CreateTaskState::start(cmd, now)
    }
}

impl CompleteTaskState {
    /// Recording of `req`, stamped with the current time.
    pub fn begin(req: TaskCompletedEvent) -> (r: CompleteTaskState)
        ensures
            exists|now: i64| r == complete_start(req, now),
    {
        let now = utc_now_seconds();
        CompleteTaskState::start(req, now)
    }
}

} // verus!
