use vstd::prelude::*;
use crate::adapters::models::common_error::ErrorDefinition;
use crate::adapters::models::worker::task_worker_result::{TaskWorkerResult, WorkerResult};

verus! {

/// The handler of a flow's last element: it clears the task.
#[derive(Debug, Clone, Copy, PartialEq, Eq, Structural)]
pub struct FinishHandler;

impl FinishHandler {
    pub fn new() -> (r: FinishHandler)
        ensures
            r == FinishHandler,
    {
        FinishHandler
    }

    /// What clearing the task gave: the task is finishing, or the error.
    pub fn process(&self, cleared: Result<(), ErrorDefinition>) -> (r: Result<TaskWorkerResult, ErrorDefinition>)
        ensures
            cleared is Ok ==> (r matches Ok(res) && res.result == WorkerResult::Finishing && res.wait_until is None
                && res.out_args@.len() == 0),
            cleared matches Err(e) ==> r matches Err(e2) && e2 == e,
    {
        match cleared {
            Ok(()) => Ok(TaskWorkerResult::finish()),
            Err(err) => Err(err),
        }
    }
}

} // verus!
