use vstd::prelude::*;
use crate::adapters::models::common_error::ErrorDefinition;
use crate::adapters::models::worker::task_variable::TaskVariable;
use crate::adapters::models::worker::task_worker_result::{TaskWorkerResult, WorkerResult};

verus! {

/// A handler that passes the task's variables on, and is done.
#[derive(Debug, Clone, Copy, PartialEq, Eq, Structural)]
pub struct StartingHandler {}

impl StartingHandler {
    pub fn _new() -> (r: StartingHandler)
        ensures
            r == (StartingHandler {}),
    {
        StartingHandler {}
    }

    /// Done, with the given variables (none when none are given).
    pub fn process(&self, args: Option<Vec<TaskVariable>>) -> (r: Result<TaskWorkerResult, ErrorDefinition>)
        ensures
            r matches Ok(res) && res.result == WorkerResult::Done && res.wait_until is None
                && res.out_args@ == match args {
                    Some(a) => a@,
                    None => Seq::<TaskVariable>::empty(),
                },
    {
        let args = match args {
            Some(a) => a,
            None => Vec::new(),
        };
        Ok(TaskWorkerResult::ok_with_args(args))
    }
}

} // verus!
