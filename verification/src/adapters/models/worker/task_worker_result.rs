use vstd::prelude::*;
use crate::adapters::models::worker::task_variable::TaskVariable;

verus! {

/// How a handler ended its work on a flow element.
#[derive(Debug, Clone, Copy, PartialEq, Eq, Structural)]
pub enum WorkerResult {
    Done,
    Fail,
    Finishing,
}

/// What a handler hands back: how it ended, when to run again, and the
/// variables it produced.
#[derive(Debug)]
pub struct TaskWorkerResult {
    pub result: WorkerResult,
    pub wait_until: Option<i64>,
    pub out_args: Vec<TaskVariable>,
}

impl TaskWorkerResult {
    /// Done, with no variables.
    pub fn ok() -> (r: TaskWorkerResult)
        ensures
            r.result == WorkerResult::Done,
            r.wait_until is None,
            r.out_args@.len() == 0,
    {
        TaskWorkerResult { result: WorkerResult::Done, wait_until: None, out_args: Vec::new() }
    }

    /// Done, with the given variables.
    pub fn ok_with_args(args: Vec<TaskVariable>) -> (r: TaskWorkerResult)
        ensures
            r.result == WorkerResult::Done,
            r.wait_until is None,
            r.out_args@ == args@,
    {
        TaskWorkerResult { result: WorkerResult::Done, wait_until: None, out_args: args }
    }

    /// The task is finishing, with no variables.
    pub fn finish() -> (r: TaskWorkerResult)
        ensures
            r.result == WorkerResult::Finishing,
            r.wait_until is None,
            r.out_args@.len() == 0,
    {
        TaskWorkerResult { result: WorkerResult::Finishing, wait_until: None, out_args: Vec::new() }
    }
}

} // verus!
