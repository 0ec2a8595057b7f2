use vstd::prelude::*;

verus! {

/// A row of `pc_task_worker`: a pending piece of work on a task.
#[derive(Debug)]
pub struct TaskWorkerDb {
    pub id: u128,
    pub task_id: u128,
    pub element_id: u128,
    pub created_at: i64,
    pub run_after: i64,
    pub runner_key: Option<u128>,
    pub locked_by: Option<i64>,
    pub what: Option<String>,
}

} // verus!
