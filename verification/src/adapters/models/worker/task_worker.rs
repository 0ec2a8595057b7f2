use vstd::prelude::*;
use crate::db::models::task_worker_db::TaskWorkerDb;
use crate::json::str_equal;

verus! {

/// What a worker is to do with its flow element.
#[derive(Debug, Clone, Copy, PartialEq, Eq, Structural)]
pub enum WorkerWhat {
    Process,
    RouteAfter,
}

/// A pending piece of work: run or route a flow element of a task.
#[derive(Debug)]
pub struct TaskWorker {
    pub id: u128,
    pub task_id: u128,
    pub created_at: i64,
    pub element_id: u128,
    pub what: WorkerWhat,
}

/// The work that a stored `what` text names: `route_after` routes, anything
/// else (and nothing) processes.
pub open spec fn what_of(text: Option<String>) -> WorkerWhat {
    match text {
        Some(t) => if t@ == "route_after"@ { WorkerWhat::RouteAfter } else { WorkerWhat::Process },
        None => WorkerWhat::Process,
    }
}

impl WorkerWhat {
    /// The text that a worker row stores for this work.
    pub open spec fn db_text(self) -> Seq<char> {
        match self {
            WorkerWhat::Process => "process"@,
            WorkerWhat::RouteAfter => "route_after"@,
        }
    }

    /// The text that a worker row stores for this work.
    pub fn as_db_text(&self) -> (r: String)
        ensures
            r@ == self.db_text(),
    {
        match self {
            WorkerWhat::Process => "process".to_string(),
            WorkerWhat::RouteAfter => "route_after".to_string(),
        }
    }
}

impl TaskWorker {
    /// The worker stored in a `pc_task_worker` row.
    pub fn from_db(model: &TaskWorkerDb) -> (r: TaskWorker)
        ensures
            r.id == model.id,
            r.task_id == model.task_id,
            r.created_at == model.created_at,
            r.element_id == model.element_id,
            r.what == what_of(model.what),
    {
        let what = match &model.what {
            Some(t) => if str_equal(t.as_str(), "route_after") {
                WorkerWhat::RouteAfter
            } else {
                WorkerWhat::Process
            },
            None => WorkerWhat::Process,
        };
        TaskWorker {
            id: model.id,
            task_id: model.task_id,
            created_at: model.created_at,
            element_id: model.element_id,
            what,
        }
    }
}

/// What a worker row stores for its work reads back as that work.
pub proof fn lemma_what_round_trip(what: WorkerWhat, stored: String)
    requires
        stored@ == what.db_text(),
    ensures
        what_of(Some(stored)) == what,
{
    reveal_strlit("process");
    reveal_strlit("route_after");
    assert("process"@.len() != "route_after"@.len());
}

} // verus!
