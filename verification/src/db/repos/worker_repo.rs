use vstd::prelude::*;
use crate::adapters::models::common_error::{error_of, error_with, ErrorDefinition, ErrorView};
use crate::adapters::models::worker::task_worker::{what_of, TaskWorker};
use crate::db::models::task_worker_db::TaskWorkerDb;
use crate::json::Json;

verus! {

/// Reads, locks and removes workers.
#[derive(Debug, Clone, Copy, PartialEq, Eq, Structural)]
pub struct WorkerRepo;

/// The steps of locking workers for a runner.
#[derive(Debug, Clone, Copy, PartialEq, Eq, Structural)]
pub enum FetchWorkersStep {
    Unlock,
    Lock,
    Select,
    Finished,
}

/// What to do next to lock workers.
#[derive(Debug)]
pub enum FetchWorkersAction {
    /// Release the workers whose lock ran out before `now`.
    Unlock { now: i64 },
    /// Lock up to `count` free workers that are due at `now` with `lock_key`
    /// until `lock_by`.
    Lock { lock_key: u128, lock_by: i64, now: i64, count: i64 },
    /// Read the workers locked with `lock_key`.
    Select { lock_key: u128 },
    Finish(Result<Vec<TaskWorkerDb>, ErrorDefinition>),
}

/// What the database answered.
#[derive(Debug)]
pub enum FetchWorkersEvent {
    Updated(Result<(), String>),
    Rows(Result<Vec<TaskWorkerDb>, String>),
}

/// Locking workers for a runner: unlock the stale ones, lock free due ones,
/// read what was locked. The first failure ends it.
#[derive(Debug)]
pub struct FetchWorkers {
    pub lock_key: u128,
    pub now: i64,
    pub lock_by: i64,
    pub count: i64,
    pub step: FetchWorkersStep,
}

impl FetchWorkers {
    /// Whether `event` answers the step the run is at.
    pub open spec fn expects(self, event: FetchWorkersEvent) -> bool {
        match self.step {
            FetchWorkersStep::Unlock | FetchWorkersStep::Lock => event is Updated,
            FetchWorkersStep::Select => event is Rows,
            FetchWorkersStep::Finished => false,
        }
    }

    /// Whether `event` answers the step the run is at.
    pub fn accepts(&self, event: &FetchWorkersEvent) -> (r: bool)
        ensures
            r == self.expects(*event),
    {
        match (self.step, event) {
            (FetchWorkersStep::Unlock, FetchWorkersEvent::Updated(_)) => true,
            (FetchWorkersStep::Lock, FetchWorkersEvent::Updated(_)) => true,
            (FetchWorkersStep::Select, FetchWorkersEvent::Rows(_)) => true,
            _ => false,
        }
    }

    /// The next action, given the database's answer to the last one.
    pub fn next(&mut self, event: FetchWorkersEvent) -> (action: FetchWorkersAction)
        requires
            old(self).expects(event),
        ensures
            final(self).lock_key == old(self).lock_key,
            final(self).now == old(self).now,
            final(self).lock_by == old(self).lock_by,
            final(self).count == old(self).count,
            old(self).step == FetchWorkersStep::Unlock ==> match event {
                FetchWorkersEvent::Updated(Ok(())) => final(self).step == FetchWorkersStep::Lock
                    && action == (FetchWorkersAction::Lock { lock_key: old(self).lock_key, lock_by: old(self).lock_by, now: old(self).now, count: old(self).count }),
                FetchWorkersEvent::Updated(Err(t)) => final(self).step == FetchWorkersStep::Finished
                    && (action matches FetchWorkersAction::Finish(Err(e)) && e@ == error_with("Couldn't unlock workers"@, t@)),
                _ => false,
            },
            old(self).step == FetchWorkersStep::Lock ==> match event {
                FetchWorkersEvent::Updated(Ok(())) => final(self).step == FetchWorkersStep::Select
                    && action == (FetchWorkersAction::Select { lock_key: old(self).lock_key }),
                FetchWorkersEvent::Updated(Err(t)) => final(self).step == FetchWorkersStep::Finished
                    && (action matches FetchWorkersAction::Finish(Err(e)) && e@ == error_with("Couldn't lock workers"@, t@)),
                _ => false,
            },
            old(self).step == FetchWorkersStep::Select ==> final(self).step == FetchWorkersStep::Finished && match event {
                FetchWorkersEvent::Rows(Ok(rows)) => action == FetchWorkersAction::Finish(Ok(rows)),
                FetchWorkersEvent::Rows(Err(t)) => action matches FetchWorkersAction::Finish(Err(e))
                    && e@ == error_with("Couldn't fetch locked workers"@, t@),
                _ => false,
            },
    {
        match event {
            FetchWorkersEvent::Updated(Ok(())) => {
                if self.step == FetchWorkersStep::Unlock {
                    self.step = FetchWorkersStep::Lock;
                    FetchWorkersAction::Lock { lock_key: self.lock_key, lock_by: self.lock_by, now: self.now, count: self.count }
                } else {
                    self.step = FetchWorkersStep::Select;
                    FetchWorkersAction::Select { lock_key: self.lock_key }
                }
            },
            FetchWorkersEvent::Updated(Err(t)) => {
                let description = if self.step == FetchWorkersStep::Unlock {
                    "Couldn't unlock workers"
                } else {
                    "Couldn't lock workers"
                };
                self.step = FetchWorkersStep::Finished;
                FetchWorkersAction::Finish(Err(ErrorDefinition::with_error(description, t)))
            },
            FetchWorkersEvent::Rows(rows) => {
                self.step = FetchWorkersStep::Finished;
                match rows {
                    Ok(rows) => FetchWorkersAction::Finish(Ok(rows)),
                    Err(t) => FetchWorkersAction::Finish(Err(ErrorDefinition::with_error("Couldn't fetch locked workers", t))),
                }
            },
        }
    }
}

impl WorkerRepo {
    pub fn new() -> (r: WorkerRepo)
        ensures
            r == WorkerRepo,
    {
        WorkerRepo
    }

    /// Starts locking up to `count` due workers for the runner `lock_key`
    /// until `lock_by`.
    pub fn fetch_workers(&self, lock_key: u128, now: i64, lock_by: i64, count: i64) -> (r: (FetchWorkers, FetchWorkersAction))
        ensures
            r.0 == (FetchWorkers { lock_key, now, lock_by, count, step: FetchWorkersStep::Unlock }),
            r.1 == (FetchWorkersAction::Unlock { now }),
    {
        (FetchWorkers { lock_key, now, lock_by, count, step: FetchWorkersStep::Unlock }, FetchWorkersAction::Unlock { now })
    }

    /// The worker of the first row that the query gave, an error when there
    /// is none, or the query's error.
    pub fn get_worker(&self, rows: Result<Vec<TaskWorkerDb>, String>) -> (r: Result<TaskWorker, ErrorDefinition>)
        ensures
            rows matches Ok(v) ==> (v@.len() > 0 ==> (r matches Ok(w) && w.id == v@[0].id && w.task_id == v@[0].task_id
                && w.created_at == v@[0].created_at && w.element_id == v@[0].element_id && w.what == what_of(v@[0].what))),
            rows matches Ok(v) ==> (v@.len() == 0 ==> (r matches Err(e) && e@ == error_of("Worker not found"@, Json::empty_object()))),
            rows matches Err(t) ==> (r matches Err(e) && e@ == error_with("Couldn't fetch locked workers"@, t@)),
    {
        match rows {
            Ok(found) => {
                if found.len() == 0 {
                    Err(ErrorDefinition::empty("Worker not found".to_string()))
                } else {
                    Ok(TaskWorker::from_db(&found[0]))
                }
            },
            Err(t) => Err(ErrorDefinition::with_error("Couldn't fetch locked workers", t)),
        }
    }

    /// What releasing stale locks gave.
    pub fn unlock(&self, updated: Result<(), String>) -> (r: Result<(), ErrorDefinition>)
        ensures
            updated is Ok ==> r is Ok,
            updated matches Err(t) ==> (r matches Err(e) && e@ == error_with("Couldn't unlock workers"@, t@)),
    {
        match updated {
            Ok(()) => Ok(()),
            Err(t) => Err(ErrorDefinition::with_error("Couldn't unlock workers", t)),
        }
    }

    /// What deleting a worker gave.
    pub fn delete(&self, deleted: Result<(), String>) -> (r: Result<(), ErrorDefinition>)
        ensures
            deleted is Ok ==> r is Ok,
            deleted matches Err(t) ==> (r matches Err(e) && e@ == error_with("Couldn't delete worker"@, t@)),
    {
        match deleted {
            Ok(()) => Ok(()),
            Err(t) => Err(ErrorDefinition::with_error("Couldn't delete worker", t)),
        }
    }
}

} // verus!
