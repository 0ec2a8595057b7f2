use vstd::prelude::*;
use crate::adapters::models::task::{argument_names_unique, arguments_unique};
use crate::adapters::models::common_error::{error_of, error_with, ErrorDefinition};
use crate::adapters::models::process::flow_element::FlowElementArgument;
use crate::adapters::models::worker::task_variable::TaskVariable;
use crate::db::models::data_type_db::DataTypeDb;
use crate::db::models::task_db::TaskVariableDb;
use crate::db::repos::task_repo::{ClearTaskAction, ClearTaskRun, ClearTaskStep, CreateTaskAction, CreateTaskRun, CreateTaskStep, TasksDbRepo};
use crate::json::{Json, JsonValue};

verus! {

/// Tasks, their variables and workers.
#[derive(Debug, Clone, Copy, PartialEq, Eq, Structural)]
pub struct TasksDbService {
    repo: TasksDbRepo,
}

impl TasksDbService {
    /// The repository that the service reads and writes through.
    pub closed spec fn repo(self) -> TasksDbRepo {
        self.repo
    }

    /// The service over its repository; it holds no other state.
    pub fn new() -> (r: TasksDbService)
        ensures
            r.repo() == TasksDbRepo,
    {
        TasksDbService { repo: TasksDbRepo::new() }
    }

    /// Starts creating a task on the flow `flow_uuid` at the element
    /// `current_item_uuid`, created at `created_at`, with the given
    /// arguments.
    pub fn create(&self, flow_uuid: u128, current_item_uuid: u128, created_at: i64, args: Option<Vec<(String, JsonValue)>>, element_args: Vec<FlowElementArgument>) -> (r: (CreateTaskRun, CreateTaskAction))
        requires
            arguments_unique(args),
        ensures
            argument_names_unique(r.0.args@),
            r.0.args@ == match args {
                Some(a) => a@,
                None => Seq::<(String, JsonValue)>::empty(),
            },
            r.0.element_args == element_args,
            r.0.step == CreateTaskStep::InsertTask,
            r.0.next_arg == 0,
            r.1 == (CreateTaskAction::InsertTask { flow_uuid, current_flow_id: current_item_uuid, created_at }),
    {
        self.repo.create_task(flow_uuid, current_item_uuid, created_at, args, element_args)
    }

    /// The id of the worker that inserting it returned.
    pub fn create_worker(&self, rows: Result<Vec<u128>, String>) -> (r: Result<u128, ErrorDefinition>)
        ensures
            rows matches Ok(v) ==> (v@.len() > 0 ==> r == Ok::<u128, ErrorDefinition>(v@.last())),
            rows matches Ok(v) ==> (v@.len() == 0 ==> (r matches Err(e) && e@ == error_of("Couldn't get uuid of created worker"@, Json::empty_object()))),
            rows matches Err(t) ==> (r matches Err(e) && e@ == error_with("Couldn't create task worker"@, t@)),
    {
        self.repo.create_worker(rows)
    }

    /// The task's variables from the rows that the query gave.
    pub fn get_task_variables(&self, rows: Result<Vec<(TaskVariableDb, DataTypeDb)>, String>) -> (r: Result<Vec<TaskVariable>, ErrorDefinition>)
        ensures
            rows matches Ok(v) ==> (r matches Ok(vars) && vars@.len() == v@.len()
                && forall|i: int| 0 <= i < v@.len() ==> {
                    let var = #[trigger] vars@[i];
                    &&& var.id == v@[i].0.id
                    &&& var.name == v@[i].0.name
                    &&& var.value == v@[i].0.value
                    &&& var.data_type.id@ == v@[i].1.id@
                    &&& var.data_type.name@ == v@[i].1.name@
                    &&& var.data_type.handler@ == v@[i].1.handler@
                }),
            rows matches Err(t) ==> (r matches Err(e) && e@ == error_with("Couldn't get task variables"@, t@)),
    {
        self.repo.get_task_variables(rows)
    }

    /// What moving the task to another element gave.
    pub fn set_current_flow_item(&self, updated: Result<(), String>) -> (r: Result<(), ErrorDefinition>)
        ensures
            updated is Ok ==> r is Ok,
            updated matches Err(t) ==> (r matches Err(e) && e@ == error_with("Couldn't update task current element"@, t@)),
    {
        self.repo.set_current_flow_item(updated)
    }

    /// Starts clearing the task `task_id`.
    pub fn clear_task(&self, task_id: u128) -> (r: (ClearTaskRun, ClearTaskAction))
        ensures
            r.0 == (ClearTaskRun { task_id, step: ClearTaskStep::DeleteWorkers }),
            r.1 == ClearTaskAction::Run(ClearTaskStep::DeleteWorkers),
    {
        self.repo.clear_task(task_id)
    }
}

} // verus!
