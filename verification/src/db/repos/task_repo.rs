use vstd::prelude::*;
use crate::adapters::models::task::{argument_names_unique, arguments_unique};
use crate::adapters::models::common_error::{error_of, error_with, ErrorDefinition};
use crate::adapters::models::data_type::DataType;
use crate::adapters::models::process::flow_element::FlowElementArgument;
use crate::adapters::models::worker::task_variable::TaskVariable;
use crate::adapters::models::worker::task_worker::WorkerWhat;
use crate::db::models::data_type_db::DataTypeDb;
use crate::db::models::task_db::TaskVariableDb;
use crate::json::{str_equal, Json, JsonValue};

verus! {

/// Creates, reads and clears tasks and their variables.
#[derive(Debug, Clone, Copy, PartialEq, Eq, Structural)]
pub struct TasksDbRepo;

/// The data type that a task argument is stored with: that of the first
/// element argument of the same name, else `string`.
pub open spec fn argument_data_type(name: Seq<char>, element_args: Seq<FlowElementArgument>) -> Seq<char>
    decreases element_args.len(),
{
    if element_args.len() == 0 {
        "string"@
    } else if element_args[0].name@ == name {
        element_args[0].data_type.id@
    } else {
        argument_data_type(name, element_args.drop_first())
    }
}

/// A task argument is stored with the data type of the first element
/// argument that bears its name, wherever that argument stands in the list.
pub proof fn lemma_argument_data_type_found(name: Seq<char>, element_args: Seq<FlowElementArgument>, i: int)
    requires
        0 <= i < element_args.len(),
        element_args[i].name@ == name,
        forall|j: int| 0 <= j < i ==> #[trigger] element_args[j].name@ != name,
    ensures
        argument_data_type(name, element_args) == element_args[i].data_type.id@,
    decreases i,
{
    if i > 0 {
        let rest = element_args.drop_first();
        assert forall|j: int| 0 <= j < i - 1 implies #[trigger] rest[j].name@ != name by {
            assert(rest[j] == element_args[j + 1]);
        }
        assert(element_args[0].name@ != name);
        lemma_argument_data_type_found(name, rest, i - 1);
    }
}

/// A task argument that no element argument names is stored as `string`.
pub proof fn lemma_argument_data_type_absent(name: Seq<char>, element_args: Seq<FlowElementArgument>)
    requires
        forall|j: int| 0 <= j < element_args.len() ==> #[trigger] element_args[j].name@ != name,
    ensures
        argument_data_type(name, element_args) == "string"@,
    decreases element_args.len(),
{
    if element_args.len() > 0 {
        let rest = element_args.drop_first();
        assert forall|j: int| 0 <= j < rest.len() implies #[trigger] rest[j].name@ != name by {
            assert(rest[j] == element_args[j + 1]);
        }
        assert(element_args[0].name@ != name);
        lemma_argument_data_type_absent(name, rest);
    }
}

/// The data type that a task argument is stored with.
pub fn data_type_for_argument(name: &String, element_args: &Vec<FlowElementArgument>) -> (r: String)
    ensures
        r@ == argument_data_type(name@, element_args@),
        forall|i: int| 0 <= i < element_args@.len() && element_args@[i].name@ == name@
            && (forall|j: int| 0 <= j < i ==> #[trigger] element_args@[j].name@ != name@)
            ==> r@ == element_args@[i].data_type.id@,
        (forall|j: int| 0 <= j < element_args@.len() ==> #[trigger] element_args@[j].name@ != name@)
            ==> r@ == "string"@,
{
    let mut i: usize = 0;
    assert(element_args@.skip(0) =~= element_args@);
    while i < element_args.len()
        invariant
            i <= element_args@.len(),
            argument_data_type(name@, element_args@) == argument_data_type(name@, element_args@.skip(i as int)),
            forall|j: int| 0 <= j < i ==> #[trigger] element_args@[j].name@ != name@,
        decreases element_args@.len() - i,
    {
        assert(element_args@.skip(i as int).drop_first() =~= element_args@.skip(i + 1));
        if str_equal(element_args[i].name.as_str(), name.as_str()) {
            return element_args[i].data_type.id.clone();
        }
        i = i + 1;
    }
    "string".to_string()
}

/// The steps of creating a task.
#[derive(Debug, Clone, Copy, PartialEq, Eq, Structural)]
pub enum CreateTaskStep {
    InsertTask,
    InsertVariables,
    Finished,
}

/// What to do next to create a task.
#[derive(Debug)]
pub enum CreateTaskAction {
    /// Insert the task row, returning its id.
    InsertTask { flow_uuid: u128, current_flow_id: u128, created_at: i64 },
    /// Insert one variable of the task.
    InsertVariable { task_id: u128, name: String, data_type: String, value: JsonValue },
    Finish(Result<u128, ErrorDefinition>),
}

/// What the database answered.
#[derive(Debug)]
pub enum CreateTaskEvent {
    TaskInserted(Result<Vec<u128>, String>),
    VariableInserted(Result<(), String>),
}

/// Creating a task: insert its row, then one variable per given argument,
/// in order. The first failure ends it.
#[derive(Debug)]
pub struct CreateTaskRun {
    pub args: Vec<(String, JsonValue)>,
    pub element_args: Vec<FlowElementArgument>,
    pub task_id: u128,
    pub next_arg: usize,
    pub step: CreateTaskStep,
}

impl CreateTaskRun {
    pub open spec fn expects(self, event: CreateTaskEvent) -> bool {
        match self.step {
            CreateTaskStep::InsertTask => event is TaskInserted,
            CreateTaskStep::InsertVariables => event is VariableInserted && self.next_arg < self.args@.len(),
            CreateTaskStep::Finished => false,
        }
    }

    pub fn accepts(&self, event: &CreateTaskEvent) -> (r: bool)
        ensures
            r == self.expects(*event),
    {
        match (self.step, event) {
            (CreateTaskStep::InsertTask, CreateTaskEvent::TaskInserted(_)) => true,
            (CreateTaskStep::InsertVariables, CreateTaskEvent::VariableInserted(_)) => self.next_arg < self.args.len(),
            _ => false,
        }
    }

    /// Whether `action` inserts the argument at `i` for the task `task_id`.
    pub open spec fn inserts_argument(self, action: CreateTaskAction, task_id: u128, i: int) -> bool {
        action matches CreateTaskAction::InsertVariable { task_id: t, name, data_type, value }
            && t == task_id && name@ == self.args@[i].0@ && value@ == self.args@[i].1@
            && data_type@ == argument_data_type(self.args@[i].0@, self.element_args@)
    }

    /// The action that comes once the arguments before `self.next_arg` are
    /// stored.
    fn continue_inserting(&mut self) -> (action: CreateTaskAction)
        requires
            old(self).next_arg <= old(self).args@.len(),
        ensures
            final(self).args == old(self).args,
            final(self).element_args == old(self).element_args,
            final(self).task_id == old(self).task_id,
            final(self).next_arg == old(self).next_arg,
            old(self).next_arg < old(self).args@.len() ==> final(self).step == CreateTaskStep::InsertVariables
                && old(self).inserts_argument(action, old(self).task_id, old(self).next_arg as int),
            old(self).next_arg == old(self).args@.len() ==> final(self).step == CreateTaskStep::Finished
                && action == CreateTaskAction::Finish(Ok(old(self).task_id)),
    {
        if self.next_arg < self.args.len() {
            self.step = CreateTaskStep::InsertVariables;
            let i = self.next_arg;
            let name = self.args[i].0.clone();
            let value = self.args[i].1.deep_copy();
            let data_type = data_type_for_argument(&self.args[i].0, &self.element_args);
            CreateTaskAction::InsertVariable { task_id: self.task_id, name, data_type, value }
        } else {
            self.step = CreateTaskStep::Finished;
            CreateTaskAction::Finish(Ok(self.task_id))
        }
    }

    /// The next action, given the database's answer to the last one.
    pub fn next(&mut self, event: CreateTaskEvent) -> (action: CreateTaskAction)
        requires
            old(self).expects(event),
            old(self).next_arg <= old(self).args@.len(),
        ensures
            final(self).args == old(self).args,
            final(self).element_args == old(self).element_args,
            final(self).next_arg <= final(self).args@.len(),
            old(self).step == CreateTaskStep::InsertTask ==> match event {
                CreateTaskEvent::TaskInserted(Ok(ids)) => if ids@.len() == 0 {
                    final(self).step == CreateTaskStep::Finished && (action matches CreateTaskAction::Finish(Err(e))
                        && e@ == error_of("Couldn't get uuid of the created task"@, Json::empty_object()))
                } else {
                    &&& final(self).task_id == ids@.last()
                    &&& final(self).next_arg == 0
                    &&& old(self).args@.len() > 0 ==> final(self).step == CreateTaskStep::InsertVariables
                        && old(self).inserts_argument(action, ids@.last(), 0)
                    &&& old(self).args@.len() == 0 ==> final(self).step == CreateTaskStep::Finished
                        && action == CreateTaskAction::Finish(Ok(ids@.last()))
                },
                CreateTaskEvent::TaskInserted(Err(t)) => final(self).step == CreateTaskStep::Finished
                    && (action matches CreateTaskAction::Finish(Err(e)) && e@ == error_with("Couldn't create task"@, t@)),
                _ => false,
            },
            old(self).step == CreateTaskStep::InsertVariables ==> match event {
                CreateTaskEvent::VariableInserted(Ok(())) => {
                    let i = old(self).next_arg + 1;
                    &&& final(self).task_id == old(self).task_id
                    &&& final(self).next_arg == i
                    &&& i < old(self).args@.len() ==> final(self).step == CreateTaskStep::InsertVariables
                        && old(self).inserts_argument(action, old(self).task_id, i)
                    &&& i == old(self).args@.len() ==> final(self).step == CreateTaskStep::Finished
                        && action == CreateTaskAction::Finish(Ok(old(self).task_id))
                },
                CreateTaskEvent::VariableInserted(Err(t)) => final(self).step == CreateTaskStep::Finished
                    && (action matches CreateTaskAction::Finish(Err(e)) && e@ == error_with("Error inserting flow variable"@, t@)),
                _ => false,
            },
    {
        match event {
            CreateTaskEvent::TaskInserted(Ok(ids)) => {
                if ids.len() == 0 {
                    self.step = CreateTaskStep::Finished;
                    CreateTaskAction::Finish(Err(ErrorDefinition::empty("Couldn't get uuid of the created task".to_string())))
                } else {
                    self.task_id = ids[ids.len() - 1];
                    self.next_arg = 0;
                    self.continue_inserting()
                }
            },
            CreateTaskEvent::TaskInserted(Err(t)) => {
                self.step = CreateTaskStep::Finished;
                CreateTaskAction::Finish(Err(ErrorDefinition::with_error("Couldn't create task", t)))
            },
            CreateTaskEvent::VariableInserted(Ok(())) => {
                let len = self.args.len();
                assert(self.next_arg < len);
                self.next_arg = self.next_arg + 1;
                self.continue_inserting()
            },
            CreateTaskEvent::VariableInserted(Err(t)) => {
                self.step = CreateTaskStep::Finished;
                CreateTaskAction::Finish(Err(ErrorDefinition::with_error("Error inserting flow variable", t)))
            },
        }
    }
}

/// The steps of clearing a task.
#[derive(Debug, Clone, Copy, PartialEq, Eq, Structural)]
pub enum ClearTaskStep {
    DeleteWorkers,
    DeleteVariables,
    DeleteTask,
    Finished,
}

/// What to do next to clear a task.
#[derive(Debug)]
pub enum ClearTaskAction {
    Run(ClearTaskStep),
    Finish(Result<(), ErrorDefinition>),
}

/// Clearing a task: delete its workers, its variables, then the task. The
/// first failure ends it.
#[derive(Debug)]
pub struct ClearTaskRun {
    pub task_id: u128,
    pub step: ClearTaskStep,
}

/// The error description of a failed clearing step.
pub open spec fn clear_failure(step: ClearTaskStep) -> Seq<char> {
    match step {
        ClearTaskStep::DeleteWorkers => "Couldn't delete task worker"@,
        ClearTaskStep::DeleteVariables => "Couldn't delete task variables"@,
        _ => "Couldn't delete task"@,
    }
}

/// The step after a successful one.
pub open spec fn clear_successor(step: ClearTaskStep) -> ClearTaskStep {
    match step {
        ClearTaskStep::DeleteWorkers => ClearTaskStep::DeleteVariables,
        ClearTaskStep::DeleteVariables => ClearTaskStep::DeleteTask,
        _ => ClearTaskStep::Finished,
    }
}

impl ClearTaskRun {
    /// The next action, given what the last deletion gave.
    pub fn next(&mut self, deleted: Result<(), String>) -> (action: ClearTaskAction)
        requires
            old(self).step != ClearTaskStep::Finished,
        ensures
            final(self).task_id == old(self).task_id,
            match deleted {
                Ok(()) => final(self).step == clear_successor(old(self).step) && if final(self).step == ClearTaskStep::Finished {
                    action matches ClearTaskAction::Finish(Ok(()))
                } else {
                    action == ClearTaskAction::Run(final(self).step)
                },
                Err(t) => final(self).step == ClearTaskStep::Finished
                    && (action matches ClearTaskAction::Finish(Err(e)) && e@ == error_with(clear_failure(old(self).step), t@)),
            },
    {
        match deleted {
            Ok(()) => {
                let next = match self.step {
                    ClearTaskStep::DeleteWorkers => ClearTaskStep::DeleteVariables,
                    ClearTaskStep::DeleteVariables => ClearTaskStep::DeleteTask,
                    _ => ClearTaskStep::Finished,
                };
                self.step = next;
                if next == ClearTaskStep::Finished {
                    ClearTaskAction::Finish(Ok(()))
                } else {
                    ClearTaskAction::Run(next)
                }
            },
            Err(t) => {
                let description = match self.step {
                    ClearTaskStep::DeleteWorkers => "Couldn't delete task worker",
                    ClearTaskStep::DeleteVariables => "Couldn't delete task variables",
                    _ => "Couldn't delete task",
                };
                self.step = ClearTaskStep::Finished;
                ClearTaskAction::Finish(Err(ErrorDefinition::with_error(description, t)))
            },
        }
    }
}

impl TasksDbRepo {
    pub fn new() -> (r: TasksDbRepo)
        ensures
            r == TasksDbRepo,
    {
        TasksDbRepo
    }

    /// Starts creating a task on the flow `flow_uuid` at the element
    /// `current_flow_id`, with the given arguments (typed after the element's
    /// arguments).
    pub fn create_task(&self, flow_uuid: u128, current_flow_id: u128, created_at: i64, args: Option<Vec<(String, JsonValue)>>, element_args: Vec<FlowElementArgument>) -> (r: (CreateTaskRun, CreateTaskAction))
        requires
            arguments_unique(args),
        ensures
            argument_names_unique(r.0.args@),
            r.0.args@ == match args {
                Some(a) => a@,
                None => Seq::<(String, JsonValue)>::empty(),
            },
            r.0.element_args == element_args,
            r.0.step == CreateTaskStep::InsertTask,
            r.0.next_arg == 0,
            r.1 == (CreateTaskAction::InsertTask { flow_uuid, current_flow_id, created_at }),
    {
        let args = match args {
            Some(a) => a,
            None => Vec::new(),
        };
        (CreateTaskRun { args, element_args, task_id: 0, next_arg: 0, step: CreateTaskStep::InsertTask },
         CreateTaskAction::InsertTask { flow_uuid, current_flow_id, created_at })
    }

    /// The id of the last row that inserting a worker returned, an error
    /// when there is none, or the insert's error.
    pub fn create_worker(&self, rows: Result<Vec<u128>, String>) -> (r: Result<u128, ErrorDefinition>)
        ensures
            rows matches Ok(v) ==> (v@.len() > 0 ==> r == Ok::<u128, ErrorDefinition>(v@.last())),
            rows matches Ok(v) ==> (v@.len() == 0 ==> (r matches Err(e) && e@ == error_of("Couldn't get uuid of created worker"@, Json::empty_object()))),
            rows matches Err(t) ==> (r matches Err(e) && e@ == error_with("Couldn't create task worker"@, t@)),
    {
        match rows {
            Ok(ids) => {
                if ids.len() == 0 {
                    Err(ErrorDefinition::empty("Couldn't get uuid of created worker".to_string()))
                } else {
                    Ok(ids[ids.len() - 1])
                }
            },
            Err(t) => Err(ErrorDefinition::with_error("Couldn't create task worker", t)),
        }
    }

    /// The task's variables from the rows that the query gave, each with its
    /// data type.
    pub fn get_task_variables(&self, rows: Result<Vec<(TaskVariableDb, DataTypeDb)>, String>) -> (r: Result<Vec<TaskVariable>, ErrorDefinition>)
        ensures
            rows matches Ok(v) ==> (r matches Ok(vars) && vars@.len() == v@.len()
                && forall|i: int| 0 <= i < v@.len() ==> {
                    let var = #[trigger] vars@[i];
                    &&& var.id == v@[i].0.id
                    &&& var.name == v@[i].0.name
                    &&& var.value == v@[i].0.value
                    &&& var.data_type.id@ == v@[i].1.id@
                    &&& var.data_type.name@ == v@[i].1.name@
                    &&& var.data_type.handler@ == v@[i].1.handler@
                }),
            rows matches Err(t) ==> (r matches Err(e) && e@ == error_with("Couldn't get task variables"@, t@)),
    {
        match rows {
            Ok(found) => {
                let ghost seen = found@;
                let mut vars: Vec<TaskVariable> = Vec::new();
                let mut rest = found;
                while rest.len() > 0
                    invariant
                        rest@ == seen.skip(vars@.len() as int),
                        vars@.len() <= seen.len(),
                        forall|i: int| 0 <= i < vars@.len() ==> {
                            let var = #[trigger] vars@[i];
                            &&& var.id == seen[i].0.id
                            &&& var.name == seen[i].0.name
                            &&& var.value == seen[i].0.value
                            &&& var.data_type.id@ == seen[i].1.id@
                            &&& var.data_type.name@ == seen[i].1.name@
                            &&& var.data_type.handler@ == seen[i].1.handler@
                        },
                    decreases rest@.len(),
                {
                    let ghost k = vars@.len() as int;
                    let (ptv, pdt) = rest.remove(0);
                    vars.push(TaskVariable { id: ptv.id, name: ptv.name, data_type: DataType::from_db(&pdt), value: ptv.value });
                    assert(rest@ =~= seen.skip(k + 1));
                }
                Ok(vars)
            },
            Err(t) => Err(ErrorDefinition::with_error("Couldn't get task variables", t)),
        }
    }

    /// What moving the task to another element gave.
    pub fn set_current_flow_item(&self, updated: Result<(), String>) -> (r: Result<(), ErrorDefinition>)
        ensures
            updated is Ok ==> r is Ok,
            updated matches Err(t) ==> (r matches Err(e) && e@ == error_with("Couldn't update task current element"@, t@)),
    {
        match updated {
            Ok(()) => Ok(()),
            Err(t) => Err(ErrorDefinition::with_error("Couldn't update task current element", t)),
        }
    }

    /// Starts clearing the task `task_id`.
    pub fn clear_task(&self, task_id: u128) -> (r: (ClearTaskRun, ClearTaskAction))
        ensures
            r.0 == (ClearTaskRun { task_id, step: ClearTaskStep::DeleteWorkers }),
            r.1 == ClearTaskAction::Run(ClearTaskStep::DeleteWorkers),
    {
        (ClearTaskRun { task_id, step: ClearTaskStep::DeleteWorkers }, ClearTaskAction::Run(ClearTaskStep::DeleteWorkers))
    }

    /// The text that a worker row stores for what it is to do.
    pub fn worker_what_text(&self, what: WorkerWhat) -> (r: String)
        ensures
            r@ == what.db_text(),
    {
        what.as_db_text()
    }
}

} // verus!
