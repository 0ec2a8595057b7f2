//! Creating a task: find the flow, check the arguments, store the task and
//! its first worker.
use vstd::prelude::*;
use crate::adapters::models::common_error::{error_of, error_with, ErrorDefinition, ErrorView};
use crate::adapters::models::process::flow_element::{missing_required, names_json, FlowElement, FlowElementArgument, ProcessError};
use crate::adapters::models::process::process_flow::ProcessFlow;
use crate::adapters::models::task::{arguments_unique, CreateTask, TaskDefinition};
use crate::adapters::models::worker::task_worker::WorkerWhat;
use crate::db::services::DbServiceError;
use crate::debug_text::{error_debug_string, error_debug_text};
use crate::json::{Json, JsonValue};

verus! {

/// Creates tasks.
#[derive(Debug, Clone, Copy, PartialEq, Eq, Structural)]
pub struct TaskEngineService;

/// Why a flow element refused a task.
#[derive(Debug, Clone, Copy, PartialEq, Eq, Structural)]
pub enum FlowElementError {
    ElementDoesNotMeetRequiredArguments,
}

/// Why a task could not be created.
#[derive(Debug)]
pub enum TaskEngineError {
    DbServiceError(ErrorDefinition),
    NotFound(ErrorDefinition),
    FlowDoesNotContainsStartingElement,
    FlowElementError(FlowElementError),
}

/// The error that a service error stands for.
pub open spec fn service_error_view(e: DbServiceError) -> ErrorView {
    match e {
        DbServiceError::NotFound => error_of("Not found"@, Json::empty_object()),
        DbServiceError::QueryError(text) => error_with("DbService error"@, text@),
    }
}

/// The error that a refused element check stands for: the check's text and
/// JSON, or "Not found".
pub open spec fn process_error_view(e: ProcessError) -> ErrorView {
    match e {
        ProcessError::NotFound => error_of("Not found"@, Json::empty_object()),
        ProcessError::GeneralError(text, value) => error_of(text@, value@),
    }
}

impl ErrorDefinition {
    /// The error that a refused element check stands for.
    pub fn from_process(err: ProcessError) -> (r: ErrorDefinition)
        ensures
            r@ == process_error_view(err),
    {
        match err {
            ProcessError::NotFound => ErrorDefinition::empty("Not found".to_string()),
            ProcessError::GeneralError(text, value) => ErrorDefinition::with_reason(text, value),
        }
    }
}

/// Where creating a task stands.
#[derive(Debug)]
pub enum CreateStage {
    AwaitTransaction,
    AwaitFlow,
    AwaitStartingElement { flow: ProcessFlow },
    AwaitCheckArguments { flow: ProcessFlow, element: FlowElement },
    AwaitElementArguments { flow: ProcessFlow, element: FlowElement },
    AwaitTask { element_id: u128 },
    AwaitWorker { task: TaskDefinition },
    AwaitCommit { task: TaskDefinition },
    Finished,
}

/// What creating a task needs done next.
#[derive(Debug)]
pub enum CreateAction {
    BeginTransaction,
    FindProcessFlow { code: String },
    FindStartingElement { flow_id: u128 },
    GetElementArguments { element_id: u128 },
    /// Store the task and its arguments (see `TasksDbService::create`).
    CreateTask { flow_uuid: u128, current_flow_id: u128, args: Option<Vec<(String, JsonValue)>>, element_args: Vec<FlowElementArgument> },
    /// Create the task's first worker, to run now.
    CreateWorker { task_id: u128, element_id: u128, what: WorkerWhat },
    Commit,
    Finish(Result<TaskDefinition, ErrorDefinition>),
}

/// What came of the last action.
#[derive(Debug)]
pub enum CreateEvent {
    TransactionStarted(Result<(), String>),
    Flow(Result<ProcessFlow, DbServiceError>),
    StartingElement(Result<FlowElement, DbServiceError>),
    ElementArguments(Result<Vec<FlowElementArgument>, DbServiceError>),
    TaskCreated(Result<u128, ErrorDefinition>),
    WorkerCreated(Result<u128, ErrorDefinition>),
    Committed(Result<(), String>),
}

/// Creating a task in a transaction: find the newest version of the flow,
/// its starting element, check that the element's required arguments are
/// given, store the task with its arguments, add its first worker, commit.
/// The first failure ends it.
#[derive(Debug)]
pub struct CreateTaskRun {
    pub flow_code: String,
    pub arguments: Option<Vec<(String, JsonValue)>>,
    pub stage: CreateStage,
}

/// The arguments as the contracts speak of them.
pub open spec fn given_of(args: Option<Vec<(String, JsonValue)>>) -> Option<Seq<(String, JsonValue)>> {
    match args {
        Some(m) => Some(m@),
        None => None,
    }
}

/// Whether `action` ends the run with the error `e`.
pub open spec fn create_fails_with(action: CreateAction, e: ErrorView) -> bool {
    action matches CreateAction::Finish(Err(err)) && err@ == e
}

impl CreateTaskRun {
    pub open spec fn expects(self, event: CreateEvent) -> bool {
        match self.stage {
            CreateStage::AwaitTransaction => event is TransactionStarted,
            CreateStage::AwaitFlow => event is Flow,
            CreateStage::AwaitStartingElement { .. } => event is StartingElement,
            CreateStage::AwaitCheckArguments { .. } | CreateStage::AwaitElementArguments { .. } => event is ElementArguments,
            CreateStage::AwaitTask { .. } => event is TaskCreated,
            CreateStage::AwaitWorker { .. } => event is WorkerCreated,
            CreateStage::AwaitCommit { .. } => event is Committed,
            CreateStage::Finished => false,
        }
    }

    pub fn accepts(&self, event: &CreateEvent) -> (r: bool)
        ensures
            r == self.expects(*event),
    {
        match (&self.stage, event) {
            (CreateStage::AwaitTransaction, CreateEvent::TransactionStarted(_)) => true,
            (CreateStage::AwaitFlow, CreateEvent::Flow(_)) => true,
            (CreateStage::AwaitStartingElement { .. }, CreateEvent::StartingElement(_)) => true,
            (CreateStage::AwaitCheckArguments { .. }, CreateEvent::ElementArguments(_)) => true,
            (CreateStage::AwaitElementArguments { .. }, CreateEvent::ElementArguments(_)) => true,
            (CreateStage::AwaitTask { .. }, CreateEvent::TaskCreated(_)) => true,
            (CreateStage::AwaitWorker { .. }, CreateEvent::WorkerCreated(_)) => true,
            (CreateStage::AwaitCommit { .. }, CreateEvent::Committed(_)) => true,
            _ => false,
        }
    }

    /// One step of creating a task.
    pub open spec fn step(self, event: CreateEvent, next: CreateTaskRun, action: CreateAction) -> bool {
        &&& next.flow_code == self.flow_code
        &&& match (self.stage, event) {
            (CreateStage::AwaitTransaction, CreateEvent::TransactionStarted(Ok(()))) =>
                next.stage is AwaitFlow && next.arguments == self.arguments
                    && (action matches CreateAction::FindProcessFlow { code } && code@ == self.flow_code@),
            (CreateStage::AwaitTransaction, CreateEvent::TransactionStarted(Err(t))) =>
                next.stage is Finished && create_fails_with(action, error_of(t@, Json::empty_object())),
            (CreateStage::AwaitFlow, CreateEvent::Flow(Ok(flow))) =>
                next.stage == (CreateStage::AwaitStartingElement { flow }) && next.arguments == self.arguments
                    && action == (CreateAction::FindStartingElement { flow_id: flow.id }),
            (CreateStage::AwaitFlow, CreateEvent::Flow(Err(e))) =>
                next.stage is Finished && create_fails_with(action, service_error_view(e)),
            (CreateStage::AwaitStartingElement { flow }, CreateEvent::StartingElement(Ok(element))) =>
                next.stage == (CreateStage::AwaitCheckArguments { flow, element }) && next.arguments == self.arguments
                    && action == (CreateAction::GetElementArguments { element_id: element.id }),
            (CreateStage::AwaitStartingElement { .. }, CreateEvent::StartingElement(Err(e))) =>
                next.stage is Finished && create_fails_with(action, service_error_view(e)),
            (CreateStage::AwaitCheckArguments { flow, element }, CreateEvent::ElementArguments(Ok(args))) => {
                let missing = missing_required(args@, given_of(self.arguments));
                if missing.len() == 0 {
                    next.stage == (CreateStage::AwaitElementArguments { flow, element }) && next.arguments == self.arguments
                        && action == (CreateAction::GetElementArguments { element_id: element.id })
                } else {
                    next.stage is Finished && create_fails_with(action,
                        error_of("Args that are not found"@, Json::single("arguments"@, names_json(missing))))
                }
            },
            (CreateStage::AwaitCheckArguments { .. }, CreateEvent::ElementArguments(Err(_))) =>
                next.stage is Finished && create_fails_with(action, error_of("Not found"@, Json::empty_object())),
            (CreateStage::AwaitElementArguments { flow, element }, CreateEvent::ElementArguments(fetched)) =>
                next.stage == (CreateStage::AwaitTask { element_id: element.id })
                    && (action matches CreateAction::CreateTask { flow_uuid, current_flow_id, args, element_args }
                        && flow_uuid == flow.id && current_flow_id == element.id && args == self.arguments
                        && (fetched matches Ok(a) ==> element_args == a) && (fetched is Err ==> element_args@.len() == 0)),
            (CreateStage::AwaitTask { element_id }, CreateEvent::TaskCreated(Ok(task_id))) =>
                next.stage == (CreateStage::AwaitWorker { task: TaskDefinition { id: task_id, current_element: element_id } })
                    && action == (CreateAction::CreateWorker { task_id, element_id, what: WorkerWhat::Process }),
            (CreateStage::AwaitTask { .. }, CreateEvent::TaskCreated(Err(e))) =>
                next.stage is Finished && action == CreateAction::Finish(Err(e)),
            (CreateStage::AwaitWorker { task }, CreateEvent::WorkerCreated(Ok(_))) =>
                next.stage == (CreateStage::AwaitCommit { task }) && action is Commit,
            (CreateStage::AwaitWorker { .. }, CreateEvent::WorkerCreated(Err(e))) =>
                next.stage is Finished && create_fails_with(action, error_with("Error creating worker"@, error_debug_text(e@))),
            (CreateStage::AwaitCommit { task }, CreateEvent::Committed(Ok(()))) =>
                next.stage is Finished && action == CreateAction::Finish(Ok(task)),
            (CreateStage::AwaitCommit { .. }, CreateEvent::Committed(Err(t))) =>
                next.stage is Finished && create_fails_with(action, error_with("Error committing transaction"@, t@)),
            _ => false,
        }
    }

    /// The next action, given what came of the last one.
    pub fn next(&mut self, event: CreateEvent) -> (action: CreateAction)
        requires
            old(self).expects(event),
        ensures
            old(self).step(event, *final(self), action),
    {
        let mut stage = CreateStage::Finished;
        std::mem::swap(&mut stage, &mut self.stage);
        match (stage, event) {
            (CreateStage::AwaitTransaction, CreateEvent::TransactionStarted(Ok(()))) => {
                self.stage = CreateStage::AwaitFlow;
                CreateAction::FindProcessFlow { code: self.flow_code.clone() }
            },
            (CreateStage::AwaitTransaction, CreateEvent::TransactionStarted(Err(t))) => {
                CreateAction::Finish(Err(ErrorDefinition::empty(t)))
            },
            (CreateStage::AwaitFlow, CreateEvent::Flow(Ok(flow))) => {
                let flow_id = flow.id;
                self.stage = CreateStage::AwaitStartingElement { flow };
                CreateAction::FindStartingElement { flow_id }
            },
            (CreateStage::AwaitFlow, CreateEvent::Flow(Err(e))) => {
                CreateAction::Finish(Err(ErrorDefinition::from_db(&e)))
            },
            (CreateStage::AwaitStartingElement { flow }, CreateEvent::StartingElement(Ok(element))) => {
                let element_id = element.id;
                self.stage = CreateStage::AwaitCheckArguments { flow, element };
                CreateAction::GetElementArguments { element_id }
            },
            (CreateStage::AwaitStartingElement { .. }, CreateEvent::StartingElement(Err(e))) => {
                CreateAction::Finish(Err(ErrorDefinition::from_db(&e)))
            },
            (CreateStage::AwaitCheckArguments { flow, element }, CreateEvent::ElementArguments(fetched)) => {
                let checked = element.process(&self.arguments, element.get_all_arguments(fetched));
                match checked {
                    Ok(()) => {
                        let element_id = element.id;
                        self.stage = CreateStage::AwaitElementArguments { flow, element };
                        CreateAction::GetElementArguments { element_id }
                    },
                    Err(err) => CreateAction::Finish(Err(ErrorDefinition::from_process(err))),
                }
            },
            (CreateStage::AwaitElementArguments { flow, element }, CreateEvent::ElementArguments(fetched)) => {
                let mut args: Option<Vec<(String, JsonValue)>> = None;
                std::mem::swap(&mut args, &mut self.arguments);
                self.stage = CreateStage::AwaitTask { element_id: element.id };
                flow.run_task(&element, args, fetched)
            },
            (CreateStage::AwaitTask { element_id }, CreateEvent::TaskCreated(Ok(task_id))) => {
                self.stage = CreateStage::AwaitWorker { task: TaskDefinition { id: task_id, current_element: element_id } };
                CreateAction::CreateWorker { task_id, element_id, what: WorkerWhat::Process }
            },
            (CreateStage::AwaitTask { .. }, CreateEvent::TaskCreated(Err(e))) => {
                CreateAction::Finish(Err(e))
            },
            (CreateStage::AwaitWorker { task }, CreateEvent::WorkerCreated(Ok(_))) => {
                self.stage = CreateStage::AwaitCommit { task };
                CreateAction::Commit
            },
            (CreateStage::AwaitWorker { .. }, CreateEvent::WorkerCreated(Err(e))) => {
                CreateAction::Finish(Err(ErrorDefinition::with_error("Error creating worker", error_debug_string(&e))))
            },
            (CreateStage::AwaitCommit { task }, CreateEvent::Committed(Ok(()))) => {
                CreateAction::Finish(Ok(task))
            },
            (CreateStage::AwaitCommit { .. }, CreateEvent::Committed(Err(t))) => {
                CreateAction::Finish(Err(ErrorDefinition::with_error("Error committing transaction", t)))
            },
            _ => {
                proof {
                    assert(false);
                }
                CreateAction::Commit
            },
        }
    }
}

impl TaskEngineService {
    pub fn new() -> (r: TaskEngineService)
        ensures
            r == TaskEngineService,
    {
        TaskEngineService
    }

    /// Starts creating the task that `task` asks for.
    pub fn create_task(&self, task: CreateTask) -> (r: (CreateTaskRun, CreateAction))
        requires
            arguments_unique(task.arguments),
        ensures
            r.0.flow_code == task.flow,
            r.0.arguments == task.arguments,
            r.0.stage is AwaitTransaction,
            r.1 is BeginTransaction,
    {
        (CreateTaskRun { flow_code: task.flow, arguments: task.arguments, stage: CreateStage::AwaitTransaction }, CreateAction::BeginTransaction)
    }
}

} // verus!

verus! {

/// Whether the states, events and actions are a run of task creation: each
/// state steps to the next on its event, giving its action.
pub open spec fn is_create_run(states: Seq<CreateTaskRun>, events: Seq<CreateEvent>, actions: Seq<CreateAction>) -> bool {
    &&& states.len() == events.len() + 1
    &&& actions.len() == events.len()
    &&& forall|k: int| 0 <= k < events.len() ==> #[trigger] states[k].step(events[k], states[k + 1], actions[k])
}

/// Whether the stage comes before the task is stored.
pub open spec fn before_task(stage: CreateStage) -> bool {
    ||| stage is AwaitTransaction
    ||| stage is AwaitFlow
    ||| stage is AwaitStartingElement
    ||| stage is AwaitCheckArguments
    ||| stage is AwaitElementArguments
}

/// Whether the event gives the starting element's arguments, and every
/// required one among them is in `given`.
pub open spec fn check_passed(event: CreateEvent, given: Option<Seq<(String, JsonValue)>>) -> bool {
    event matches CreateEvent::ElementArguments(Ok(args)) && missing_required(args@, given).len() == 0
}

proof fn lemma_arguments_kept(states: Seq<CreateTaskRun>, events: Seq<CreateEvent>, actions: Seq<CreateAction>, k: int)
    requires
        is_create_run(states, events, actions),
        states[0].stage is AwaitTransaction,
        0 <= k < states.len(),
        before_task(states[k].stage),
    ensures
        states[k].arguments == states[0].arguments,
    decreases k,
{
    if k > 0 {
        let j = k - 1;
        assert(states[j].step(events[j], states[j + 1], actions[j]));
        lemma_arguments_kept(states, events, actions, j);
    }
}

proof fn lemma_checked_before(states: Seq<CreateTaskRun>, events: Seq<CreateEvent>, actions: Seq<CreateAction>, k: int)
    requires
        is_create_run(states, events, actions),
        states[0].stage is AwaitTransaction,
        0 <= k < states.len(),
        states[k].stage is AwaitElementArguments,
    ensures
        exists|j: int| 0 <= j < k && #[trigger] check_passed(events[j], given_of(states[0].arguments)),
{
    let j = k - 1;
    assert(states[j].step(events[j], states[j + 1], actions[j]));
    lemma_arguments_kept(states, events, actions, j);
    assert(check_passed(events[j], given_of(states[0].arguments)));
}

/// In every run of task creation, the task is stored only with the
/// arguments it was asked with, and only after the starting element's
/// arguments were read and each required one was found among them.
pub proof fn lemma_task_stored_only_after_check(states: Seq<CreateTaskRun>, events: Seq<CreateEvent>, actions: Seq<CreateAction>, k: int)
    requires
        is_create_run(states, events, actions),
        states[0].stage is AwaitTransaction,
        0 <= k < actions.len(),
        actions[k] is CreateTask,
    ensures
        (actions[k] matches CreateAction::CreateTask { args, .. } && args == states[0].arguments),
        exists|j: int| 0 <= j < k && #[trigger] check_passed(events[j], given_of(states[0].arguments)),
{
    assert(states[k].step(events[k], states[k + 1], actions[k]));
    assert(states[k].stage is AwaitElementArguments);
    lemma_arguments_kept(states, events, actions, k);
    lemma_checked_before(states, events, actions, k);
}

/// In every run of task creation, the run hands back a task only after the
/// commit succeeded, and the task is the one that was stored, at the
/// flow's starting element.
pub proof fn lemma_task_returned_after_commit(states: Seq<CreateTaskRun>, events: Seq<CreateEvent>, actions: Seq<CreateAction>, k: int)
    requires
        is_create_run(states, events, actions),
        states[0].stage is AwaitTransaction,
        0 <= k < actions.len(),
        actions[k] matches CreateAction::Finish(Ok(_)),
    ensures
        events[k] matches CreateEvent::Committed(Ok(_)),
        exists|j: int| 0 <= j < k && (#[trigger] events[j] matches CreateEvent::TaskCreated(Ok(id))
            && (actions[k] matches CreateAction::Finish(Ok(task)) && task.id == id)),
{
    assert(states[k].step(events[k], states[k + 1], actions[k]));
    assert(states[k].stage is AwaitCommit);
    let j1 = k - 1;
    assert(states[j1].step(events[j1], states[j1 + 1], actions[j1]));
    assert(states[j1].stage is AwaitWorker);
    let j2 = k - 2;
    assert(states[j2].step(events[j2], states[j2 + 1], actions[j2]));
    assert(states[j2].stage is AwaitTask);
    assert(events[j2] matches CreateEvent::TaskCreated(Ok(_)));
}


/// How many steps a run of task creation can still take at most.
pub open spec fn create_rank(stage: CreateStage) -> nat {
    match stage {
        CreateStage::AwaitTransaction => 8,
        CreateStage::AwaitFlow => 7,
        CreateStage::AwaitStartingElement { .. } => 6,
        CreateStage::AwaitCheckArguments { .. } => 5,
        CreateStage::AwaitElementArguments { .. } => 4,
        CreateStage::AwaitTask { .. } => 3,
        CreateStage::AwaitWorker { .. } => 2,
        CreateStage::AwaitCommit { .. } => 1,
        CreateStage::Finished => 0,
    }
}

/// Every step of task creation moves it closer to its end, so a run ends
/// after at most eight steps; it has ended exactly when it finished.
pub proof fn lemma_create_step_progresses(pre: CreateTaskRun, event: CreateEvent, post: CreateTaskRun, action: CreateAction)
    requires
        pre.step(event, post, action),
    ensures
        create_rank(post.stage) < create_rank(pre.stage),
        post.stage is Finished <==> action is Finish,
{
}

} // verus!
