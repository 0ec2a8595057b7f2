//! Running workers: processing a flow element, and routing to the next.
use vstd::prelude::*;
use crate::adapters::js_code::out_names;
use crate::adapters::models::common_error::{error_of, error_with, ErrorDefinition, ErrorView};
use crate::adapters::models::process::flow_element::{ArgumentDirection, FlowElement, FlowElementArgument};
use crate::adapters::models::process::flow_route::FlowRoute;
use crate::adapters::models::worker::task_variable::TaskVariable;
use crate::adapters::models::worker::task_worker::{what_of, TaskWorker, WorkerWhat};
use crate::adapters::models::worker::task_worker_result::{TaskWorkerResult, WorkerResult};
use crate::adapters::task_handlers::TaskHandler;
use crate::db::models::task_worker_db::TaskWorkerDb;
use crate::db::repos::worker_repo::{FetchWorkers, FetchWorkersAction, FetchWorkersStep, WorkerRepo};
use crate::db::services::{App, DbServiceError};
use crate::debug_text::{error_debug_string, error_debug_text, service_error_debug_string, service_error_debug_text};
use crate::json::{Json, JsonValue};

verus! {

/// Runs workers.
#[derive(Debug, Clone, Copy, PartialEq, Eq, Structural)]
pub struct WorkerDbService {
    repo: WorkerRepo,
}

/// How long a runner holds the workers it locked: 60 seconds.
pub open spec fn lock_duration() -> int {
    60_000_000
}

/// Where processing a worker stands.
#[derive(Debug)]
pub enum ProcessStage {
    AwaitTransaction,
    AwaitFlowElement,
    AwaitTaskVariables { element: FlowElement, handler: TaskHandler },
    AwaitCurrentFlowItem { element: FlowElement, handler: TaskHandler, args: Vec<TaskVariable> },
    AwaitHandler { element_id: u128 },
    AwaitOutArguments { element_id: u128, out_args: Vec<TaskVariable> },
    AwaitOutVariablesSaved { element_id: u128 },
    AwaitWorkerDeleted { element_id: u128 },
    AwaitRouteWorker,
    AwaitCommit,
    Finished,
}

/// What processing a worker needs done next.
#[derive(Debug)]
pub enum ProcessAction {
    BeginTransaction,
    GetFlowElement { element_id: u128 },
    GetTaskVariables { task_id: u128 },
    SetCurrentFlowItem { task_id: u128, element_id: u128 },
    /// Run the handler on the element with the task's variables.
    RunHandler { handler: TaskHandler, task_id: u128, element: FlowElement, args: Option<Vec<TaskVariable>> },
    GetOutArguments { element_id: u128 },
    SaveOutVariables { task_id: u128, element_id: u128, arg_names: Vec<String>, variables: Vec<TaskVariable> },
    DeleteWorker { worker_id: u128 },
    /// Create a worker, to run now.
    CreateWorker { task_id: u128, element_id: u128, what: WorkerWhat },
    Commit,
    Finish(Result<(), ErrorDefinition>),
}

/// What came of the last action.
#[derive(Debug)]
pub enum ProcessEvent {
    TransactionStarted(Result<(), String>),
    FlowElement(Result<FlowElement, DbServiceError>),
    TaskVariables(Result<Vec<TaskVariable>, ErrorDefinition>),
    CurrentFlowItemSet(Result<(), ErrorDefinition>),
    HandlerFinished(Result<TaskWorkerResult, ErrorDefinition>),
    OutArguments(Result<Vec<FlowElementArgument>, DbServiceError>),
    OutVariablesSaved(Result<(), ErrorDefinition>),
    WorkerDeleted(Result<(), ErrorDefinition>),
    WorkerCreated,
    Committed(Result<(), String>),
}

/// Processing one worker in a transaction: read its element, find the
/// element's handler, read the task's variables, move the task to the
/// element, run the handler; when the handler is done, store the variables
/// it produced for the element's out arguments, delete the worker and add a
/// worker that routes on; then commit. The first failure ends it.
#[derive(Debug)]
pub struct WorkerProcess {
    pub worker: TaskWorker,
    pub stage: ProcessStage,
}

/// Whether `action` ends the run with the error `e`.
pub open spec fn fails_with(action: ProcessAction, e: ErrorView) -> bool {
    action matches ProcessAction::Finish(Err(err)) && err@ == e
}

/// The names of the `Out` arguments, as texts.
pub open spec fn out_name_texts(names: Vec<String>) -> Seq<Seq<char>> {
    names@.map_values(|s: String| s@)
}

fn out_argument_names(args: &Vec<FlowElementArgument>) -> (r: Vec<String>)
    ensures
        out_name_texts(r) == out_names(args@),
{
    let mut names: Vec<String> = Vec::new();
    let mut i: usize = 0;
    while i < args.len()
        invariant
            i <= args@.len(),
            out_name_texts(names) == out_names(args@.take(i as int)),
        decreases args@.len() - i,
    {
        assert(args@.take(i + 1).drop_last() =~= args@.take(i as int));
        if args[i].direction == ArgumentDirection::Out {
            names.push(args[i].name.clone());
        }
        assert(out_name_texts(names) =~= out_names(args@.take(i + 1)));
        i = i + 1;
    }
    assert(args@.take(args@.len() as int) =~= args@);
    names
}

impl WorkerProcess {
    pub open spec fn expects(self, event: ProcessEvent) -> bool {
        match self.stage {
            ProcessStage::AwaitTransaction => event is TransactionStarted,
            ProcessStage::AwaitFlowElement => event is FlowElement,
            ProcessStage::AwaitTaskVariables { .. } => event is TaskVariables,
            ProcessStage::AwaitCurrentFlowItem { .. } => event is CurrentFlowItemSet,
            ProcessStage::AwaitHandler { .. } => event is HandlerFinished,
            ProcessStage::AwaitOutArguments { .. } => event is OutArguments,
            ProcessStage::AwaitOutVariablesSaved { .. } => event is OutVariablesSaved,
            ProcessStage::AwaitWorkerDeleted { .. } => event is WorkerDeleted,
            ProcessStage::AwaitRouteWorker => event is WorkerCreated,
            ProcessStage::AwaitCommit => event is Committed,
            ProcessStage::Finished => false,
        }
    }

    pub fn accepts(&self, event: &ProcessEvent) -> (r: bool)
        ensures
            r == self.expects(*event),
    {
        match (&self.stage, event) {
            (ProcessStage::AwaitTransaction, ProcessEvent::TransactionStarted(_)) => true,
            (ProcessStage::AwaitFlowElement, ProcessEvent::FlowElement(_)) => true,
            (ProcessStage::AwaitTaskVariables { .. }, ProcessEvent::TaskVariables(_)) => true,
            (ProcessStage::AwaitCurrentFlowItem { .. }, ProcessEvent::CurrentFlowItemSet(_)) => true,
            (ProcessStage::AwaitHandler { .. }, ProcessEvent::HandlerFinished(_)) => true,
            (ProcessStage::AwaitOutArguments { .. }, ProcessEvent::OutArguments(_)) => true,
            (ProcessStage::AwaitOutVariablesSaved { .. }, ProcessEvent::OutVariablesSaved(_)) => true,
            (ProcessStage::AwaitWorkerDeleted { .. }, ProcessEvent::WorkerDeleted(_)) => true,
            (ProcessStage::AwaitRouteWorker, ProcessEvent::WorkerCreated) => true,
            (ProcessStage::AwaitCommit, ProcessEvent::Committed(_)) => true,
            _ => false,
        }
    }

    /// One step of processing: from the stage the run is at and what came of
    /// the last action, the next stage and action.
    pub open spec fn step(self, app: App, event: ProcessEvent, next: WorkerProcess, action: ProcessAction) -> bool {
        let w = self.worker;
        &&& next.worker == w
        &&& match (self.stage, event) {
            (ProcessStage::AwaitTransaction, ProcessEvent::TransactionStarted(Ok(()))) =>
                next.stage is AwaitFlowElement && action == (ProcessAction::GetFlowElement { element_id: w.element_id }),
            (ProcessStage::AwaitTransaction, ProcessEvent::TransactionStarted(Err(t))) =>
                next.stage is Finished && fails_with(action, error_with("Couldn't create transaction"@, t@)),
            (ProcessStage::AwaitFlowElement, ProcessEvent::FlowElement(Ok(element))) =>
                match app.handler_of(element.handler_type.name@) {
                    Some(handler) => next.stage == (ProcessStage::AwaitTaskVariables { element, handler })
                        && action == (ProcessAction::GetTaskVariables { task_id: w.task_id }),
                    None => next.stage is Finished
                        && fails_with(action, error_of("Handler not found"@, Json::single("error"@, Json::Str(element.handler_type.name@)))),
                },
            (ProcessStage::AwaitFlowElement, ProcessEvent::FlowElement(Err(e))) =>
                next.stage is Finished && fails_with(action, match e {
                    DbServiceError::NotFound => error_of("Not found"@, Json::empty_object()),
                    DbServiceError::QueryError(text) => error_with("DbService error"@, text@),
                }),
            (ProcessStage::AwaitTaskVariables { element, handler }, ProcessEvent::TaskVariables(Ok(args))) =>
                next.stage == (ProcessStage::AwaitCurrentFlowItem { element, handler, args })
                    && action == (ProcessAction::SetCurrentFlowItem { task_id: w.task_id, element_id: element.id }),
            (ProcessStage::AwaitTaskVariables { .. }, ProcessEvent::TaskVariables(Err(e))) =>
                next.stage is Finished && action == ProcessAction::Finish(Err(e)),
            (ProcessStage::AwaitCurrentFlowItem { element, handler, args }, ProcessEvent::CurrentFlowItemSet(Ok(()))) =>
                next.stage == (ProcessStage::AwaitHandler { element_id: element.id })
                    && action == (ProcessAction::RunHandler { handler, task_id: w.task_id, element, args: Some(args) }),
            (ProcessStage::AwaitCurrentFlowItem { .. }, ProcessEvent::CurrentFlowItemSet(Err(e))) =>
                next.stage is Finished && fails_with(action, error_with("Couldn't set current element for task"@, error_debug_text(e@))),
            (ProcessStage::AwaitHandler { element_id }, ProcessEvent::HandlerFinished(Ok(res))) =>
                if res.result == WorkerResult::Done {
                    next.stage == (ProcessStage::AwaitOutArguments { element_id, out_args: res.out_args })
                        && action == (ProcessAction::GetOutArguments { element_id })
                } else {
                    next.stage is AwaitCommit && action is Commit
                },
            (ProcessStage::AwaitHandler { .. }, ProcessEvent::HandlerFinished(Err(e))) =>
                next.stage is Finished && fails_with(action, error_with("Couldn't process task"@, error_debug_text(e@))),
            (ProcessStage::AwaitOutArguments { element_id, out_args }, ProcessEvent::OutArguments(Ok(args))) =>
                if out_names(args@).len() > 0 {
                    next.stage == (ProcessStage::AwaitOutVariablesSaved { element_id })
                        && (action matches ProcessAction::SaveOutVariables { task_id, element_id: el, arg_names, variables }
                            && task_id == w.task_id && el == element_id && out_name_texts(arg_names) == out_names(args@)
                            && variables == out_args)
                } else {
                    next.stage == (ProcessStage::AwaitWorkerDeleted { element_id })
                        && action == (ProcessAction::DeleteWorker { worker_id: w.id })
                },
            (ProcessStage::AwaitOutArguments { element_id, .. }, ProcessEvent::OutArguments(Err(_))) =>
                next.stage == (ProcessStage::AwaitWorkerDeleted { element_id })
                    && action == (ProcessAction::DeleteWorker { worker_id: w.id }),
            (ProcessStage::AwaitOutVariablesSaved { element_id }, ProcessEvent::OutVariablesSaved(Ok(()))) =>
                next.stage == (ProcessStage::AwaitWorkerDeleted { element_id })
                    && action == (ProcessAction::DeleteWorker { worker_id: w.id }),
            (ProcessStage::AwaitOutVariablesSaved { .. }, ProcessEvent::OutVariablesSaved(Err(e))) =>
                next.stage is Finished && fails_with(action, error_with("Couldn't save process task result"@, error_debug_text(e@))),
            (ProcessStage::AwaitWorkerDeleted { element_id }, ProcessEvent::WorkerDeleted(Ok(()))) =>
                next.stage is AwaitRouteWorker
                    && action == (ProcessAction::CreateWorker { task_id: w.task_id, element_id, what: WorkerWhat::RouteAfter }),
            (ProcessStage::AwaitWorkerDeleted { .. }, ProcessEvent::WorkerDeleted(Err(e))) =>
                next.stage is Finished && fails_with(action, error_with("Couldn't deleting worker"@, error_debug_text(e@))),
            (ProcessStage::AwaitRouteWorker, ProcessEvent::WorkerCreated) =>
                next.stage is AwaitCommit && action is Commit,
            (ProcessStage::AwaitCommit, ProcessEvent::Committed(Ok(()))) =>
                next.stage is Finished && action == ProcessAction::Finish(Ok(())),
            (ProcessStage::AwaitCommit, ProcessEvent::Committed(Err(t))) =>
                next.stage is Finished && fails_with(action, error_with("Couldn't commit transaction"@, t@)),
            _ => false,
        }
    }

    /// The next action, given what came of the last one.
    pub fn next(&mut self, app: &App, event: ProcessEvent) -> (action: ProcessAction)
        requires
            old(self).expects(event),
        ensures
            old(self).step(*app, event, *final(self), action),
    {
        let mut stage = ProcessStage::Finished;
        std::mem::swap(&mut stage, &mut self.stage);
        let ghost w = self.worker;
        match (stage, event) {
            (ProcessStage::AwaitTransaction, ProcessEvent::TransactionStarted(Ok(()))) => {
                self.stage = ProcessStage::AwaitFlowElement;
                ProcessAction::GetFlowElement { element_id: self.worker.element_id }
            },
            (ProcessStage::AwaitTransaction, ProcessEvent::TransactionStarted(Err(t))) => {
                ProcessAction::Finish(Err(ErrorDefinition::with_error("Couldn't create transaction", t)))
            },
            (ProcessStage::AwaitFlowElement, ProcessEvent::FlowElement(Ok(element))) => {
                match app.handler(element.handler_type.name.clone()) {
                    Some(handler) => {
                        self.stage = ProcessStage::AwaitTaskVariables { element, handler };
                        ProcessAction::GetTaskVariables { task_id: self.worker.task_id }
                    },
                    None => {
                        let name = JsonValue::String(element.handler_type.name.clone());
                        ProcessAction::Finish(Err(ErrorDefinition::with_reason("Handler not found".to_string(), JsonValue::single_member("error", name))))
                    },
                }
            },
            (ProcessStage::AwaitFlowElement, ProcessEvent::FlowElement(Err(e))) => {
                ProcessAction::Finish(Err(ErrorDefinition::from_db(&e)))
            },
            (ProcessStage::AwaitTaskVariables { element, handler }, ProcessEvent::TaskVariables(Ok(args))) => {
                let element_id = element.id;
                self.stage = ProcessStage::AwaitCurrentFlowItem { element, handler, args };
                ProcessAction::SetCurrentFlowItem { task_id: self.worker.task_id, element_id }
            },
            (ProcessStage::AwaitTaskVariables { .. }, ProcessEvent::TaskVariables(Err(e))) => {
                ProcessAction::Finish(Err(e))
            },
            (ProcessStage::AwaitCurrentFlowItem { element, handler, args }, ProcessEvent::CurrentFlowItemSet(Ok(()))) => {
                self.stage = ProcessStage::AwaitHandler { element_id: element.id };
                ProcessAction::RunHandler { handler, task_id: self.worker.task_id, element, args: Some(args) }
            },
            (ProcessStage::AwaitCurrentFlowItem { .. }, ProcessEvent::CurrentFlowItemSet(Err(e))) => {
                ProcessAction::Finish(Err(ErrorDefinition::with_error("Couldn't set current element for task", error_debug_string(&e))))
            },
            (ProcessStage::AwaitHandler { element_id }, ProcessEvent::HandlerFinished(Ok(res))) => {
                if res.result == WorkerResult::Done {
                    self.stage = ProcessStage::AwaitOutArguments { element_id, out_args: res.out_args };
                    ProcessAction::GetOutArguments { element_id }
                } else {
                    self.stage = ProcessStage::AwaitCommit;
                    ProcessAction::Commit
                }
            },
            (ProcessStage::AwaitHandler { .. }, ProcessEvent::HandlerFinished(Err(e))) => {
                ProcessAction::Finish(Err(ErrorDefinition::with_error("Couldn't process task", error_debug_string(&e))))
            },
            (ProcessStage::AwaitOutArguments { element_id, out_args }, ProcessEvent::OutArguments(Ok(args))) => {
                let arg_names = out_argument_names(&args);
                if arg_names.len() > 0 {
                    self.stage = ProcessStage::AwaitOutVariablesSaved { element_id };
                    ProcessAction::SaveOutVariables { task_id: self.worker.task_id, element_id, arg_names, variables: out_args }
                } else {
                    self.stage = ProcessStage::AwaitWorkerDeleted { element_id };
                    ProcessAction::DeleteWorker { worker_id: self.worker.id }
                }
            },
            (ProcessStage::AwaitOutArguments { element_id, .. }, ProcessEvent::OutArguments(Err(_))) => {
                self.stage = ProcessStage::AwaitWorkerDeleted { element_id };
                ProcessAction::DeleteWorker { worker_id: self.worker.id }
            },
            (ProcessStage::AwaitOutVariablesSaved { element_id }, ProcessEvent::OutVariablesSaved(Ok(()))) => {
                self.stage = ProcessStage::AwaitWorkerDeleted { element_id };
                ProcessAction::DeleteWorker { worker_id: self.worker.id }
            },
            (ProcessStage::AwaitOutVariablesSaved { .. }, ProcessEvent::OutVariablesSaved(Err(e))) => {
                ProcessAction::Finish(Err(ErrorDefinition::with_error("Couldn't save process task result", error_debug_string(&e))))
            },
            (ProcessStage::AwaitWorkerDeleted { element_id }, ProcessEvent::WorkerDeleted(Ok(()))) => {
                self.stage = ProcessStage::AwaitRouteWorker;
                ProcessAction::CreateWorker { task_id: self.worker.task_id, element_id, what: WorkerWhat::RouteAfter }
            },
            (ProcessStage::AwaitWorkerDeleted { .. }, ProcessEvent::WorkerDeleted(Err(e))) => {
                ProcessAction::Finish(Err(ErrorDefinition::with_error("Couldn't deleting worker", error_debug_string(&e))))
            },
            (ProcessStage::AwaitRouteWorker, ProcessEvent::WorkerCreated) => {
                self.stage = ProcessStage::AwaitCommit;
                ProcessAction::Commit
            },
            (ProcessStage::AwaitCommit, ProcessEvent::Committed(Ok(()))) => {
                ProcessAction::Finish(Ok(()))
            },
            (ProcessStage::AwaitCommit, ProcessEvent::Committed(Err(t))) => {
                ProcessAction::Finish(Err(ErrorDefinition::with_error("Couldn't commit transaction", t)))
            },
            _ => {
                proof {
                    assert(false);
                }
                ProcessAction::Commit
            },
        }
    }
}


/// How a route out of an element is taken: always, when its `if` script
/// says so, never (no condition, or no `if` in it, or no flag), or not at
/// all because its `if` is not a script text.
pub enum RouteKind {
    Direct,
    Conditional(Seq<char>),
    Unreadable,
    Skipped,
}

pub open spec fn route_kind(route: FlowRoute) -> RouteKind {
    match route.model.is_conditional {
        Some(false) => RouteKind::Direct,
        Some(true) => match route.model.condition {
            Some(c) => match c@.get("if"@) {
                Some(Json::Str(code)) => RouteKind::Conditional(code),
                Some(_) => RouteKind::Unreadable,
                None => RouteKind::Skipped,
            },
            None => RouteKind::Skipped,
        },
        None => RouteKind::Skipped,
    }
}

/// The first route at or after `from` that is not skipped.
pub open spec fn first_candidate(routes: Seq<FlowRoute>, from: int) -> Option<int>
    decreases routes.len() - from,
{
    if from < 0 || from >= routes.len() {
        None
    } else if route_kind(routes[from]) is Skipped {
        first_candidate(routes, from + 1)
    } else {
        Some(from)
    }
}

/// Whether the scan from `from` can go on: the route it reaches, if any, is
/// readable, and leads to an element when it is taken without condition.
pub open spec fn candidate_usable(routes: Seq<FlowRoute>, from: int) -> bool {
    match first_candidate(routes, from) {
        Some(i) => match route_kind(routes[i]) {
            RouteKind::Direct => routes[i].in_flow_element is Some,
            RouteKind::Unreadable => false,
            _ => true,
        },
        None => true,
    }
}

/// Where routing a worker stands.
#[derive(Debug)]
pub enum RouteStage {
    AwaitTransaction,
    AwaitRoutes,
    AwaitCondition { routes: Vec<FlowRoute>, index: usize },
    AwaitWorkerCreated,
    AwaitWorkerDeleted,
    AwaitCommit,
    Finished,
}

/// What routing a worker needs done next.
#[derive(Debug)]
pub enum RouteAction {
    BeginTransaction,
    GetOutRoutes { element_id: u128 },
    /// Evaluate a route's condition with the task's variables.
    EvaluateCondition { task_id: u128, code: String },
    /// Create a worker, to run now.
    CreateWorker { task_id: u128, element_id: u128, what: WorkerWhat },
    DeleteWorker { worker_id: u128 },
    Commit,
    Finish(Result<(), ErrorDefinition>),
}

/// What came of the last action.
#[derive(Debug)]
pub enum RouteEvent {
    TransactionStarted(Result<(), String>),
    Routes(Result<Vec<FlowRoute>, DbServiceError>),
    ConditionEvaluated(Result<bool, ErrorDefinition>),
    WorkerCreated(Result<u128, ErrorDefinition>),
    WorkerDeleted(Result<(), ErrorDefinition>),
    Committed,
}

/// Routing a worker in a transaction: read the routes out of its element,
/// in order, and take the first that has no condition or whose `if` script
/// is true; add a worker that processes the route's element, delete this
/// worker, and commit. The first failure ends it.
#[derive(Debug)]
pub struct RouteAfter {
    pub worker: TaskWorker,
    pub stage: RouteStage,
}

/// The kind of a route, as the engine reads it.
#[derive(Debug)]
pub enum RouteChoice {
    Direct,
    Conditional(String),
    Unreadable,
    Skipped,
}

fn route_choice(route: &FlowRoute) -> (r: RouteChoice)
    ensures
        match route_kind(*route) {
            RouteKind::Direct => r is Direct,
            RouteKind::Conditional(code) => r matches RouteChoice::Conditional(c) && c@ == code,
            RouteKind::Unreadable => r is Unreadable,
            RouteKind::Skipped => r is Skipped,
        },
{
    match route.model.is_conditional {
        Some(false) => RouteChoice::Direct,
        Some(true) => match &route.model.condition {
            Some(c) => match c.get("if") {
                Some(code) => match code.as_str() {
                    Some(text) => RouteChoice::Conditional(text.clone()),
                    None => RouteChoice::Unreadable,
                },
                None => RouteChoice::Skipped,
            },
            None => RouteChoice::Skipped,
        },
        None => RouteChoice::Skipped,
    }
}

impl RouteAfter {
    pub open spec fn expects(self, event: RouteEvent) -> bool {
        match self.stage {
            RouteStage::AwaitTransaction => event is TransactionStarted,
            RouteStage::AwaitRoutes => event matches RouteEvent::Routes(r)
                && (r matches Ok(routes) ==> candidate_usable(routes@, 0)),
            RouteStage::AwaitCondition { routes, index } => event matches RouteEvent::ConditionEvaluated(r)
                && (r == Ok::<bool, ErrorDefinition>(true) ==> routes@[index as int].in_flow_element is Some)
                && (r == Ok::<bool, ErrorDefinition>(false) ==> candidate_usable(routes@, index + 1)),
            RouteStage::AwaitWorkerCreated => event is WorkerCreated,
            RouteStage::AwaitWorkerDeleted => event is WorkerDeleted,
            RouteStage::AwaitCommit => event is Committed,
            RouteStage::Finished => false,
        }
    }

    /// Whether the run's state is consistent: a pending condition is that
    /// of a conditional route.
    pub open spec fn wf(self) -> bool {
        self.stage matches RouteStage::AwaitCondition { routes, index }
            ==> index < routes@.len() && route_kind(routes@[index as int]) is Conditional
    }

    /// Whether `action` is what the scan of `routes` from `from` leads to.
    pub open spec fn scans(self, routes: Vec<FlowRoute>, from: int, next: RouteAfter, action: RouteAction) -> bool {
        match first_candidate(routes@, from) {
            None => next.stage is Finished
                && fails_with_route(action, error_of("No route found to be run"@, Json::empty_object())),
            Some(i) => match route_kind(routes@[i]) {
                RouteKind::Conditional(code) => next.stage == (RouteStage::AwaitCondition { routes, index: i as usize })
                    && (action matches RouteAction::EvaluateCondition { task_id, code: c } && task_id == self.worker.task_id && c@ == code),
                _ => next.stage is AwaitWorkerCreated && (routes@[i].in_flow_element matches Some(e)
                    && action == (RouteAction::CreateWorker { task_id: self.worker.task_id, element_id: e.id, what: WorkerWhat::Process })),
            },
        }
    }

    /// One step of routing.
    pub open spec fn step(self, event: RouteEvent, next: RouteAfter, action: RouteAction) -> bool {
        let w = self.worker;
        &&& next.worker == w
        &&& match (self.stage, event) {
            (RouteStage::AwaitTransaction, RouteEvent::TransactionStarted(Ok(()))) =>
                next.stage is AwaitRoutes && action == (RouteAction::GetOutRoutes { element_id: w.element_id }),
            (RouteStage::AwaitTransaction, RouteEvent::TransactionStarted(Err(t))) =>
                next.stage is Finished && fails_with_route(action, error_with("Couldn't create transaction"@, t@)),
            (RouteStage::AwaitRoutes, RouteEvent::Routes(Ok(routes))) => self.scans(routes, 0, next, action),
            (RouteStage::AwaitRoutes, RouteEvent::Routes(Err(e))) =>
                next.stage is Finished && fails_with_route(action, error_with("Couldn't get out routes"@, service_error_debug_text(e))),
            (RouteStage::AwaitCondition { routes, index }, RouteEvent::ConditionEvaluated(Ok(true))) =>
                next.stage is AwaitWorkerCreated && (routes@[index as int].in_flow_element matches Some(e)
                    && action == (RouteAction::CreateWorker { task_id: w.task_id, element_id: e.id, what: WorkerWhat::Process })),
            (RouteStage::AwaitCondition { routes, index }, RouteEvent::ConditionEvaluated(Ok(false))) =>
                self.scans(routes, index + 1, next, action),
            (RouteStage::AwaitCondition { .. }, RouteEvent::ConditionEvaluated(Err(e))) =>
                next.stage is Finished && fails_with_route(action, error_with("Couldn't execute script"@, error_debug_text(e@))),
            (RouteStage::AwaitWorkerCreated, RouteEvent::WorkerCreated(Ok(_))) =>
                next.stage is AwaitWorkerDeleted && action == (RouteAction::DeleteWorker { worker_id: w.id }),
            (RouteStage::AwaitWorkerCreated, RouteEvent::WorkerCreated(Err(e))) =>
                next.stage is Finished && action == RouteAction::Finish(Err(e)),
            (RouteStage::AwaitWorkerDeleted, RouteEvent::WorkerDeleted(Ok(()))) =>
                next.stage is AwaitCommit && action is Commit,
            (RouteStage::AwaitWorkerDeleted, RouteEvent::WorkerDeleted(Err(e))) =>
                next.stage is Finished && fails_with_route(action, error_with("Couldn't deleting worker"@, error_debug_text(e@))),
            (RouteStage::AwaitCommit, RouteEvent::Committed) =>
                next.stage is Finished && action == RouteAction::Finish(Ok(())),
            _ => false,
        }
    }

    pub fn accepts(&self, event: &RouteEvent) -> (r: bool)
        requires
            self.wf(),
        ensures
            r == self.expects(*event),
    {
        match (&self.stage, event) {
            (RouteStage::AwaitTransaction, RouteEvent::TransactionStarted(_)) => true,
            (RouteStage::AwaitRoutes, RouteEvent::Routes(Ok(routes))) => usable_from(routes, 0),
            (RouteStage::AwaitRoutes, RouteEvent::Routes(Err(_))) => true,
            (RouteStage::AwaitCondition { routes, index }, RouteEvent::ConditionEvaluated(Ok(true))) =>
                routes[*index].in_flow_element.is_some(),
            (RouteStage::AwaitCondition { routes, index }, RouteEvent::ConditionEvaluated(Ok(false))) => {
                let len = routes.len();
                assert(*index < len);
                usable_from(routes, *index + 1)
            },
            (RouteStage::AwaitCondition { .. }, RouteEvent::ConditionEvaluated(Err(_))) => true,
            (RouteStage::AwaitWorkerCreated, RouteEvent::WorkerCreated(_)) => true,
            (RouteStage::AwaitWorkerDeleted, RouteEvent::WorkerDeleted(_)) => true,
            (RouteStage::AwaitCommit, RouteEvent::Committed) => true,
            _ => false,
        }
    }

    /// Scans `routes` from `from` for the route to take.
    fn scan(&mut self, routes: Vec<FlowRoute>, from: usize) -> (action: RouteAction)
        requires
            from <= routes@.len(),
            candidate_usable(routes@, from as int),
        ensures
            final(self).worker == old(self).worker,
            final(self).wf(),
            old(self).scans(routes, from as int, *final(self), action),
    {
        let mut i = from;
        while i < routes.len()
            invariant
                self.worker == old(self).worker,
                from <= i <= routes@.len(),
                first_candidate(routes@, from as int) == first_candidate(routes@, i as int),
                candidate_usable(routes@, from as int),
            decreases routes@.len() - i,
        {
            match route_choice(&routes[i]) {
                RouteChoice::Skipped => {
                    i = i + 1;
                },
                RouteChoice::Conditional(code) => {
                    self.stage = RouteStage::AwaitCondition { routes, index: i };
                    return RouteAction::EvaluateCondition { task_id: self.worker.task_id, code };
                },
                RouteChoice::Direct => {
                    let element_id = match &routes[i].in_flow_element {
                        Some(e) => e.id,
                        None => {
                            proof {
                                assert(false);
                            }
                            0
                        },
                    };
                    self.stage = RouteStage::AwaitWorkerCreated;
                    return RouteAction::CreateWorker { task_id: self.worker.task_id, element_id, what: WorkerWhat::Process };
                },
                RouteChoice::Unreadable => {
                    proof {
                        assert(false);
                    }
                    return RouteAction::Commit;
                },
            }
        }
        self.stage = RouteStage::Finished;
        RouteAction::Finish(Err(ErrorDefinition::empty("No route found to be run".to_string())))
    }

    /// The next action, given what came of the last one.
    pub fn next(&mut self, event: RouteEvent) -> (action: RouteAction)
        requires
            old(self).wf(),
            old(self).expects(event),
        ensures
            final(self).wf(),
            old(self).step(event, *final(self), action),
    {
        let mut stage = RouteStage::Finished;
        std::mem::swap(&mut stage, &mut self.stage);
        match (stage, event) {
            (RouteStage::AwaitTransaction, RouteEvent::TransactionStarted(Ok(()))) => {
                self.stage = RouteStage::AwaitRoutes;
                RouteAction::GetOutRoutes { element_id: self.worker.element_id }
            },
            (RouteStage::AwaitTransaction, RouteEvent::TransactionStarted(Err(t))) => {
                RouteAction::Finish(Err(ErrorDefinition::with_error("Couldn't create transaction", t)))
            },
            (RouteStage::AwaitRoutes, RouteEvent::Routes(Ok(routes))) => {
                self.scan(routes, 0)
            },
            (RouteStage::AwaitRoutes, RouteEvent::Routes(Err(e))) => {
                RouteAction::Finish(Err(ErrorDefinition::with_error("Couldn't get out routes", service_error_debug_string(&e))))
            },
            (RouteStage::AwaitCondition { routes, index }, RouteEvent::ConditionEvaluated(Ok(taken))) => {
                if taken {
                    let element_id = match &routes[index].in_flow_element {
                        Some(e) => e.id,
                        None => {
                            proof {
                                assert(false);
                            }
                            0
                        },
                    };
                    self.stage = RouteStage::AwaitWorkerCreated;
                    RouteAction::CreateWorker { task_id: self.worker.task_id, element_id, what: WorkerWhat::Process }
                } else {
                    let len = routes.len();
                    assert(index < len);
                    self.scan(routes, index + 1)
                }
            },
            (RouteStage::AwaitCondition { .. }, RouteEvent::ConditionEvaluated(Err(e))) => {
                RouteAction::Finish(Err(ErrorDefinition::with_error("Couldn't execute script", error_debug_string(&e))))
            },
            (RouteStage::AwaitWorkerCreated, RouteEvent::WorkerCreated(Ok(_))) => {
                self.stage = RouteStage::AwaitWorkerDeleted;
                RouteAction::DeleteWorker { worker_id: self.worker.id }
            },
            (RouteStage::AwaitWorkerCreated, RouteEvent::WorkerCreated(Err(e))) => {
                RouteAction::Finish(Err(e))
            },
            (RouteStage::AwaitWorkerDeleted, RouteEvent::WorkerDeleted(Ok(()))) => {
                self.stage = RouteStage::AwaitCommit;
                RouteAction::Commit
            },
            (RouteStage::AwaitWorkerDeleted, RouteEvent::WorkerDeleted(Err(e))) => {
                RouteAction::Finish(Err(ErrorDefinition::with_error("Couldn't deleting worker", error_debug_string(&e))))
            },
            (RouteStage::AwaitCommit, RouteEvent::Committed) => {
                RouteAction::Finish(Ok(()))
            },
            _ => {
                proof {
                    assert(false);
                }
                RouteAction::Commit
            },
        }
    }
}

/// Whether `action` ends routing with the error `e`.
pub open spec fn fails_with_route(action: RouteAction, e: ErrorView) -> bool {
    action matches RouteAction::Finish(Err(err)) && err@ == e
}

/// Whether the scan of `routes` from `from` can go on.
fn usable_from(routes: &Vec<FlowRoute>, from: usize) -> (r: bool)
    ensures
        r == candidate_usable(routes@, from as int),
{
    let mut i = from;
    while i < routes.len()
        invariant
            from <= i,
            first_candidate(routes@, from as int) == first_candidate(routes@, i as int),
        decreases routes@.len() - i,
    {
        match route_choice(&routes[i]) {
            RouteChoice::Skipped => {
                i = i + 1;
            },
            RouteChoice::Conditional(_) => {
                return true;
            },
            RouteChoice::Direct => {
                return routes[i].in_flow_element.is_some();
            },
            RouteChoice::Unreadable => {
                return false;
            },
        }
    }
    true
}

impl WorkerDbService {
    /// The repository that the service reads and writes through.
    pub closed spec fn repo(self) -> WorkerRepo {
        self.repo
    }

    /// The service over its repository; it holds no other state.
    pub fn new() -> (r: WorkerDbService)
        ensures
            r.repo() == WorkerRepo,
    {
        WorkerDbService { repo: WorkerRepo::new() }
    }

    /// The worker of the first row that the query gave.
    pub fn get_worker(&self, rows: Result<Vec<TaskWorkerDb>, String>) -> (r: Result<TaskWorker, ErrorDefinition>)
        ensures
            rows matches Ok(v) ==> (v@.len() > 0 ==> (r matches Ok(w) && w.id == v@[0].id && w.task_id == v@[0].task_id
                && w.created_at == v@[0].created_at && w.element_id == v@[0].element_id && w.what == what_of(v@[0].what))),
            rows matches Ok(v) ==> (v@.len() == 0 ==> (r matches Err(e) && e@ == error_of("Worker not found"@, Json::empty_object()))),
            rows matches Err(t) ==> (r matches Err(e) && e@ == error_with("Couldn't fetch locked workers"@, t@)),
    {
        self.repo.get_worker(rows)
    }

    /// Starts locking up to `count` due workers at `now` for the runner
    /// `lock_key`, for the lock duration.
    pub fn fetch_workers(&self, lock_key: u128, now: i64, count: i64) -> (r: (FetchWorkers, FetchWorkersAction))
        requires
            now + lock_duration() <= i64::MAX,
        ensures
            r.0 == (FetchWorkers { lock_key, now, lock_by: (now + lock_duration()) as i64, count, step: FetchWorkersStep::Unlock }),
            r.1 == (FetchWorkersAction::Unlock { now }),
    {
        let lock_by = now + 60_000_000;
        self.repo.fetch_workers(lock_key, now, lock_by, count)
    }

    /// The workers of the locked rows, in order.
    pub fn workers_from_db(&self, rows: &Vec<TaskWorkerDb>) -> (r: Vec<TaskWorker>)
        ensures
            r@.len() == rows@.len(),
            forall|i: int| 0 <= i < rows@.len() ==> {
                let w = #[trigger] r@[i];
                &&& w.id == rows@[i].id
                &&& w.task_id == rows@[i].task_id
                &&& w.created_at == rows@[i].created_at
                &&& w.element_id == rows@[i].element_id
                &&& w.what == what_of(rows@[i].what)
            },
    {
        let mut workers: Vec<TaskWorker> = Vec::new();
        let mut i: usize = 0;
        while i < rows.len()
            invariant
                i <= rows@.len(),
                workers@.len() == i,
                forall|j: int| 0 <= j < i ==> {
                    let w = #[trigger] workers@[j];
                    &&& w.id == rows@[j].id
                    &&& w.task_id == rows@[j].task_id
                    &&& w.created_at == rows@[j].created_at
                    &&& w.element_id == rows@[j].element_id
                    &&& w.what == what_of(rows@[j].what)
                },
            decreases rows@.len() - i,
        {
            workers.push(TaskWorker::from_db(&rows[i]));
            i = i + 1;
        }
        workers
    }

    /// Starts routing a worker on from its element.
    pub fn route_after(&self, worker: TaskWorker) -> (r: (RouteAfter, RouteAction))
        ensures
            r.0.worker == worker,
            r.0.stage is AwaitTransaction,
            r.0.wf(),
            r.1 is BeginTransaction,
    {
        (RouteAfter { worker, stage: RouteStage::AwaitTransaction }, RouteAction::BeginTransaction)
    }

    /// Starts processing a worker.
    pub fn process(&self, worker: TaskWorker) -> (r: (WorkerProcess, ProcessAction))
        ensures
            r.0.worker == worker,
            r.0.stage is AwaitTransaction,
            r.1 is BeginTransaction,
    {
        (WorkerProcess { worker, stage: ProcessStage::AwaitTransaction }, ProcessAction::BeginTransaction)
    }
}

} // verus!

verus! {

/// Whether the states, events and actions are a run of worker processing:
/// each state steps to the next on its event, giving its action.
pub open spec fn is_process_run(app: App, states: Seq<WorkerProcess>, events: Seq<ProcessEvent>, actions: Seq<ProcessAction>) -> bool {
    &&& states.len() == events.len() + 1
    &&& actions.len() == events.len()
    &&& forall|k: int| 0 <= k < events.len() ==> #[trigger] states[k].step(app, events[k], states[k + 1], actions[k])
}

/// Whether the stage comes after the handler reported that it is done.
pub open spec fn after_done(stage: ProcessStage) -> bool {
    ||| stage is AwaitOutArguments
    ||| stage is AwaitOutVariablesSaved
    ||| stage is AwaitWorkerDeleted
    ||| stage is AwaitRouteWorker
}

/// Whether the event is the handler reporting that it is done.
pub open spec fn handler_done(event: ProcessEvent) -> bool {
    event matches ProcessEvent::HandlerFinished(Ok(res)) && res.result == WorkerResult::Done
}

/// How many steps a run of worker processing can still take at most.
pub open spec fn process_rank(stage: ProcessStage) -> nat {
    match stage {
        ProcessStage::AwaitTransaction => 10,
        ProcessStage::AwaitFlowElement => 9,
        ProcessStage::AwaitTaskVariables { .. } => 8,
        ProcessStage::AwaitCurrentFlowItem { .. } => 7,
        ProcessStage::AwaitHandler { .. } => 6,
        ProcessStage::AwaitOutArguments { .. } => 5,
        ProcessStage::AwaitOutVariablesSaved { .. } => 4,
        ProcessStage::AwaitWorkerDeleted { .. } => 3,
        ProcessStage::AwaitRouteWorker => 2,
        ProcessStage::AwaitCommit => 1,
        ProcessStage::Finished => 0,
    }
}

/// Every step of worker processing moves it closer to its end, so a run
/// ends after at most ten steps; it has ended exactly when it finished.
pub proof fn lemma_process_step_progresses(app: App, pre: WorkerProcess, event: ProcessEvent, post: WorkerProcess, action: ProcessAction)
    requires
        pre.step(app, event, post, action),
    ensures
        process_rank(post.stage) < process_rank(pre.stage),
        post.stage is Finished <==> action is Finish,
{
}

proof fn lemma_done_before(app: App, states: Seq<WorkerProcess>, events: Seq<ProcessEvent>, actions: Seq<ProcessAction>, k: int)
    requires
        is_process_run(app, states, events, actions),
        states[0].stage is AwaitTransaction,
        0 <= k < states.len(),
        after_done(states[k].stage),
    ensures
        exists|j: int| 0 <= j < k && #[trigger] handler_done(events[j]),
    decreases k,
{
    if k > 0 {
        let j = k - 1;
        assert(states[j].step(app, events[j], states[j + 1], actions[j]));
        if after_done(states[j].stage) {
            lemma_done_before(app, states, events, actions, j);
            let i = choose|i: int| 0 <= i < j && #[trigger] handler_done(events[i]);
            assert(handler_done(events[i]));
        } else {
            assert(handler_done(events[j]));
        }
    }
}

/// In every run of worker processing, the worker is deleted, and a worker
/// that routes on is created, only after its handler reported that it is
/// done.
pub proof fn lemma_worker_consumed_only_when_done(app: App, states: Seq<WorkerProcess>, events: Seq<ProcessEvent>, actions: Seq<ProcessAction>, k: int)
    requires
        is_process_run(app, states, events, actions),
        states[0].stage is AwaitTransaction,
        0 <= k < actions.len(),
        actions[k] is DeleteWorker || actions[k] is CreateWorker,
    ensures
        exists|j: int| 0 <= j <= k && #[trigger] handler_done(events[j]),
{
    assert(states[k].step(app, events[k], states[k + 1], actions[k]));
    if after_done(states[k].stage) {
        lemma_done_before(app, states, events, actions, k);
        let i = choose|i: int| 0 <= i < k && #[trigger] handler_done(events[i]);
        assert(handler_done(events[i]));
    }
}

/// In every run of worker processing, the run ends well only on a commit
/// that succeeded, and a commit is asked for only after the task was moved
/// to the worker's element and its handler ran.
pub proof fn lemma_commit_after_handler(app: App, states: Seq<WorkerProcess>, events: Seq<ProcessEvent>, actions: Seq<ProcessAction>, k: int)
    requires
        is_process_run(app, states, events, actions),
        states[0].stage is AwaitTransaction,
        0 <= k < actions.len(),
        actions[k] is Commit || actions[k] == ProcessAction::Finish(Ok(())),
    ensures
        exists|j: int| 0 <= j <= k && #[trigger] events[j] matches ProcessEvent::HandlerFinished(Ok(_)),
        actions[k] == ProcessAction::Finish(Ok(())) ==> events[k] matches ProcessEvent::Committed(Ok(_)),
    decreases k,
{
    assert(states[k].step(app, events[k], states[k + 1], actions[k]));
    if actions[k] == ProcessAction::Finish(Ok(())) {
        assert(states[k].stage is AwaitCommit);
        assert(events[k] matches ProcessEvent::Committed(Ok(_)));
        let j = k - 1;
        assert(states[j].step(app, events[j], states[j + 1], actions[j]));
        assert(actions[j] is Commit);
        lemma_commit_after_handler(app, states, events, actions, j);
        let i = choose|i: int| 0 <= i <= j && #[trigger] events[i] matches ProcessEvent::HandlerFinished(Ok(_));
        assert(events[i] matches ProcessEvent::HandlerFinished(Ok(_)));
    } else if states[k].stage is AwaitRouteWorker {
        lemma_done_before(app, states, events, actions, k);
        let i = choose|i: int| 0 <= i < k && #[trigger] handler_done(events[i]);
        assert(events[i] matches ProcessEvent::HandlerFinished(Ok(_)));
    } else {
        assert(events[k] matches ProcessEvent::HandlerFinished(Ok(_)));
    }
}

} // verus!

verus! {

/// The scan for a route reaches the first route at or after `from`, in
/// order, that is not skipped: every route before it is skipped, and when
/// there is none, every route from `from` on is skipped.
pub proof fn lemma_first_candidate(routes: Seq<FlowRoute>, from: int)
    requires
        0 <= from,
    ensures
        match first_candidate(routes, from) {
            Some(i) => from <= i < routes.len() && !(route_kind(routes[i]) is Skipped)
                && forall|j: int| from <= j < i ==> #[trigger] route_kind(routes[j]) is Skipped,
            None => forall|j: int| from <= j < routes.len() ==> #[trigger] route_kind(routes[j]) is Skipped,
        },
    decreases routes.len() - from,
{
    if from < routes.len() && route_kind(routes[from]) is Skipped {
        lemma_first_candidate(routes, from + 1);
    }
}

/// The order in which a routing run passes its stages.
pub open spec fn route_stage_order(stage: RouteStage) -> nat {
    match stage {
        RouteStage::AwaitTransaction => 0,
        RouteStage::AwaitRoutes => 1,
        RouteStage::AwaitCondition { .. } => 2,
        RouteStage::AwaitWorkerCreated => 3,
        RouteStage::AwaitWorkerDeleted => 4,
        RouteStage::AwaitCommit => 5,
        RouteStage::Finished => 6,
    }
}

/// Every step of routing moves it on: to a later stage, or to the
/// condition of a later route of the same list; so a run ends. It has
/// ended exactly when it finished, and it stays consistent.
pub proof fn lemma_route_step_progresses(pre: RouteAfter, event: RouteEvent, post: RouteAfter, action: RouteAction)
    requires
        pre.wf(),
        pre.step(event, post, action),
    ensures
        route_stage_order(post.stage) > route_stage_order(pre.stage) || (pre.stage matches RouteStage::AwaitCondition { routes, index }
            && post.stage matches RouteStage::AwaitCondition { routes: r2, index: i2 } && r2 == routes && index < i2 < routes@.len()),
        post.stage is Finished <==> action is Finish,
        post.wf(),
{
    match (pre.stage, event) {
        (RouteStage::AwaitRoutes, RouteEvent::Routes(Ok(routes))) => {
            assert(routes.len() == routes@.len());
            lemma_first_candidate(routes@, 0);
        },
        (RouteStage::AwaitCondition { routes, index }, RouteEvent::ConditionEvaluated(Ok(false))) => {
            assert(routes.len() == routes@.len());
            lemma_first_candidate(routes@, index + 1);
        },
        _ => {},
    }
}

} // verus!
