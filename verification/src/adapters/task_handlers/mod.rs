//! The handlers that run flow elements, by handler type name.
use vstd::prelude::*;
use crate::adapters::task_handlers::finish::FinishHandler;
use crate::adapters::task_handlers::script_handler::ScriptHandler;
use crate::adapters::task_handlers::simple::SimpleHandler;
use crate::adapters::task_handlers::starting::StartingHandler;
use crate::adapters::models::common_error::ErrorDefinition;
use crate::adapters::models::process::flow_element::{FlowElement, FlowElementArgument};
use crate::adapters::models::worker::task_variable::TaskVariable;
use crate::adapters::models::worker::task_worker_result::{TaskWorkerResult, WorkerResult};
use crate::adapters::task_handlers::script_handler::script_readable;
use crate::db::models::data_type_db::DataTypeDb;
use crate::db::services::DbServiceError;
use crate::registry::Registry;

pub mod finish;
pub mod script_handler;
pub mod simple;
pub mod starting;

verus! {

/// One of the handlers that the engine knows.
#[derive(Debug, Clone, Copy, PartialEq, Eq, Structural)]
pub enum TaskHandler {
    Simple(SimpleHandler),
    Finish(FinishHandler),
    Script(ScriptHandler),
    Starting(StartingHandler),
}

/// The handler that [`TaskHandlers::init`] registers under `name`.
pub open spec fn builtin_handler(name: Seq<char>) -> Option<TaskHandler> {
    if name == "starting"@ || name == "continue"@ || name == "match"@ || name == "on_error"@ {
        Some(TaskHandler::Simple(SimpleHandler {}))
    } else if name == "finish"@ {
        Some(TaskHandler::Finish(FinishHandler))
    } else if name == "script"@ {
        Some(TaskHandler::Script(ScriptHandler))
    } else {
        None
    }
}

/// The handlers, by handler type name.
#[derive(Debug)]
pub struct TaskHandlers {
    h: Registry<TaskHandler>,
}

impl TaskHandlers {
    /// The handler registered under `name`, if any.
    pub closed spec fn lookup(self, name: Seq<char>) -> Option<TaskHandler> {
        self.h.lookup(name)
    }

    /// No handler registered.
    pub fn new() -> (r: TaskHandlers)
        ensures
            forall|n: Seq<char>| #[trigger] r.lookup(n) is None,
    {
        TaskHandlers { h: Registry::new() }
    }

    /// Registers the built-in handlers, and nothing else.
    pub fn init(&mut self)
        ensures
            forall|n: Seq<char>| #[trigger] final(self).lookup(n) == builtin_handler(n),
    {
        let simple = TaskHandler::Simple(SimpleHandler::new());
        let mut h: Registry<TaskHandler> = Registry::new();
        let ghost r0 = h;
        let k = "starting".to_string();
        assert(k@ == "starting"@);
        h.insert(k, simple);
        let ghost r1 = h;
        let k = "continue".to_string();
        assert(k@ == "continue"@);
        h.insert(k, simple);
        let ghost r2 = h;
        let k = "match".to_string();
        assert(k@ == "match"@);
        h.insert(k, simple);
        let ghost r3 = h;
        let k = "finish".to_string();
        assert(k@ == "finish"@);
        h.insert(k, TaskHandler::Finish(FinishHandler::new()));
        let ghost r4 = h;
        let k = "on_error".to_string();
        assert(k@ == "on_error"@);
        h.insert(k, simple);
        let ghost r5 = h;
        let k = "script".to_string();
        assert(k@ == "script"@);
        h.insert(k, TaskHandler::Script(ScriptHandler::new()));
        self.h = h;
        proof {
            reveal_strlit("starting");
            reveal_strlit("continue");
            reveal_strlit("match");
            reveal_strlit("finish");
            reveal_strlit("on_error");
            reveal_strlit("script");
            assert("starting"@[0] != "script"@[1]);
            assert("continue"@[0] != "starting"@[0]);
            assert("finish"@[0] != "script"@[0]);
            assert("on_error"@[0] != "starting"@[0]);
            assert("on_error"@[0] != "continue"@[0]);
            assert("starting"@[0] != "continue"@[0]);
            assert forall|n: Seq<char>| #[trigger] self.lookup(n) == builtin_handler(n) by {
                assert(r0.lookup(n) is None);
                let _ = r1.lookup(n);
                let _ = r2.lookup(n);
                let _ = r3.lookup(n);
                let _ = r4.lookup(n);
                let _ = r5.lookup(n);
            }
        }
    }

    /// The handler registered under `name`, if any.
    pub fn get(&self, name: String) -> (r: Option<TaskHandler>)
        ensures
            r == self.lookup(name@),
    {
        self.h.get(name.as_str())
    }
}

/// Where a handler run stands.
#[derive(Debug)]
pub enum HandlerStage {
    AwaitTextType { args: Vec<TaskVariable> },
    AwaitTextOneType { args: Vec<TaskVariable>, text_type: DataTypeDb },
    AwaitCleared,
    AwaitScriptVariables { code: String },
    AwaitScriptArguments { code: String, variables: Vec<TaskVariable> },
    AwaitScriptRun,
    Finished,
}

/// What a handler needs done next.
#[derive(Debug)]
pub enum HandlerAction {
    /// Read the `string` data type.
    GetStringDataType,
    /// Clear the task.
    ClearTask { task_id: u128 },
    /// Read the task's variables for the element.
    GetElementVariables { task_id: u128, element_id: u128 },
    /// Read the element's arguments.
    GetElementArguments { element_id: u128 },
    /// Run the script with the variables and the element's arguments.
    RunScript { code: String, variables: Vec<TaskVariable>, arguments: Vec<FlowElementArgument> },
    Finish(Result<TaskWorkerResult, ErrorDefinition>),
}

/// What came of the last action.
#[derive(Debug)]
pub enum HandlerEvent {
    DataType(DataTypeDb),
    TaskCleared(Result<(), ErrorDefinition>),
    ElementVariables(Result<Vec<TaskVariable>, ErrorDefinition>),
    ElementArguments(Result<Vec<FlowElementArgument>, DbServiceError>),
    ScriptRan,
}

/// A handler at work on a flow element of a task.
#[derive(Debug)]
pub struct HandlerRun {
    pub handler: TaskHandler,
    pub task_id: u128,
    pub element_id: u128,
    pub stage: HandlerStage,
}

/// The value, or an empty list when reading failed.
fn or_empty<T, E>(r: Result<Vec<T>, E>) -> (v: Vec<T>)
    ensures
        r matches Ok(x) ==> v == x,
        r is Err ==> v@.len() == 0,
{
    match r {
        Ok(x) => x,
        Err(_) => Vec::new(),
    }
}

impl HandlerRun {
    pub open spec fn expects(self, event: HandlerEvent) -> bool {
        match self.stage {
            HandlerStage::AwaitTextType { .. } | HandlerStage::AwaitTextOneType { .. } => event is DataType,
            HandlerStage::AwaitCleared => event is TaskCleared,
            HandlerStage::AwaitScriptVariables { .. } => event is ElementVariables,
            HandlerStage::AwaitScriptArguments { .. } => event is ElementArguments,
            HandlerStage::AwaitScriptRun => event is ScriptRan,
            HandlerStage::Finished => false,
        }
    }

    pub fn accepts(&self, event: &HandlerEvent) -> (r: bool)
        ensures
            r == self.expects(*event),
    {
        match (&self.stage, event) {
            (HandlerStage::AwaitTextType { .. }, HandlerEvent::DataType(_)) => true,
            (HandlerStage::AwaitTextOneType { .. }, HandlerEvent::DataType(_)) => true,
            (HandlerStage::AwaitCleared, HandlerEvent::TaskCleared(_)) => true,
            (HandlerStage::AwaitScriptVariables { .. }, HandlerEvent::ElementVariables(_)) => true,
            (HandlerStage::AwaitScriptArguments { .. }, HandlerEvent::ElementArguments(_)) => true,
            (HandlerStage::AwaitScriptRun, HandlerEvent::ScriptRan) => true,
            _ => false,
        }
    }

    /// The next action, given what came of the last one.
    pub fn next(&mut self, event: HandlerEvent) -> (action: HandlerAction)
        requires
            old(self).expects(event),
        ensures
            final(self).handler == old(self).handler,
            final(self).task_id == old(self).task_id,
            final(self).element_id == old(self).element_id,
            old(self).stage matches HandlerStage::AwaitTextType { args } ==> (event matches HandlerEvent::DataType(dt)
                && final(self).stage == (HandlerStage::AwaitTextOneType { args, text_type: dt })
                && action == HandlerAction::GetStringDataType),
            old(self).stage matches HandlerStage::AwaitTextOneType { args, text_type } ==> (event matches HandlerEvent::DataType(dt)
                && final(self).stage is Finished && (action matches HandlerAction::Finish(Ok(res))
                && {
                    &&& res.result == WorkerResult::Done
                    &&& res.wait_until is None
                    &&& res.out_args@.len() == args@.len() + 2
                    &&& res.out_args@.take(args@.len() as int) == args@
                    &&& crate::adapters::task_handlers::simple::new_variable_is(res.out_args@[args@.len() as int], "text"@, text_type,
                        crate::json::Json::Str("This is text"@))
                    &&& crate::adapters::task_handlers::simple::new_variable_is(res.out_args@[args@.len() + 1int], "text_1"@, dt,
                        crate::json::Json::Str("Task id is: "@ + crate::foreign::ids::uuid_text(old(self).task_id)))
                })),
            old(self).stage is AwaitCleared ==> (event matches HandlerEvent::TaskCleared(cleared) && final(self).stage is Finished
                && match cleared {
                    Ok(()) => action matches HandlerAction::Finish(Ok(res)) && res.result == WorkerResult::Finishing
                        && res.wait_until is None && res.out_args@.len() == 0,
                    Err(e) => action == HandlerAction::Finish(Err(e)),
                }),
            old(self).stage matches HandlerStage::AwaitScriptVariables { code } ==> (event matches HandlerEvent::ElementVariables(vars)
                && (final(self).stage matches HandlerStage::AwaitScriptArguments { code: c, variables }
                    && c == code && (vars matches Ok(v) ==> variables == v) && (vars is Err ==> variables@.len() == 0))
                && action == (HandlerAction::GetElementArguments { element_id: old(self).element_id })),
            old(self).stage matches HandlerStage::AwaitScriptArguments { code, variables } ==> (event matches HandlerEvent::ElementArguments(args)
                && final(self).stage is AwaitScriptRun
                && (action matches HandlerAction::RunScript { code: c, variables: v, arguments }
                    && c == code && v == variables && (args matches Ok(a) ==> arguments == a) && (args is Err ==> arguments@.len() == 0))),
            old(self).stage is AwaitScriptRun ==> final(self).stage is Finished
                && (action matches HandlerAction::Finish(Ok(res)) && res.result == WorkerResult::Done
                    && res.wait_until is None && res.out_args@.len() == 0),
    {
        let mut stage = HandlerStage::Finished;
        std::mem::swap(&mut stage, &mut self.stage);
        match (stage, event) {
            (HandlerStage::AwaitTextType { args }, HandlerEvent::DataType(dt)) => {
                self.stage = HandlerStage::AwaitTextOneType { args, text_type: dt };
                HandlerAction::GetStringDataType
            },
            (HandlerStage::AwaitTextOneType { args, text_type }, HandlerEvent::DataType(dt)) => {
                let simple = SimpleHandler::new();
                HandlerAction::Finish(simple.process(self.task_id, Some(args), &text_type, &dt))
            },
            (HandlerStage::AwaitCleared, HandlerEvent::TaskCleared(cleared)) => {
                HandlerAction::Finish(FinishHandler::new().process(cleared))
            },
            (HandlerStage::AwaitScriptVariables { code }, HandlerEvent::ElementVariables(vars)) => {
                let variables = or_empty(vars);
                self.stage = HandlerStage::AwaitScriptArguments { code, variables };
                HandlerAction::GetElementArguments { element_id: self.element_id }
            },
            (HandlerStage::AwaitScriptArguments { code, variables }, HandlerEvent::ElementArguments(args)) => {
                self.stage = HandlerStage::AwaitScriptRun;
                HandlerAction::RunScript { code, variables, arguments: or_empty(args) }
            },
            (HandlerStage::AwaitScriptRun, HandlerEvent::ScriptRan) => {
                HandlerAction::Finish(ScriptHandler::new().process())
            },
            _ => {
                proof {
                    assert(false);
                }
                HandlerAction::GetStringDataType
            },
        }
    }
}

impl TaskHandler {
    /// Whether the handler can start on the element: a script element's
    /// `script` property, where there is one, is a string.
    pub open spec fn can_start(self, element: FlowElement) -> bool {
        self is Script ==> script_readable(element)
    }

    /// Starts the handler on a flow element of a task, with the task's
    /// variables.
    pub fn start(&self, task_id: u128, element: &FlowElement, args: Option<Vec<TaskVariable>>) -> (r: (HandlerRun, HandlerAction))
        requires
            self.can_start(*element),
        ensures
            r.0.handler == *self,
            r.0.task_id == task_id,
            r.0.element_id == element.id,
            *self is Simple ==> (r.0.stage matches HandlerStage::AwaitTextType { args: a }
                && a@ == match args {
                    Some(v) => v@,
                    None => Seq::<TaskVariable>::empty(),
                } && r.1 == HandlerAction::GetStringDataType),
            *self is Finish ==> r.0.stage is AwaitCleared && r.1 == (HandlerAction::ClearTask { task_id }),
            *self is Script ==> match element.handler_value@.get("script"@) {
                Some(script) => (r.0.stage matches HandlerStage::AwaitScriptVariables { code } && script == crate::json::Json::Str(code@))
                    && r.1 == (HandlerAction::GetElementVariables { task_id, element_id: element.id }),
                None => r.0.stage is Finished && (r.1 matches HandlerAction::Finish(Err(e))
                    && e@ == crate::adapters::models::common_error::error_of(
                        "Flow element does not contains script as property"@, crate::json::Json::empty_object())),
            },
            *self is Starting ==> r.0.stage is Finished && (r.1 matches HandlerAction::Finish(Ok(res))
                && res.result == WorkerResult::Done && res.wait_until is None
                && res.out_args@ == match args {
                    Some(v) => v@,
                    None => Seq::<TaskVariable>::empty(),
                }),
    {
        match self {
            TaskHandler::Simple(_) => {
                let args = match args {
                    Some(a) => a,
                    None => Vec::new(),
                };
                (HandlerRun { handler: *self, task_id, element_id: element.id, stage: HandlerStage::AwaitTextType { args } },
                 HandlerAction::GetStringDataType)
            },
            TaskHandler::Finish(_) => {
                (HandlerRun { handler: *self, task_id, element_id: element.id, stage: HandlerStage::AwaitCleared },
                 HandlerAction::ClearTask { task_id })
            },
            TaskHandler::Script(h) => {
                match h.script(element) {
                    Ok(code) => (HandlerRun { handler: *self, task_id, element_id: element.id, stage: HandlerStage::AwaitScriptVariables { code } },
                                 HandlerAction::GetElementVariables { task_id, element_id: element.id }),
                    Err(e) => (HandlerRun { handler: *self, task_id, element_id: element.id, stage: HandlerStage::Finished },
                               HandlerAction::Finish(Err(e))),
                }
            },
            TaskHandler::Starting(h) => {
                (HandlerRun { handler: *self, task_id, element_id: element.id, stage: HandlerStage::Finished },
                 HandlerAction::Finish(h.process(args)))
            },
        }
    }
}

} // verus!
