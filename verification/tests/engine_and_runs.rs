use rs_commons::adapters::js_code::vars::Vars;
use rs_commons::adapters::js_code::JsCodeService;
use rs_commons::adapters::models::common_error::ErrorDefinition;
use rs_commons::adapters::models::data_type::DataType;
use rs_commons::adapters::models::handlers::HandlerType;
use rs_commons::adapters::models::process::flow_element::{FlowElement, FlowElementArgument, ArgumentDirection};
use rs_commons::adapters::models::process::flow_route::FlowRoute;
use rs_commons::adapters::models::process::process_flow::ProcessFlow;
use rs_commons::adapters::models::task::CreateTask;
use rs_commons::adapters::models::worker::task_variable::TaskVariable;
use rs_commons::adapters::models::worker::task_worker::{TaskWorker, WorkerWhat};
use rs_commons::adapters::models::worker::task_worker_result::TaskWorkerResult;
use rs_commons::adapters::task_engine::task_engine_service::{CreateAction, CreateEvent, TaskEngineService};
use rs_commons::db::models::process_db::FlowRouteDb;
use rs_commons::db::repos::worker_repo::{FetchWorkersAction, FetchWorkersEvent};
use rs_commons::db::services::worker_db_service::{ProcessAction, ProcessEvent, RouteAction, RouteEvent, WorkerDbService};
use rs_commons::db::services::{App, DbServiceError};
use rs_commons::json::{JsonNumber, JsonValue};

fn data_type(id: &str) -> DataType {
    DataType { id: id.to_string(), name: id.to_string(), handler: String::new() }
}

fn int_var(name: &str, v: i64) -> TaskVariable {
    let n = if v >= 0 { JsonNumber::PosInt(v as u64) } else { JsonNumber::NegInt(v) };
    TaskVariable::new(name.to_string(), data_type("int"), JsonValue::Number(n))
}

fn out_arg(name: &str) -> FlowElementArgument {
    FlowElementArgument { id: 1, name: name.to_string(), direction: ArgumentDirection::Out, data_type: data_type("string"), is_required: false }
}

fn element(id: u128, handler: &str) -> FlowElement {
    FlowElement {
        id,
        el_type: "task".to_string(),
        handler_type: HandlerType { name: handler.to_string() },
        handler_value: JsonValue::empty_object(),
        description: String::new(),
    }
}

fn worker(what: WorkerWhat) -> TaskWorker {
    TaskWorker { id: 100, task_id: 200, created_at: 0, element_id: 300, what }
}

fn route(conditional: Option<bool>, condition: Option<JsonValue>, to: Option<u128>) -> FlowRoute {
    FlowRoute {
        model: FlowRouteDb {
            id: 1,
            from_element: 300,
            to_element: to.unwrap_or(0),
            priority: 0,
            is_conditional: conditional,
            condition,
        },
        out_flow_element: Some(element(300, "script")),
        in_flow_element: to.map(|id| element(id, "script")),
    }
}

#[test]
fn conditions_are_evaluated_with_task_variables() {
    let js = JsCodeService::new();
    let vars = vec![int_var("amount", 1500)];
    assert_eq!(js.evaluate_from_task("amount > 1000", &vars).unwrap(), true);
    assert_eq!(js.evaluate_from_task("amount < 1000", &vars).unwrap(), false);
    let e = js.evaluate_from_task("amount >", &vars).unwrap_err();
    assert_eq!(e.description, "Couldn't evaluate script");
    assert_eq!(js.condition_outcome(Ok(true)).unwrap(), true);
}

#[test]
fn element_scripts_leave_out_variables() {
    let js = JsCodeService::new();
    let vars = vec![int_var("value", 2000)];
    let args = vec![out_arg("decision"), out_arg("missing")];
    let code = "let decision = if value > 1000 { \"accepted\" } else { \"rejected\" }; true";
    let out = js.evaluate_from_flow_element(code, &vars, &args).unwrap();
    assert_eq!(out.len(), 1);
    assert_eq!(out[0].name, "decision");
    assert!(matches!(&out[0].value, JsonValue::String(s) if s == "accepted"));
    assert_eq!(out[0].data_type.id, "string");
    let e = js.evaluate_from_flow_element("let x = ;", &vars, &args).unwrap_err();
    assert_eq!(e.description, "Couldn't run script");
}

#[test]
fn vars_put_then_get() {
    let mut vars = Vars::new();
    assert!(vars.get("a".to_string()).is_err());
    vars.fill(vec![int_var("a", 1), int_var("b", 2)]).unwrap();
    assert!(vars.get("a".to_string()).is_ok());
    assert!(vars.put("c".to_string(), rhai::Dynamic::from(3_i64)).is_ok());
    assert!(vars.get("c".to_string()).is_ok());
    assert!(vars.put("a".to_string(), rhai::Dynamic::from("x".to_string())).is_ok());
    assert!(vars.get("a".to_string()).is_ok());
    assert!(vars.get("z".to_string()).is_err());
}

#[test]
fn task_creation_run() {
    let service = TaskEngineService::new();
    let task = CreateTask { flow: "loan".to_string(), arguments: Some(vec![("amount".to_string(), JsonValue::Number(JsonNumber::PosInt(5)))]) };
    let (mut run, action) = service.create_task(task);
    assert!(matches!(action, CreateAction::BeginTransaction));
    assert!(matches!(run.next(CreateEvent::TransactionStarted(Ok(()))), CreateAction::FindProcessFlow { ref code } if code == "loan"));
    let flow = ProcessFlow { id: 11, name: "Loan".to_string(), enabled: true, version_id: 2 };
    assert!(matches!(run.next(CreateEvent::Flow(Ok(flow))), CreateAction::FindStartingElement { flow_id: 11 }));
    assert!(matches!(run.next(CreateEvent::StartingElement(Ok(element(12, "starting")))), CreateAction::GetElementArguments { element_id: 12 }));
    let required = FlowElementArgument { id: 1, name: "amount".to_string(), direction: ArgumentDirection::In, data_type: data_type("int"), is_required: true };
    assert!(matches!(run.next(CreateEvent::ElementArguments(Ok(vec![required]))), CreateAction::GetElementArguments { element_id: 12 }));
    match run.next(CreateEvent::ElementArguments(Ok(vec![]))) {
        CreateAction::CreateTask { flow_uuid, current_flow_id, args, element_args } => {
            assert_eq!((flow_uuid, current_flow_id), (11, 12));
            assert_eq!(args.unwrap()[0].0, "amount");
            assert!(element_args.is_empty());
        }
        other => panic!("{:?}", other),
    }
    assert!(matches!(run.next(CreateEvent::TaskCreated(Ok(13))), CreateAction::CreateWorker { task_id: 13, element_id: 12, what: WorkerWhat::Process }));
    assert!(matches!(run.next(CreateEvent::WorkerCreated(Ok(14))), CreateAction::Commit));
    assert!(matches!(run.next(CreateEvent::Committed(Ok(()))), CreateAction::Finish(Ok(ref t)) if t.id == 13 && t.current_element == 12));
}

#[test]
fn task_creation_refuses_missing_arguments() {
    let service = TaskEngineService::new();
    let (mut run, _) = service.create_task(CreateTask { flow: "loan".to_string(), arguments: None });
    run.next(CreateEvent::TransactionStarted(Ok(())));
    run.next(CreateEvent::Flow(Ok(ProcessFlow { id: 1, name: String::new(), enabled: true, version_id: 1 })));
    run.next(CreateEvent::StartingElement(Ok(element(2, "starting"))));
    let required = FlowElementArgument { id: 1, name: "amount".to_string(), direction: ArgumentDirection::In, data_type: data_type("int"), is_required: true };
    match run.next(CreateEvent::ElementArguments(Ok(vec![required]))) {
        CreateAction::Finish(Err(e)) => assert_eq!(e.description, "Args that are not found"),
        other => panic!("{:?}", other),
    }
    let (mut run, _) = service.create_task(CreateTask { flow: "none".to_string(), arguments: None });
    run.next(CreateEvent::TransactionStarted(Ok(())));
    match run.next(CreateEvent::Flow(Err(DbServiceError::NotFound))) {
        CreateAction::Finish(Err(e)) => assert_eq!(e.description, "Not found"),
        other => panic!("{:?}", other),
    }
}

#[test]
fn worker_processing_run() {
    let app = App::new();
    let service = WorkerDbService::new();
    let (mut run, action) = service.process(worker(WorkerWhat::Process));
    assert!(matches!(action, ProcessAction::BeginTransaction));
    assert!(matches!(run.next(&app, ProcessEvent::TransactionStarted(Ok(()))), ProcessAction::GetFlowElement { element_id: 300 }));
    assert!(matches!(run.next(&app, ProcessEvent::FlowElement(Ok(element(300, "script")))), ProcessAction::GetTaskVariables { task_id: 200 }));
    assert!(matches!(run.next(&app, ProcessEvent::TaskVariables(Ok(vec![]))), ProcessAction::SetCurrentFlowItem { task_id: 200, element_id: 300 }));
    assert!(matches!(run.next(&app, ProcessEvent::CurrentFlowItemSet(Ok(()))), ProcessAction::RunHandler { task_id: 200, .. }));
    let done = TaskWorkerResult::ok_with_args(vec![int_var("decision", 1)]);
    assert!(matches!(run.next(&app, ProcessEvent::HandlerFinished(Ok(done))), ProcessAction::GetOutArguments { element_id: 300 }));
    match run.next(&app, ProcessEvent::OutArguments(Ok(vec![out_arg("decision")]))) {
        ProcessAction::SaveOutVariables { task_id, element_id, arg_names, variables } => {
            assert_eq!((task_id, element_id), (200, 300));
            assert_eq!(arg_names, vec!["decision".to_string()]);
            assert_eq!(variables.len(), 1);
        }
        other => panic!("{:?}", other),
    }
    assert!(matches!(run.next(&app, ProcessEvent::OutVariablesSaved(Ok(()))), ProcessAction::DeleteWorker { worker_id: 100 }));
    assert!(matches!(run.next(&app, ProcessEvent::WorkerDeleted(Ok(()))), ProcessAction::CreateWorker { task_id: 200, element_id: 300, what: WorkerWhat::RouteAfter }));
    assert!(matches!(run.next(&app, ProcessEvent::WorkerCreated), ProcessAction::Commit));
    assert!(matches!(run.next(&app, ProcessEvent::Committed(Ok(()))), ProcessAction::Finish(Ok(()))));
}

#[test]
fn worker_processing_failures() {
    let app = App::new();
    let service = WorkerDbService::new();
    let (mut run, _) = service.process(worker(WorkerWhat::Process));
    run.next(&app, ProcessEvent::TransactionStarted(Ok(())));
    match run.next(&app, ProcessEvent::FlowElement(Ok(element(300, "unknown")))) {
        ProcessAction::Finish(Err(e)) => assert_eq!(e.description, "Handler not found"),
        other => panic!("{:?}", other),
    }
    let (mut run, _) = service.process(worker(WorkerWhat::Process));
    match run.next(&app, ProcessEvent::TransactionStarted(Err("down".to_string()))) {
        ProcessAction::Finish(Err(e)) => assert_eq!(e.description, "Couldn't create transaction"),
        other => panic!("{:?}", other),
    }
    let (mut run, _) = service.process(worker(WorkerWhat::Process));
    run.next(&app, ProcessEvent::TransactionStarted(Ok(())));
    run.next(&app, ProcessEvent::FlowElement(Ok(element(300, "finish"))));
    run.next(&app, ProcessEvent::TaskVariables(Ok(vec![])));
    run.next(&app, ProcessEvent::CurrentFlowItemSet(Ok(())));
    assert!(matches!(run.next(&app, ProcessEvent::HandlerFinished(Ok(TaskWorkerResult::finish()))), ProcessAction::Commit));
    match run.next(&app, ProcessEvent::Committed(Err("lost".to_string()))) {
        ProcessAction::Finish(Err(e)) => assert_eq!(e.description, "Couldn't commit transaction"),
        other => panic!("{:?}", other),
    }
    let (mut run, _) = service.process(worker(WorkerWhat::Process));
    run.next(&app, ProcessEvent::TransactionStarted(Ok(())));
    run.next(&app, ProcessEvent::FlowElement(Ok(element(300, "finish"))));
    run.next(&app, ProcessEvent::TaskVariables(Ok(vec![])));
    run.next(&app, ProcessEvent::CurrentFlowItemSet(Ok(())));
    match run.next(&app, ProcessEvent::HandlerFinished(Err(ErrorDefinition::empty("bad".to_string())))) {
        ProcessAction::Finish(Err(e)) => assert_eq!(e.description, "Couldn't process task"),
        other => panic!("{:?}", other),
    }
}

#[test]
fn routing_takes_first_usable_route() {
    let service = WorkerDbService::new();
    let (mut run, action) = service.route_after(worker(WorkerWhat::RouteAfter));
    assert!(matches!(action, RouteAction::BeginTransaction));
    assert!(matches!(run.next(RouteEvent::TransactionStarted(Ok(()))), RouteAction::GetOutRoutes { element_id: 300 }));
    let routes = vec![
        route(None, None, Some(1)),
        route(Some(true), Some(JsonValue::single_member("if", JsonValue::text("amount > 10"))), Some(2)),
        route(Some(false), None, Some(3)),
    ];
    let event = RouteEvent::Routes(Ok(routes));
    assert!(run.accepts(&event));
    assert!(matches!(run.next(event), RouteAction::EvaluateCondition { task_id: 200, ref code } if code == "amount > 10"));
    assert!(matches!(run.next(RouteEvent::ConditionEvaluated(Ok(false))), RouteAction::CreateWorker { task_id: 200, element_id: 3, what: WorkerWhat::Process }));
    assert!(matches!(run.next(RouteEvent::WorkerCreated(Ok(9))), RouteAction::DeleteWorker { worker_id: 100 }));
    assert!(matches!(run.next(RouteEvent::WorkerDeleted(Ok(()))), RouteAction::Commit));
    assert!(matches!(run.next(RouteEvent::Committed), RouteAction::Finish(Ok(()))));
}

#[test]
fn routing_without_route_fails() {
    let service = WorkerDbService::new();
    let (mut run, _) = service.route_after(worker(WorkerWhat::RouteAfter));
    run.next(RouteEvent::TransactionStarted(Ok(())));
    match run.next(RouteEvent::Routes(Ok(vec![route(None, None, Some(1))]))) {
        RouteAction::Finish(Err(e)) => assert_eq!(e.description, "No route found to be run"),
        other => panic!("{:?}", other),
    }
    let (mut run, _) = service.route_after(worker(WorkerWhat::RouteAfter));
    run.next(RouteEvent::TransactionStarted(Ok(())));
    let unreadable = RouteEvent::Routes(Ok(vec![route(Some(true), Some(JsonValue::single_member("if", JsonValue::Null)), Some(1))]));
    assert!(!run.accepts(&unreadable));
}

#[test]
fn locking_workers() {
    let service = WorkerDbService::new();
    let (mut run, action) = service.fetch_workers(7, 1_000, 10);
    assert!(matches!(action, FetchWorkersAction::Unlock { now: 1_000 }));
    assert!(matches!(run.next(FetchWorkersEvent::Updated(Ok(()))), FetchWorkersAction::Lock { lock_key: 7, lock_by: 60_001_000, now: 1_000, count: 10 }));
    assert!(matches!(run.next(FetchWorkersEvent::Updated(Ok(()))), FetchWorkersAction::Select { lock_key: 7 }));
    match run.next(FetchWorkersEvent::Rows(Ok(vec![]))) {
        FetchWorkersAction::Finish(Ok(rows)) => assert!(rows.is_empty()),
        other => panic!("{:?}", other),
    }
    let (mut run, _) = service.fetch_workers(7, 1_000, 10);
    match run.next(FetchWorkersEvent::Updated(Err("x".to_string()))) {
        FetchWorkersAction::Finish(Err(e)) => assert_eq!(e.description, "Couldn't unlock workers"),
        other => panic!("{:?}", other),
    }
    let e = service.get_worker(Ok(vec![])).unwrap_err();
    assert_eq!(e.description, "Worker not found");
}

#[test]
fn handler_failure_carries_the_error_text() {
    let app = App::new();
    let service = WorkerDbService::new();
    let (mut run, _) = service.process(worker(WorkerWhat::Process));
    run.next(&app, ProcessEvent::TransactionStarted(Ok(())));
    run.next(&app, ProcessEvent::FlowElement(Ok(element(300, "finish"))));
    run.next(&app, ProcessEvent::TaskVariables(Ok(vec![])));
    run.next(&app, ProcessEvent::CurrentFlowItemSet(Ok(())));
    let expected = r#"ErrorDefinition { description: "bad", location: None, value: Null, reason: Object {} }"#.to_string();
    match run.next(&app, ProcessEvent::HandlerFinished(Err(ErrorDefinition::empty("bad".to_string())))) {
        ProcessAction::Finish(Err(e)) => match &e.reason {
            JsonValue::Object(m) => {
                assert_eq!(m[0].0, "error");
                assert!(matches!(&m[0].1, JsonValue::String(s) if *s == expected));
                assert!(expected.contains("bad"));
            }
            other => panic!("{:?}", other),
        },
        other => panic!("{:?}", other),
    }
}

#[test]
fn script_values_get_a_data_type() {
    let v = TaskVariable::from_dynamic("n".to_string(), rhai::Dynamic::from(2.5_f64));
    assert_eq!(v.data_type.id, "float");
    assert_eq!(v.data_type.handler, "");
    let v = TaskVariable::from_dynamic("n".to_string(), rhai::Dynamic::from(true));
    assert_eq!(v.data_type.id, "bool");
    assert!(matches!(&v.value, JsonValue::String(s) if s == "true"));
    let v = TaskVariable::from_dynamic("n".to_string(), rhai::Dynamic::from(7_i64));
    assert_eq!(v.data_type.id, "int");
}

#[test]
fn services_are_built_over_their_repositories() {
    let services = rs_commons::db::services::DbServices::new();
    assert_eq!(services, rs_commons::db::services::DbServices::new());
}

#[test]
fn script_results_follow_the_engine() {
    let js = JsCodeService::new();
    let collected = vec![TaskVariable::from_dynamic("d".to_string(), rhai::Dynamic::from("x".to_string()))];
    let ok = js.script_result(Ok(false), collected).unwrap();
    assert_eq!(ok.len(), 1);
    assert_eq!(ok[0].name, "d");
    let e = js.script_result(Err("syntax".to_string()), vec![]).unwrap_err();
    assert_eq!(e.description, "Couldn't run script");
    assert!(matches!(&e.reason, JsonValue::Object(m) if m.len() == 1 && m[0].0 == "error"
        && matches!(&m[0].1, JsonValue::String(t) if t == "syntax")));
    let vars = vec![int_var("value", 1)];
    assert!(js.evaluate_from_flow_element("value +", &vars, &vec![out_arg("d")]).is_err());
    let out = js.evaluate_from_flow_element("let d = 3; true", &vars, &vec![out_arg("d")]).unwrap();
    assert_eq!(out[0].id, 0);
    assert_eq!(out[0].data_type.id, "int");
    assert!(matches!(&out[0].value, JsonValue::String(t) if t == "3"));
}
