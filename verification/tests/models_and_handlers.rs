use rs_commons::adapters::data_types::{DataTypeHandler, DataTypeTrait, DataTypes};
use rs_commons::adapters::data_types::float::FloatDataType;
use rs_commons::adapters::data_types::integer::IntDataType;
use rs_commons::adapters::data_types::number::NumberDataType;
use rs_commons::adapters::data_types::object::ObjectDataType;
use rs_commons::adapters::data_types::string::StringDataType;
use rs_commons::adapters::models::data_type::DataType;
use rs_commons::adapters::models::process::flow_element::{is_argument_given, ArgumentDirection, FlowElement, FlowElementArgument, ProcessError};
use rs_commons::adapters::models::worker::task_variable::{EngineValue, TaskVariable};
use rs_commons::adapters::models::worker::task_worker::{TaskWorker, WorkerWhat};
use rs_commons::adapters::models::worker::task_worker_result::{TaskWorkerResult, WorkerResult};
use rs_commons::adapters::task_handlers::finish::FinishHandler;
use rs_commons::adapters::task_handlers::simple::SimpleHandler;
use rs_commons::adapters::task_handlers::starting::StartingHandler;
use rs_commons::adapters::task_handlers::{HandlerAction, HandlerEvent, HandlerStage, TaskHandler, TaskHandlers};
use rs_commons::adapters::models::common_error::ErrorDefinition;
use rs_commons::db::models::data_type_db::DataTypeDb;
use rs_commons::db::models::flow_db::FlowElementArgumentDb;
use rs_commons::db::models::handlers_db::HandlerTypeDb;
use rs_commons::db::models::process_db::FlowElementDb;
use rs_commons::db::models::task_worker_db::TaskWorkerDb;
use rs_commons::db::repos::task_repo::data_type_for_argument;
use rs_commons::db::services::App;
use rs_commons::json::{JsonNumber, JsonValue};

fn dt(id: &str) -> DataTypeDb {
    DataTypeDb { id: id.to_string(), name: id.to_string(), handler: String::new() }
}

fn arg(name: &str, direction: &str, required: bool) -> FlowElementArgument {
    let row = FlowElementArgumentDb {
        id: 1,
        flow_element_id: 2,
        arg_name: name.to_string(),
        direction: direction.to_string(),
        data_type: "string".to_string(),
        is_required: required,
    };
    FlowElementArgument::from_db(&row, &dt("string"))
}

fn element(handler: &str, value: JsonValue) -> FlowElement {
    let row = FlowElementDb {
        id: 9,
        process_flow: 3,
        el_type: "task".to_string(),
        handler_type: 1,
        handler_value: value,
        description: None,
    };
    FlowElement::from_db(row, HandlerTypeDb { id: 1, name: handler.to_string() })
}

fn text_var(name: &str, text: &str) -> TaskVariable {
    TaskVariable::new(name.to_string(), DataType::from_db(&dt("string")), JsonValue::String(text.to_string()))
}

#[test]
fn data_type_validation() {
    let int = JsonValue::Number(JsonNumber::NegInt(-5));
    let float = JsonValue::Number(JsonNumber::Float(2.5f64.to_bits()));
    let big = JsonValue::Number(JsonNumber::PosInt(u64::MAX));
    let text = JsonValue::text("a");
    let obj = JsonValue::empty_object();
    assert!(IntDataType::new().validate(&int).is_ok());
    assert!(IntDataType::new().validate(&big).is_err());
    assert!(IntDataType::new().validate(&float).is_err());
    assert!(FloatDataType::new().validate(&float).is_ok());
    assert!(FloatDataType::new().validate(&int).is_err());
    assert!(NumberDataType::new().validate(&big).is_ok());
    assert!(NumberDataType::new().validate(&text).is_err());
    assert!(StringDataType::new().validate(&text).is_ok());
    assert!(StringDataType::new().validate(&obj).is_err());
    assert!(ObjectDataType::new().validate(&obj).is_ok());
    assert!(ObjectDataType::new().validate(&JsonValue::Null).is_err());
}

#[test]
fn data_types_partition_example() {
    let values = [
        JsonValue::Number(JsonNumber::PosInt(3)),
        JsonValue::Number(JsonNumber::Float(0.5f64.to_bits())),
        JsonValue::text("x"),
        JsonValue::empty_object(),
    ];
    for v in values.iter() {
        let int = IntDataType::new().validate(v).is_ok();
        let float = FloatDataType::new().validate(v).is_ok();
        let number = NumberDataType::new().validate(v).is_ok();
        assert!(!(int && float));
        assert!(!int || number);
        assert!(!float || number);
    }
}

#[test]
fn data_types_registry() {
    let mut types = DataTypes::new();
    assert!(types.get("string".to_string()).is_none());
    types.init();
    assert!(matches!(types.get("string".to_string()), Some(DataTypeHandler::String(_))));
    assert!(matches!(types.get("int".to_string()), Some(DataTypeHandler::Int(_))));
    assert!(matches!(types.get("float".to_string()), Some(DataTypeHandler::Float(_))));
    assert!(matches!(types.get("object".to_string()), Some(DataTypeHandler::Object(_))));
    assert!(types.get("number".to_string()).is_none());
    assert!(types.get("bool".to_string()).is_none());
}

#[test]
fn handlers_registry() {
    let mut handlers = TaskHandlers::new();
    assert!(handlers.get("script".to_string()).is_none());
    handlers.init();
    for name in ["starting", "continue", "match", "on_error"] {
        assert!(matches!(handlers.get(name.to_string()), Some(TaskHandler::Simple(_))));
    }
    assert!(matches!(handlers.get("finish".to_string()), Some(TaskHandler::Finish(_))));
    assert!(matches!(handlers.get("script".to_string()), Some(TaskHandler::Script(_))));
    assert!(handlers.get("other".to_string()).is_none());
    let app = App::new();
    assert!(matches!(app.handler("finish".to_string()), Some(TaskHandler::Finish(_))));
    assert!(matches!(app.dt("int".to_string()), Some(DataTypeHandler::Int(_))));
}

#[test]
fn argument_direction_is_read_loosely() {
    assert_eq!(arg("a", "  IN ", true).direction, ArgumentDirection::In);
    assert_eq!(arg("a", "Out", true).direction, ArgumentDirection::Out);
    assert_eq!(arg("a", "inout", true).direction, ArgumentDirection::Undefined);
    let a = arg("amount", "in", false);
    assert_eq!(a.name, "amount");
    assert!(!a.is_required);
    assert_eq!(a.data_type.id, "string");
}

#[test]
fn element_process_reports_missing_required_arguments() {
    let el = element("script", JsonValue::empty_object());
    assert_eq!(el.description, "");
    let args = vec![arg("a", "in", true), arg("b", "in", false), arg("c", "in", true)];
    let given = Some(vec![("a".to_string(), JsonValue::text("1"))]);
    match el.process(&given, Ok(args)) {
        Err(ProcessError::GeneralError(text, value)) => {
            assert_eq!(text, "Args that are not found");
            match value {
                JsonValue::Object(m) => {
                    assert_eq!(m.len(), 1);
                    assert_eq!(m[0].0, "arguments");
                    match &m[0].1 {
                        JsonValue::Array(items) => {
                            assert_eq!(items.len(), 1);
                            assert_eq!(items[0].as_str().map(|s| s.as_str()), Some("c"));
                        }
                        other => panic!("{:?}", other),
                    }
                }
                other => panic!("{:?}", other),
            }
        }
        other => panic!("{:?}", other),
    }
    let all = Some(vec![("a".to_string(), JsonValue::Null), ("c".to_string(), JsonValue::Null)]);
    assert!(el.process(&all, Ok(vec![arg("a", "in", true), arg("c", "in", true)])).is_ok());
    assert!(el.process(&None, Ok(vec![arg("b", "in", false)])).is_ok());
    assert!(matches!(el.process(&None, Err(ProcessError::NotFound)), Err(ProcessError::NotFound)));
    assert!(is_argument_given(&all, &"c".to_string()));
    assert!(!is_argument_given(&None, &"c".to_string()));
}

#[test]
fn task_worker_from_row() {
    let mut row = TaskWorkerDb {
        id: 1,
        task_id: 2,
        element_id: 3,
        created_at: 4,
        run_after: 5,
        runner_key: None,
        locked_by: None,
        what: Some("route_after".to_string()),
    };
    let w = TaskWorker::from_db(&row);
    assert_eq!((w.id, w.task_id, w.element_id, w.created_at), (1, 2, 3, 4));
    assert_eq!(w.what, WorkerWhat::RouteAfter);
    assert_eq!(WorkerWhat::RouteAfter.as_db_text(), "route_after");
    row.what = Some(WorkerWhat::Process.as_db_text());
    assert_eq!(TaskWorker::from_db(&row).what, WorkerWhat::Process);
    row.what = None;
    assert_eq!(TaskWorker::from_db(&row).what, WorkerWhat::Process);
}

#[test]
fn task_variable_engine_values() {
    let v = text_var("s", "hello");
    assert!(v.is_engine_ready());
    assert!(matches!(v.to_engine_value(), EngineValue::Text(t) if t == "hello"));
    let i = TaskVariable::new("i".to_string(), DataType::from_db(&dt("int")), JsonValue::Null);
    assert!(matches!(i.to_engine_value(), EngineValue::Int(0)));
    let f = TaskVariable::new("f".to_string(), DataType::from_db(&dt("float")), JsonValue::Number(JsonNumber::PosInt(2)));
    assert!(matches!(f.to_engine_value(), EngineValue::FloatOfUnsigned(2)));
    let b = TaskVariable::new("b".to_string(), DataType::from_db(&dt("bool")), JsonValue::Bool(true));
    assert!(matches!(b.to_engine_value(), EngineValue::Bool(true)));
    let bad = TaskVariable::new("b".to_string(), DataType::from_db(&dt("bool")), JsonValue::text("yes"));
    assert!(!bad.is_engine_ready());
    let other = TaskVariable::new("o".to_string(), DataType::from_db(&dt("object")), JsonValue::Null);
    assert!(matches!(other.to_engine_value(), EngineValue::Nothing));
}

#[test]
fn worker_results() {
    let r = TaskWorkerResult::ok();
    assert_eq!(r.result, WorkerResult::Done);
    assert!(r.wait_until.is_none() && r.out_args.is_empty());
    let r = TaskWorkerResult::ok_with_args(vec![text_var("a", "b")]);
    assert_eq!(r.out_args.len(), 1);
    assert_eq!(TaskWorkerResult::finish().result, WorkerResult::Finishing);
}

#[test]
fn simple_handler_adds_two_texts() {
    let res = SimpleHandler::new().process(0x2a, Some(vec![text_var("x", "y")]), &dt("string"), &dt("string")).unwrap();
    assert_eq!(res.result, WorkerResult::Done);
    assert_eq!(res.out_args.len(), 3);
    assert_eq!(res.out_args[1].name, "text");
    assert!(matches!(&res.out_args[1].value, JsonValue::String(s) if s == "This is text"));
    assert_eq!(res.out_args[2].name, "text_1");
    assert!(matches!(&res.out_args[2].value, JsonValue::String(s) if s == "Task id is: 00000000-0000-0000-0000-00000000002a"));
}

#[test]
fn finish_and_starting_handlers() {
    let res = FinishHandler::new().process(Ok(())).unwrap();
    assert_eq!(res.result, WorkerResult::Finishing);
    let e = FinishHandler::new().process(Err(ErrorDefinition::empty("x".to_string()))).unwrap_err();
    assert_eq!(e.description, "x");
    let res = StartingHandler::_new().process(None).unwrap();
    assert_eq!(res.result, WorkerResult::Done);
    assert!(res.out_args.is_empty());
}

#[test]
fn handler_runs() {
    let el = element("script", JsonValue::single_member("script", JsonValue::text("true")));
    let (mut run, action) = TaskHandler::Script(rs_commons::adapters::task_handlers::script_handler::ScriptHandler::new()).start(5, &el, None);
    assert!(matches!(action, HandlerAction::GetElementVariables { task_id: 5, element_id: 9 }));
    let action = run.next(HandlerEvent::ElementVariables(Ok(vec![])));
    assert!(matches!(action, HandlerAction::GetElementArguments { element_id: 9 }));
    let action = run.next(HandlerEvent::ElementArguments(Ok(vec![])));
    assert!(matches!(action, HandlerAction::RunScript { ref code, .. } if code == "true"));
    assert!(run.accepts(&HandlerEvent::ScriptRan));
    assert!(!run.accepts(&HandlerEvent::DataType(dt("string"))));
    let action = run.next(HandlerEvent::ScriptRan);
    assert!(matches!(action, HandlerAction::Finish(Ok(_))));
    assert!(matches!(run.stage, HandlerStage::Finished));

    let no_script = element("script", JsonValue::empty_object());
    let (_, action) = TaskHandler::Script(rs_commons::adapters::task_handlers::script_handler::ScriptHandler::new()).start(5, &no_script, None);
    assert!(matches!(action, HandlerAction::Finish(Err(ref e)) if e.description == "Flow element does not contains script as property"));

    let (mut run, action) = TaskHandler::Finish(FinishHandler::new()).start(7, &no_script, None);
    assert!(matches!(action, HandlerAction::ClearTask { task_id: 7 }));
    assert!(matches!(run.next(HandlerEvent::TaskCleared(Ok(()))), HandlerAction::Finish(Ok(ref r)) if r.result == WorkerResult::Finishing));

    let (mut run, action) = TaskHandler::Simple(SimpleHandler::new()).start(7, &no_script, Some(vec![]));
    assert!(matches!(action, HandlerAction::GetStringDataType));
    assert!(matches!(run.next(HandlerEvent::DataType(dt("string"))), HandlerAction::GetStringDataType));
    assert!(matches!(run.next(HandlerEvent::DataType(dt("string"))), HandlerAction::Finish(Ok(ref r)) if r.out_args.len() == 2));
}

#[test]
fn argument_data_type_lookup() {
    let args = vec![arg("a", "in", true)];
    assert_eq!(data_type_for_argument(&"a".to_string(), &args), "string");
}
