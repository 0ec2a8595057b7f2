use rs_commons::adapters::models::data_type::DataType;
use rs_commons::adapters::models::worker::task_variable::TaskVariable;
use rs_commons::db::models::data_type_db::DataTypeDb;
use rs_commons::db::models::flow_db::FlowElementArgumentDb;
use rs_commons::db::models::handlers_db::HandlerTypeDb;
use rs_commons::db::models::process_db::{FlowElementDb, FlowRouteDb, ProcessDefinitionDb, ProcessDefinitionFlowDb};
use rs_commons::db::models::task_db::TaskVariableDb;
use rs_commons::db::repos::flow_repo::{SaveAction, SaveEvent};
use rs_commons::db::repos::process_repo::ProcessRepo;
use rs_commons::db::repos::task_repo::{ClearTaskAction, ClearTaskStep, CreateTaskAction, CreateTaskEvent, TasksDbRepo};
use rs_commons::db::repos::DbRepoError;
use rs_commons::db::services::core_db_service::CoreDbService;
use rs_commons::db::services::flow_db_service::FlowDbService;
use rs_commons::db::services::process_db_service::ProcessDbService;
use rs_commons::db::services::task_db_service::TasksDbService;
use rs_commons::db::services::DbServiceError;
use rs_commons::json::{JsonNumber, JsonValue};

fn dt(id: &str) -> DataTypeDb {
    DataTypeDb { id: id.to_string(), name: id.to_string(), handler: String::new() }
}

fn element_row(id: u128) -> (FlowElementDb, HandlerTypeDb) {
    (
        FlowElementDb {
            id,
            process_flow: 1,
            el_type: "task".to_string(),
            handler_type: 2,
            handler_value: JsonValue::empty_object(),
            description: Some("first".to_string()),
        },
        HandlerTypeDb { id: 2, name: "script".to_string() },
    )
}

fn text_var(name: &str, text: &str) -> TaskVariable {
    TaskVariable::new(name.to_string(), DataType { id: "string".to_string(), name: "string".to_string(), handler: String::new() }, JsonValue::text(text))
}

#[test]
fn finding_flows_and_elements() {
    let repo = ProcessRepo::new();
    let rows = vec![(
        ProcessDefinitionDb { id: 1, name: "Loan".to_string(), enabled: true, code: "loan".to_string() },
        ProcessDefinitionFlowDb { id: 5, process_id: 1, version_id: 3, created_at: None },
    )];
    let flow = repo.find_flow(Ok(rows)).unwrap();
    assert_eq!((flow.id, flow.version_id, flow.enabled), (5, 3, true));
    assert_eq!(flow.name, "Loan");
    assert!(matches!(repo.find_flow(Ok(vec![])), Err(DbRepoError::NotFound)));
    assert!(matches!(repo.find_flow(Err("e".to_string())), Err(DbRepoError::QueryError(ref m)) if m == "Error fetching flow: e"));
    let el = repo.find_starting_element(Ok(vec![element_row(8)])).unwrap();
    assert_eq!(el.id, 8);
    assert_eq!(el.handler_type.name, "script");
    assert_eq!(el.description, "first");
    assert!(matches!(repo.get_flow_element(Err("x".to_string())), Err(DbRepoError::QueryError(ref m)) if m == "Error fetching flow_item: x"));
    let service = ProcessDbService::new();
    assert!(matches!(service.find_process_flow(Err(DbRepoError::NotFound)), Err(DbServiceError::QueryError(ref m)) if m == "NotFound"));
    assert!(matches!(service.get_flow_element(Err(DbRepoError::QueryError("q".to_string()))), Err(DbServiceError::QueryError(ref m)) if m == "QueryError(\"q\")"));
}

#[test]
fn reading_routes() {
    let repo = ProcessRepo::new();
    let (el, h) = element_row(4);
    let route = FlowRouteDb { id: 1, from_element: 3, to_element: 4, priority: 0, is_conditional: Some(false), condition: None };
    let routes = repo.get_out_routes(Ok(vec![(route, el, h)])).unwrap();
    assert_eq!(routes.len(), 1);
    assert!(routes[0].out_flow_element.is_none());
    assert_eq!(routes[0].in_flow_element.as_ref().unwrap().id, 4);
    assert!(matches!(repo.query_flow_routes(Err("z".to_string())), Err(DbRepoError::QueryError(ref m)) if m == "Error fetching flow routes list: z"));
}

#[test]
fn storing_a_task_and_its_arguments() {
    let service = TasksDbService::new();
    let args = Some(vec![
        ("amount".to_string(), JsonValue::Number(JsonNumber::PosInt(5))),
        ("note".to_string(), JsonValue::text("hi")),
    ]);
    let element_args = vec![rs_commons::adapters::models::process::flow_element::FlowElementArgument::from_db(
        &FlowElementArgumentDb { id: 1, flow_element_id: 2, arg_name: "amount".to_string(), direction: "in".to_string(), data_type: "int".to_string(), is_required: true },
        &dt("int"),
    )];
    let (mut run, action) = service.create(1, 2, 3, args, element_args);
    assert!(matches!(action, CreateTaskAction::InsertTask { flow_uuid: 1, current_flow_id: 2, created_at: 3 }));
    match run.next(CreateTaskEvent::TaskInserted(Ok(vec![9]))) {
        CreateTaskAction::InsertVariable { task_id, name, data_type, .. } => {
            assert_eq!(task_id, 9);
            assert_eq!(name, "amount");
            assert_eq!(data_type, "int");
        }
        other => panic!("{:?}", other),
    }
    match run.next(CreateTaskEvent::VariableInserted(Ok(()))) {
        CreateTaskAction::InsertVariable { name, data_type, .. } => {
            assert_eq!(name, "note");
            assert_eq!(data_type, "string");
        }
        other => panic!("{:?}", other),
    }
    assert!(matches!(run.next(CreateTaskEvent::VariableInserted(Ok(()))), CreateTaskAction::Finish(Ok(9))));
    let (mut run, _) = TasksDbRepo::new().create_task(1, 2, 3, None, vec![]);
    match run.next(CreateTaskEvent::TaskInserted(Ok(vec![]))) {
        CreateTaskAction::Finish(Err(e)) => assert_eq!(e.description, "Couldn't get uuid of the created task"),
        other => panic!("{:?}", other),
    }
}

#[test]
fn clearing_a_task() {
    let service = TasksDbService::new();
    let (mut run, action) = service.clear_task(4);
    assert!(matches!(action, ClearTaskAction::Run(ClearTaskStep::DeleteWorkers)));
    assert!(matches!(run.next(Ok(())), ClearTaskAction::Run(ClearTaskStep::DeleteVariables)));
    match run.next(Err("locked".to_string())) {
        ClearTaskAction::Finish(Err(e)) => assert_eq!(e.description, "Couldn't delete task variables"),
        other => panic!("{:?}", other),
    }
    let (mut run, _) = service.clear_task(4);
    run.next(Ok(()));
    run.next(Ok(()));
    assert!(matches!(run.next(Ok(())), ClearTaskAction::Finish(Ok(()))));
}

#[test]
fn task_rows_and_workers() {
    let service = TasksDbService::new();
    assert_eq!(service.create_worker(Ok(vec![1, 2])).unwrap(), 2);
    assert_eq!(service.create_worker(Ok(vec![])).unwrap_err().description, "Couldn't get uuid of created worker");
    assert_eq!(service.create_worker(Err("e".to_string())).unwrap_err().description, "Couldn't create task worker");
    let row = TaskVariableDb { id: 7, task_id: 1, name: "n".to_string(), data_type: "string".to_string(), value: JsonValue::text("v"), flow_element_id: None };
    let vars = service.get_task_variables(Ok(vec![(row, dt("string"))])).unwrap();
    assert_eq!(vars[0].id, 7);
    assert_eq!(vars[0].data_type.id, "string");
    assert_eq!(service.get_task_variables(Err("e".to_string())).unwrap_err().description, "Couldn't get task variables");
    assert!(service.set_current_flow_item(Ok(())).is_ok());
}

#[test]
fn saving_out_variables() {
    let service = FlowDbService::new();
    let (mut run, action) = service.save_flow_item_out_variables(1, 2, vec!["decision".to_string(), "absent".to_string()], vec![text_var("decision", "yes")]);
    assert!(matches!(action, SaveAction::DeleteElementVariables { task_id: 1, element_id: 2 }));
    assert!(matches!(run.next(SaveEvent::Deleted(Ok(()))), SaveAction::UpdateVariable { task_id: 1, ref name, .. } if name == "decision"));
    assert!(matches!(run.next(SaveEvent::Updated(Ok(vec![]))), SaveAction::InsertVariable { task_id: 1, ref name, ref data_type, .. } if name == "decision" && data_type == "string"));
    assert!(matches!(run.next(SaveEvent::Inserted(Ok(()))), SaveAction::DeleteElementVariables { task_id: 1, element_id: 2 }));
    assert!(matches!(run.next(SaveEvent::Deleted(Ok(()))), SaveAction::GetArguments { element_id: 2 }));
    assert!(matches!(run.next(SaveEvent::Arguments(Ok(vec![]))), SaveAction::Finish(Ok(_))));

    let (mut run, _) = service.save_flow_item_out_variables(1, 2, vec!["decision".to_string()], vec![text_var("decision", "yes")]);
    run.next(SaveEvent::Deleted(Ok(())));
    match run.next(SaveEvent::Updated(Err("bad".to_string()))) {
        SaveAction::Finish(Err(e)) => assert_eq!(e.description, "Error saving results"),
        other => panic!("{:?}", other),
    }
}

#[test]
fn element_arguments_and_data_types() {
    let service = FlowDbService::new();
    let row = FlowElementArgumentDb { id: 1, flow_element_id: 2, arg_name: "a".to_string(), direction: "OUT".to_string(), data_type: "int".to_string(), is_required: false };
    let args = service.get_flow_item_arguments(Ok(vec![(row, dt("int"))])).unwrap();
    assert_eq!(args[0].name, "a");
    assert!(matches!(service.get_flow_item_arguments(Err(DbRepoError::NotFound)), Err(DbServiceError::QueryError(ref m)) if m == "NotFound"));
    let core = CoreDbService::new();
    assert_eq!(core.get_data_type("int".to_string(), Ok(vec![dt("int")])).unwrap().id, "int");
    assert!(core.get_data_type("int".to_string(), Ok(vec![])).is_err());
}
