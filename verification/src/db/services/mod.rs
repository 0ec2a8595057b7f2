use vstd::prelude::*;
use crate::adapters::data_types::{builtin_data_type, DataTypeHandler, DataTypes};
use crate::adapters::js_code::JsCodeService;
use crate::adapters::task_handlers::{builtin_handler, TaskHandler, TaskHandlers};
use crate::db::services::core_db_service::CoreDbService;
use crate::db::services::flow_db_service::FlowDbService;
use crate::db::services::process_db_service::ProcessDbService;
use crate::db::services::task_db_service::TasksDbService;
use crate::db::services::worker_db_service::WorkerDbService;
use crate::db::repos::core_repo::CoreRepo;
use crate::db::repos::flow_repo::FlowRepo;
use crate::db::repos::process_repo::ProcessRepo;
use crate::db::repos::task_repo::TasksDbRepo;
use crate::db::repos::worker_repo::WorkerRepo;

pub mod core_db_service;
pub mod flow_db_service;
pub mod process_db_service;
pub mod task_db_service;
pub mod worker_db_service;

verus! {

/// Errors of the database services.
#[derive(Debug)]
pub enum DbServiceError {
    NotFound,
    QueryError(String),
}

/// The database services of the engine.
#[derive(Debug, Clone, Copy, PartialEq, Eq, Structural)]
pub struct DbServices {
    pub core: CoreDbService,
    pub tasks: TasksDbService,
    pub process: ProcessDbService,
    pub flow: FlowDbService,
    pub worker: WorkerDbService,
}

impl DbServices {
    /// The services; they hold no state.
    pub fn new() -> (r: DbServices)
        ensures
            r.core.repo() == (CoreRepo {}),
            r.tasks.repo() == TasksDbRepo,
            r.process.repo() == ProcessRepo,
            r.flow.repo() == FlowRepo,
            r.worker.repo() == WorkerRepo,
    {
        DbServices {
            core: CoreDbService::new(),
            tasks: TasksDbService::new(),
            process: ProcessDbService::new(),
            flow: FlowDbService::new(),
            worker: WorkerDbService::new(),
        }
    }
}

/// The registries of the engine: data types, handlers and the script
/// runner.
#[derive(Debug)]
pub struct App {
    data_types: DataTypes,
    handlers: TaskHandlers,
    js_code: JsCodeService,
}

/// Why the engine could not serve a request.
#[derive(Debug, Clone, Copy, PartialEq, Eq, Structural)]
pub enum AppError {
    DataTypeNotFound,
}

impl App {
    /// The data type registered under `name`.
    pub closed spec fn data_type_of(self, name: Seq<char>) -> Option<DataTypeHandler> {
        self.data_types.lookup(name)
    }

    /// The handler registered under `name`.
    pub closed spec fn handler_of(self, name: Seq<char>) -> Option<TaskHandler> {
        self.handlers.lookup(name)
    }

    /// The engine with the built-in data types and handlers.
    pub fn new() -> (r: App)
        ensures
            forall|n: Seq<char>| #[trigger] r.data_type_of(n) == builtin_data_type(n),
            forall|n: Seq<char>| #[trigger] r.handler_of(n) == builtin_handler(n),
    {
        let mut data_types = DataTypes::new();
        data_types.init();
        let mut handlers = TaskHandlers::new();
        handlers.init();
        App { data_types, handlers, js_code: JsCodeService::new() }
    }

    /// The data type registered under `data_type_name`, if any.
    pub fn dt(&self, data_type_name: String) -> (r: Option<DataTypeHandler>)
        ensures
            r == self.data_type_of(data_type_name@),
    {
        self.data_types.get(data_type_name)
    }

    /// The handler registered under `handler_name`, if any.
    pub fn handler(&self, handler_name: String) -> (r: Option<TaskHandler>)
        ensures
            r == self.handler_of(handler_name@),
    {
        self.handlers.get(handler_name)
    }

    /// The script runner.
    pub fn js_code(&self) -> (r: JsCodeService)
        ensures
            r == (JsCodeService {}),
    {
        self.js_code
    }
}

} // verus!
