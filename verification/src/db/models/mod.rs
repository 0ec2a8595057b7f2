pub mod data_type_db;
pub mod flow_db;
pub mod handlers_db;
pub mod process_db;
pub mod task_db;
pub mod task_worker_db;
