pub mod data_types;
pub mod db;
pub mod js_code;
pub mod models;
pub mod queue_publisher;
pub mod task_engine;
pub mod task_handlers;
