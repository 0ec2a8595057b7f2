pub mod common_error;
pub mod data_type;
pub mod handlers;
pub mod process;
pub mod task;
pub mod worker;
