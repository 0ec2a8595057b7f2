pub mod task_variable;
pub mod task_worker;
pub mod task_worker_result;
