pub mod task_engine_service;
