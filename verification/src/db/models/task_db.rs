use vstd::prelude::*;
use crate::json::JsonValue;

verus! {

/// A row of `pc_task`.
#[derive(Debug)]
pub struct TaskDb {
    pub id: u128,
    pub process_flow: u128,
    pub created_at: i64,
    pub current_flow_item: Option<u128>,
}

/// A row of `pc_task_variable`.
#[derive(Debug)]
pub struct TaskVariableDb {
    pub id: u128,
    pub task_id: u128,
    pub name: String,
    pub data_type: String,
    pub value: JsonValue,
    pub flow_element_id: Option<u128>,
}

} // verus!
