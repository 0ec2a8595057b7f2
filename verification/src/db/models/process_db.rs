use vstd::prelude::*;
use crate::json::JsonValue;

verus! {

/// A row of `pc_process_definition`.
#[derive(Debug)]
pub struct ProcessDefinitionDb {
    pub id: u128,
    pub name: String,
    pub enabled: bool,
    pub code: String,
}

/// A row of `pc_process_definition_flow`: one version of a process.
#[derive(Debug)]
pub struct ProcessDefinitionFlowDb {
    pub id: u128,
    pub process_id: u128,
    pub version_id: i32,
    pub created_at: Option<i64>,
}

/// A row of `pc_process_flow_element`.
#[derive(Debug)]
pub struct FlowElementDb {
    pub id: u128,
    pub process_flow: u128,
    pub el_type: String,
    pub handler_type: i32,
    pub handler_value: JsonValue,
    pub description: Option<String>,
}

/// A row of `pc_process_flow_route`: an edge between two flow elements.
#[derive(Debug)]
pub struct FlowRouteDb {
    pub id: u128,
    pub from_element: u128,
    pub to_element: u128,
    pub priority: i32,
    pub is_conditional: Option<bool>,
    pub condition: Option<JsonValue>,
}

} // verus!
