use vstd::prelude::*;
use crate::adapters::models::process::flow_element::{FlowElement, FlowElementArgument};
use crate::adapters::models::task::TaskDefinition;
use crate::adapters::task_engine::task_engine_service::CreateAction;
use crate::db::services::DbServiceError;
use crate::json::JsonValue;

verus! {

/// One version of a process: the flow that tasks run through.
#[derive(Debug)]
pub struct ProcessFlow {
    pub id: u128,
    pub name: String,
    pub enabled: bool,
    pub version_id: i32,
}

impl ProcessFlow {
    /// Asks to start a task on this flow at its starting element, as
    /// [`TaskDefinition::create`] does.
    pub fn run_task(&self, starting_element: &FlowElement, args: Option<Vec<(String, JsonValue)>>,
        element_args: Result<Vec<FlowElementArgument>, DbServiceError>) -> (r: CreateAction)
        ensures
            r matches CreateAction::CreateTask { flow_uuid, current_flow_id, args: a, element_args: e }
                && flow_uuid == self.id && current_flow_id == starting_element.id && a == args
                && (element_args matches Ok(v) ==> e == v) && (element_args is Err ==> e@.len() == 0),
    {
        TaskDefinition::create(self.id, starting_element, args, element_args)
    }
}

} // verus!
