use vstd::prelude::*;
use crate::adapters::models::process::flow_element::{FlowElement, FlowElementArgument};
use crate::adapters::task_engine::task_engine_service::CreateAction;
use crate::db::services::DbServiceError;
use crate::json::{str_equal, JsonValue};

verus! {

/// A request to start a task on the newest version of the flow with the
/// given code, with the given arguments.
#[derive(Debug)]
pub struct CreateTask {
    pub flow: String,
    pub arguments: Option<Vec<(String, JsonValue)>>,
}

/// Whether no two of the given arguments share a name, as the keys of a map.
pub open spec fn argument_names_unique(args: Seq<(String, JsonValue)>) -> bool {
    forall|i: int, j: int| #![trigger args[i], args[j]] 0 <= i < j < args.len() ==> args[i].0@ != args[j].0@
}

/// Whether the arguments, if any, have distinct names.
pub open spec fn arguments_unique(args: Option<Vec<(String, JsonValue)>>) -> bool {
    match args {
        Some(a) => argument_names_unique(a@),
        None => true,
    }
}

fn names_distinct(a: &Vec<(String, JsonValue)>) -> (r: bool)
    ensures
        r == argument_names_unique(a@),
{
    let mut j: usize = 0;
    while j < a.len()
        invariant
            j <= a@.len(),
            forall|x: int, y: int| #![trigger a@[x], a@[y]] 0 <= x < y < j ==> a@[x].0@ != a@[y].0@,
        decreases a@.len() - j,
    {
        let mut i: usize = 0;
        while i < j
            invariant
                i <= j < a@.len(),
                forall|x: int, y: int| #![trigger a@[x], a@[y]] 0 <= x < y < j ==> a@[x].0@ != a@[y].0@,
                forall|x: int| #![trigger a@[x]] 0 <= x < i ==> a@[x].0@ != a@[j as int].0@,
            decreases j - i,
        {
            if str_equal(a[i].0.as_str(), a[j].0.as_str()) {
                assert(a@[i as int].0@ == a@[j as int].0@);
                return false;
            }
            i = i + 1;
        }
        j = j + 1;
    }
    true
}

/// Whether the arguments, if any, have distinct names.
pub fn has_unique_names(args: &Option<Vec<(String, JsonValue)>>) -> (r: bool)
    ensures
        r == arguments_unique(*args),
{
    match args {
        None => true,
        Some(a) => names_distinct(a),
    }
}

/// A created task and the element it stands at.
#[derive(Debug)]
pub struct TaskDefinition {
    pub id: u128,
    pub current_element: u128,
}

impl TaskDefinition {
    /// Asks to store a task on the flow `flow_uuid` at its starting element,
    /// with the given arguments, typed after the element's arguments as they
    /// were read (none when reading them failed).
    pub fn create(flow_uuid: u128, starting_element: &FlowElement, args_to_process: Option<Vec<(String, JsonValue)>>,
        element_args: Result<Vec<FlowElementArgument>, DbServiceError>) -> (r: CreateAction)
        ensures
            r matches CreateAction::CreateTask { flow_uuid: f, current_flow_id, args, element_args: a }
                && f == flow_uuid && current_flow_id == starting_element.id && args == args_to_process
                && (element_args matches Ok(v) ==> a == v) && (element_args is Err ==> a@.len() == 0),
    {
        let element_args = match element_args {
            Ok(a) => a,
            Err(_) => Vec::new(),
        };
        CreateAction::CreateTask { flow_uuid, current_flow_id: starting_element.id, args: args_to_process, element_args }
    }
}

} // verus!
