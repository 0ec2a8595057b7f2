use vstd::prelude::*;
use crate::adapters::models::common_error::{error_is, ErrorDefinition};
use crate::adapters::models::process::flow_element::FlowElement;
use crate::adapters::models::worker::task_worker_result::{TaskWorkerResult, WorkerResult};
use crate::json::Json;

verus! {

/// The handler that runs the script in its element's `script` property.
#[derive(Debug, Clone, Copy, PartialEq, Eq, Structural)]
pub struct ScriptHandler;

/// Whether an element's `script` property, where there is one, is a string.
pub open spec fn script_readable(flow_element: FlowElement) -> bool {
    flow_element.handler_value@.get("script"@) matches Some(v) ==> v is Str
}

impl ScriptHandler {
    pub fn new() -> (r: ScriptHandler)
        ensures
            r == ScriptHandler,
    {
        ScriptHandler
    }

    /// The script of the element, or an error when it has none.
    pub fn script(&self, flow_element: &FlowElement) -> (r: Result<String, ErrorDefinition>)
        requires
            script_readable(*flow_element),
        ensures
            flow_element.handler_value@.get("script"@) matches Some(v) ==> (r matches Ok(s) && v == Json::Str(s@)),
            flow_element.handler_value@.get("script"@) is None ==> (r matches Err(e)
                && error_is(e, "Flow element does not contains script as property"@, Json::empty_object())),
    {
        match flow_element.handler_value.get("script") {
            Some(script) => Ok(script.as_str().unwrap().clone()),
            None => Err(ErrorDefinition::empty("Flow element does not contains script as property".to_string())),
        }
    }

    /// Once the script has run, whatever it gave, the handler is done.
    pub fn process(&self) -> (r: Result<TaskWorkerResult, ErrorDefinition>)
        ensures
            r matches Ok(res) && res.result == WorkerResult::Done && res.wait_until is None && res.out_args@.len() == 0,
    {
        Ok(TaskWorkerResult::ok())
    }
}

} // verus!
