use vstd::prelude::*;
use crate::adapters::models::process::flow_element::FlowElement;
use crate::db::models::process_db::FlowRouteDb;

verus! {

/// A route out of a flow element, with the element it leads to.
#[derive(Debug)]
pub struct FlowRoute {
    pub model: FlowRouteDb,
    pub out_flow_element: Option<FlowElement>,
    pub in_flow_element: Option<FlowElement>,
}

} // verus!
