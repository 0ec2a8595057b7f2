use vstd::prelude::*;

verus! {

/// A row of `pc_process_flow_element_argument`.
#[derive(Debug)]
pub struct FlowElementArgumentDb {
    pub id: u128,
    pub flow_element_id: u128,
    pub arg_name: String,
    pub direction: String,
    pub data_type: String,
    pub is_required: bool,
}

} // verus!
