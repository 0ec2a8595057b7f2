pub mod flow_element;
pub mod flow_route;
pub mod process_flow;
