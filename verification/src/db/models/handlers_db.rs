use vstd::prelude::*;

verus! {

/// A row of `pc_handler_type`.
#[derive(Debug)]
pub struct HandlerTypeDb {
    pub id: i32,
    pub name: String,
}

} // verus!
