use vstd::prelude::*;

verus! {

/// A row of `pc_data_type`.
#[derive(Debug)]
pub struct DataTypeDb {
    pub id: String,
    pub name: String,
    pub handler: String,
}

} // verus!
