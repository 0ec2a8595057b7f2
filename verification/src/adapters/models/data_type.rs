use vstd::prelude::*;
use crate::db::models::data_type_db::DataTypeDb;

verus! {

/// A data type that task variables and flow arguments are declared with.
#[derive(Debug)]
pub struct DataType {
    pub id: String,
    pub name: String,
    pub handler: String,
}

impl DataType {
    /// The data type stored in a `pc_data_type` row.
    pub fn from_db(db_model: &DataTypeDb) -> (r: DataType)
        ensures
            r.id@ == db_model.id@,
            r.name@ == db_model.name@,
            r.handler@ == db_model.handler@,
    {
        DataType {
            id: db_model.id.clone(),
            name: db_model.name.clone(),
            handler: db_model.handler.clone(),
        }
    }

    /// A copy of the data type.
    pub fn copy(&self) -> (r: DataType)
        ensures
            r.id@ == self.id@,
            r.name@ == self.name@,
            r.handler@ == self.handler@,
    {
        DataType { id: self.id.clone(), name: self.name.clone(), handler: self.handler.clone() }
    }
}

} // verus!
