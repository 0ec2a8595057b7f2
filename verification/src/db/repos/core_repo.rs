use vstd::prelude::*;
use crate::adapters::models::common_error::{error_of, error_with, ErrorDefinition};
use crate::db::models::data_type_db::DataTypeDb;
use crate::json::{Json, JsonValue};

verus! {

/// Reads data types.
#[derive(Debug, Clone, Copy, PartialEq, Eq, Structural)]
pub struct CoreRepo {}

impl CoreRepo {
    pub fn new() -> (r: CoreRepo)
        ensures
            r == (CoreRepo {}),
    {
        CoreRepo {}
    }

    /// The data type `dt_name` from the rows that the query for it gave:
    /// the first row, an error when there is none, or the query's error.
    pub fn get_data_type(&self, dt_name: String, rows: Result<Vec<DataTypeDb>, String>) -> (r: Result<DataTypeDb, ErrorDefinition>)
        ensures
            rows matches Ok(v) ==> (v@.len() > 0 ==> (r matches Ok(dt) && dt == v@[0])),
            rows matches Ok(v) ==> v@.len() == 0 ==> (r matches Err(e)
                && e@ == error_of("Data type "@ + dt_name@ + " not found"@, Json::empty_object())),
            rows matches Err(text) ==> (r matches Err(e) && e@ == error_with("Error fetching data type"@, text@)),
    {
        match rows {
            Ok(mut found) => {
                if found.len() == 0 {
                    let mut description = String::from_str("Data type ");
                    description.append(dt_name.as_str());
                    description.append(" not found");
                    Err(ErrorDefinition::empty(description))
                } else {
                    Ok(found.remove(0))
                }
            },
            Err(text) => Err(ErrorDefinition::with_error("Error fetching data type", text)),
        }
    }
}

} // verus!
