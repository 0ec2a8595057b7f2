use vstd::prelude::*;
use crate::adapters::models::common_error::{error_of, error_with, ErrorDefinition};
use crate::db::models::data_type_db::DataTypeDb;
use crate::db::repos::core_repo::CoreRepo;
use crate::json::Json;

verus! {

/// Data types, as the engine reads them.
#[derive(Debug, Clone, Copy, PartialEq, Eq, Structural)]
pub struct CoreDbService {
    repo: CoreRepo,
}

impl CoreDbService {
    /// The repository that the service reads and writes through.
    pub closed spec fn repo(self) -> CoreRepo {
        self.repo
    }

    /// The service over its repository; it holds no other state.
    pub fn new() -> (r: CoreDbService)
        ensures
            r.repo() == (CoreRepo {}),
    {
        CoreDbService { repo: CoreRepo::new() }
    }

    /// The data type `dt_name` from the rows that the query for it gave.
    pub fn get_data_type(&self, dt_name: String, rows: Result<Vec<DataTypeDb>, String>) -> (r: Result<DataTypeDb, ErrorDefinition>)
        ensures
            rows matches Ok(v) ==> (v@.len() > 0 ==> (r matches Ok(dt) && dt == v@[0])),
            rows matches Ok(v) ==> (v@.len() == 0 ==> (r matches Err(e)
                && e@ == error_of("Data type "@ + dt_name@ + " not found"@, Json::empty_object()))),
            rows matches Err(text) ==> (r matches Err(e) && e@ == error_with("Error fetching data type"@, text@)),
    {
        self.repo.get_data_type(dt_name, rows)
    }
}

} // verus!
