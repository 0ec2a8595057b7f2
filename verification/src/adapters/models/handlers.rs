use vstd::prelude::*;
use crate::db::models::handlers_db::HandlerTypeDb;

verus! {

/// The handler type of a flow element, by name.
#[derive(Debug)]
pub struct HandlerType {
    pub name: String,
}

impl HandlerType {
    /// The handler type stored in a `pc_handler_type` row.
    pub fn from_db(db_model: HandlerTypeDb) -> (r: HandlerType)
        ensures
            r.name@ == db_model.name@,
    {
        HandlerType { name: db_model.name }
    }
}

} // verus!
