use vstd::prelude::*;
use crate::adapters::data_types::DataTypeTrait;
use crate::json::{Json, JsonValue};

verus! {

/// The data type whose values are an object.
#[derive(Debug, Clone, Copy, PartialEq, Eq, Structural)]
pub struct ObjectDataType;

impl ObjectDataType {
    pub fn new() -> (r: ObjectDataType)
        ensures
            r == ObjectDataType,
    {
        ObjectDataType
    }
}

impl DataTypeTrait for ObjectDataType {
    open spec fn accepts(&self, value: Json) -> bool {
        value is Object
    }

    fn validate(&self, value: &JsonValue) -> (r: Result<(), ()>) {
        if value.is_object() {
            Ok(())
        } else {
            Err(())
        }
    }
}

} // verus!
