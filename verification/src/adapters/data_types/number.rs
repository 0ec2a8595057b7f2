use vstd::prelude::*;
use crate::adapters::data_types::DataTypeTrait;
use crate::json::{Json, JsonValue};

verus! {

/// The data type whose values are a number.
#[derive(Debug, Clone, Copy, PartialEq, Eq, Structural)]
pub struct NumberDataType;

impl NumberDataType {
    pub fn new() -> (r: NumberDataType)
        ensures
            r == NumberDataType,
    {
        NumberDataType
    }
}

impl DataTypeTrait for NumberDataType {
    open spec fn accepts(&self, value: Json) -> bool {
        value is Number
    }

    fn validate(&self, value: &JsonValue) -> (r: Result<(), ()>) {
        if value.is_number() {
            Ok(())
        } else {
            Err(())
        }
    }
}

} // verus!
