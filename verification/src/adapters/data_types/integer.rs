use vstd::prelude::*;
use crate::adapters::data_types::DataTypeTrait;
use crate::json::{Json, JsonValue};

verus! {

/// The data type whose values are an integer that fits in i64.
#[derive(Debug, Clone, Copy, PartialEq, Eq, Structural)]
pub struct IntDataType;

impl IntDataType {
    pub fn new() -> (r: IntDataType)
        ensures
            r == IntDataType,
    {
        IntDataType
    }
}

impl DataTypeTrait for IntDataType {
    open spec fn accepts(&self, value: Json) -> bool {
        value.is_i64()
    }

    fn validate(&self, value: &JsonValue) -> (r: Result<(), ()>) {
        if value.is_i64() {
            Ok(())
        } else {
            Err(())
        }
    }
}

} // verus!
