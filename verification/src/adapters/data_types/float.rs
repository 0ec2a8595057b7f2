use vstd::prelude::*;
use crate::adapters::data_types::DataTypeTrait;
use crate::json::{Json, JsonValue};

verus! {

/// The data type whose values are a float.
#[derive(Debug, Clone, Copy, PartialEq, Eq, Structural)]
pub struct FloatDataType;

impl FloatDataType {
    pub fn new() -> (r: FloatDataType)
        ensures
            r == FloatDataType,
    {
        FloatDataType
    }
}

impl DataTypeTrait for FloatDataType {
    open spec fn accepts(&self, value: Json) -> bool {
        value.is_f64()
    }

    fn validate(&self, value: &JsonValue) -> (r: Result<(), ()>) {
        if value.is_f64() {
            Ok(())
        } else {
            Err(())
        }
    }
}

} // verus!
