use vstd::prelude::*;
use crate::adapters::data_types::DataTypeTrait;
use crate::json::{Json, JsonValue};

verus! {

/// The data type whose values are a string.
#[derive(Debug, Clone, Copy, PartialEq, Eq, Structural)]
pub struct StringDataType {}

impl StringDataType {
    pub fn new() -> (r: StringDataType)
        ensures
            r == (StringDataType {}),
    {
        (StringDataType {})
    }
}

impl DataTypeTrait for StringDataType {
    open spec fn accepts(&self, value: Json) -> bool {
        value is Str
    }

    fn validate(&self, value: &JsonValue) -> (r: Result<(), ()>) {
        if value.is_string() {
            Ok(())
        } else {
            Err(())
        }
    }
}

} // verus!
