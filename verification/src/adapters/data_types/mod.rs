//! The data types that values are checked against.
use vstd::prelude::*;
use crate::adapters::data_types::float::FloatDataType;
use crate::adapters::data_types::integer::IntDataType;
use crate::adapters::data_types::number::NumberDataType;
use crate::adapters::data_types::object::ObjectDataType;
use crate::adapters::data_types::string::StringDataType;
use crate::json::{Json, JsonValue};
use crate::registry::Registry;

pub mod float;
pub mod integer;
pub mod number;
pub mod object;
pub mod string;

verus! {

/// A data type that accepts some JSON values and refuses the others.
pub trait DataTypeTrait {
    /// Whether the data type accepts `value`.
    spec fn accepts(&self, value: Json) -> bool;

    fn validate(&self, value: &JsonValue) -> (r: Result<(), ()>)
        ensures
            r is Ok <==> self.accepts(value@);
}

/// One of the data types that the engine knows.
#[derive(Debug, Clone, Copy, PartialEq, Eq, Structural)]
pub enum DataTypeHandler {
    String(StringDataType),
    Int(IntDataType),
    Float(FloatDataType),
    Object(ObjectDataType),
    Number(NumberDataType),
}

impl DataTypeTrait for DataTypeHandler {
    open spec fn accepts(&self, value: Json) -> bool {
        match self {
            DataTypeHandler::String(t) => t.accepts(value),
            DataTypeHandler::Int(t) => t.accepts(value),
            DataTypeHandler::Float(t) => t.accepts(value),
            DataTypeHandler::Object(t) => t.accepts(value),
            DataTypeHandler::Number(t) => t.accepts(value),
        }
    }

    fn validate(&self, value: &JsonValue) -> (r: Result<(), ()>) {
        match self {
            DataTypeHandler::String(t) => t.validate(value),
            DataTypeHandler::Int(t) => t.validate(value),
            DataTypeHandler::Float(t) => t.validate(value),
            DataTypeHandler::Object(t) => t.validate(value),
            DataTypeHandler::Number(t) => t.validate(value),
        }
    }
}

/// The data type that [`DataTypes::init`] registers under `name`.
pub open spec fn builtin_data_type(name: Seq<char>) -> Option<DataTypeHandler> {
    if name == "string"@ {
        Some(DataTypeHandler::String((StringDataType {})))
    } else if name == "int"@ {
        Some(DataTypeHandler::Int(IntDataType))
    } else if name == "float"@ {
        Some(DataTypeHandler::Float(FloatDataType))
    } else if name == "object"@ {
        Some(DataTypeHandler::Object(ObjectDataType))
    } else {
        None
    }
}

/// The data types, by name.
#[derive(Debug)]
pub struct DataTypes {
    h: Registry<DataTypeHandler>,
}

impl DataTypes {
    /// The data type registered under `name`, if any.
    pub closed spec fn lookup(self, name: Seq<char>) -> Option<DataTypeHandler> {
        self.h.lookup(name)
    }

    /// No data type registered.
    pub fn new() -> (r: DataTypes)
        ensures
            forall|n: Seq<char>| #[trigger] r.lookup(n) is None,
    {
        DataTypes { h: Registry::new() }
    }

    /// Registers the built-in data types, and nothing else.
    pub fn init(&mut self)
        ensures
            forall|n: Seq<char>| #[trigger] final(self).lookup(n) == builtin_data_type(n),
    {
        let mut h: Registry<DataTypeHandler> = Registry::new();
        let ghost r0 = h;
        let k = "string".to_string();
        assert(k@ == "string"@);
        h.insert(k, DataTypeHandler::String(StringDataType::new()));
        let ghost r1 = h;
        let k = "int".to_string();
        assert(k@ == "int"@);
        h.insert(k, DataTypeHandler::Int(IntDataType::new()));
        let ghost r2 = h;
        let k = "float".to_string();
        assert(k@ == "float"@);
        h.insert(k, DataTypeHandler::Float(FloatDataType::new()));
        let ghost r3 = h;
        let k = "object".to_string();
        assert(k@ == "object"@);
        h.insert(k, DataTypeHandler::Object(ObjectDataType::new()));
        self.h = h;
        proof {
            reveal_strlit("string");
            reveal_strlit("int");
            reveal_strlit("float");
            reveal_strlit("object");
            assert("string"@[0] != "object"@[0]);
            assert forall|n: Seq<char>| #[trigger] self.lookup(n) == builtin_data_type(n) by {
                assert(r0.lookup(n) is None);
                let _ = r1.lookup(n);
                let _ = r2.lookup(n);
                let _ = r3.lookup(n);
            }
        }
    }

    /// The data type registered under `name`, if any.
    pub fn get(&self, name: String) -> (r: Option<DataTypeHandler>)
        ensures
            r == self.lookup(name@),
    {
        self.h.get(name.as_str())
    }
}

/// The data types split the values: an `int` value and a `float` value are
/// both a `number`, no value is both, and `string`, `object` and `number`
/// accept no value in common.
pub proof fn lemma_data_types_partition(value: Json)
    ensures
        IntDataType.accepts(value) ==> NumberDataType.accepts(value),
        FloatDataType.accepts(value) ==> NumberDataType.accepts(value),
        !(IntDataType.accepts(value) && FloatDataType.accepts(value)),
        !(StringDataType {}.accepts(value) && ObjectDataType.accepts(value)),
        !(StringDataType {}.accepts(value) && NumberDataType.accepts(value)),
        !(ObjectDataType.accepts(value) && NumberDataType.accepts(value)),
{
}

/// Each built-in data type accepts values, and the one registered under a
/// name is the one of that name: `string` accepts texts, `int` integers
/// that fit in i64, `float` floating-point numbers, `object` objects.
pub proof fn lemma_builtin_data_types(value: Json)
    ensures
        builtin_data_type("string"@) matches Some(t) && (t.accepts(value) <==> value is Str),
        builtin_data_type("int"@) matches Some(t) && (t.accepts(value) <==> value.is_i64()),
        builtin_data_type("float"@) matches Some(t) && (t.accepts(value) <==> value.is_f64()),
        builtin_data_type("object"@) matches Some(t) && (t.accepts(value) <==> value is Object),
{
    reveal_strlit("string");
    reveal_strlit("int");
    reveal_strlit("float");
    reveal_strlit("object");
    assert("int"@.len() != "string"@.len());
    assert("float"@.len() != "string"@.len());
    assert("float"@ != "int"@);
    assert("object"@[0] != "string"@[0]);
    assert("object"@.len() != "int"@.len());
    assert("object"@.len() != "float"@.len());
}

} // verus!
