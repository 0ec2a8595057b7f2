use vstd::prelude::*;
use crate::adapters::models::data_type::DataType;
use crate::foreign::dates::{datetime_parses, parses_as_datetime};
use crate::foreign::engine::{
    dynamic_is_bool, dynamic_is_float, dynamic_is_int, dynamic_is_string, dynamic_is_timestamp,
    dynamic_text, scope_entries, scope_push_bool, scope_push_date, scope_push_datetime,
    scope_push_float_bits, scope_push_float_of_signed, scope_push_float_of_unsigned,
    scope_push_int, scope_push_nothing, scope_push_text, ScopeValue,
};
use crate::json::{str_equal, Json, JsonNumber, JsonValue};

verus! {

/// A named, typed value of a task.
#[derive(Debug)]
pub struct TaskVariable {
    pub id: u128,
    pub name: String,
    pub data_type: DataType,
    pub value: JsonValue,
}

/// The format that `date` variables are read with.
pub open spec fn date_format() -> Seq<char> {
    "%Y-%m-%d"@
}

/// The format that `datetime` variables are read with.
pub open spec fn datetime_format() -> Seq<char> {
    "%Y-%m-%d %H:%M:%S %z"@
}

/// The value that a variable gives a script: by its data type, a string,
/// an integer (0 when the value is none), a float (0 when the value is no
/// number), a date or a date and time read from the text, a boolean, or
/// nothing for any other type.
#[derive(Debug)]
pub enum EngineValue {
    Text(String),
    Int(i64),
    FloatOfUnsigned(u64),
    FloatOfSigned(i64),
    FloatBits(u64),
    Date(String),
    DateTime(String),
    Bool(bool),
    Nothing,
}

/// The mathematical value of an [`EngineValue`].
pub enum EngineValueView {
    Text(Seq<char>),
    Int(i64),
    FloatOfUnsigned(u64),
    FloatOfSigned(i64),
    FloatBits(u64),
    Date(Seq<char>),
    DateTime(Seq<char>),
    Bool(bool),
    Nothing,
}

impl View for EngineValue {
    type V = EngineValueView;

    open spec fn view(&self) -> EngineValueView {
        match self {
            EngineValue::Text(s) => EngineValueView::Text(s@),
            EngineValue::Int(i) => EngineValueView::Int(*i),
            EngineValue::FloatOfUnsigned(u) => EngineValueView::FloatOfUnsigned(*u),
            EngineValue::FloatOfSigned(i) => EngineValueView::FloatOfSigned(*i),
            EngineValue::FloatBits(b) => EngineValueView::FloatBits(*b),
            EngineValue::Date(s) => EngineValueView::Date(s@),
            EngineValue::DateTime(s) => EngineValueView::DateTime(s@),
            EngineValue::Bool(b) => EngineValueView::Bool(*b),
            EngineValue::Nothing => EngineValueView::Nothing,
        }
    }
}

/// What a script scope holds once the value is pushed into it: the text,
/// integer and boolean themselves, and the kind of the other values.
pub open spec fn scope_value_of(v: EngineValueView) -> ScopeValue {
    match v {
        EngineValueView::Text(s) => ScopeValue::Text(s),
        EngineValueView::Int(i) => ScopeValue::Int(i),
        EngineValueView::FloatOfUnsigned(_) => ScopeValue::Float,
        EngineValueView::FloatOfSigned(_) => ScopeValue::Float,
        EngineValueView::FloatBits(_) => ScopeValue::Float,
        EngineValueView::Date(_) => ScopeValue::Date,
        EngineValueView::DateTime(_) => ScopeValue::DateTime,
        EngineValueView::Bool(b) => ScopeValue::Bool(b),
        EngineValueView::Nothing => ScopeValue::Nothing,
    }
}

/// Whether a variable can be handed to a script: text-typed variables
/// (`string`, `date`, `datetime`) hold a string and `bool` ones a boolean.
pub open spec fn engine_ready(v: TaskVariable) -> bool {
    let id = v.data_type.id@;
    &&& (id == "string"@ || id == "date"@ || id == "datetime"@) ==> v.value@ is Str
    &&& id == "bool"@ ==> v.value@ is Bool
}

/// The float that `serde_json`'s `as_f64` gives a value, defaulting to 0.
pub open spec fn float_of(value: Json) -> EngineValueView {
    match value {
        Json::Number(JsonNumber::PosInt(u)) => EngineValueView::FloatOfUnsigned(u),
        Json::Number(JsonNumber::NegInt(i)) => EngineValueView::FloatOfSigned(i),
        Json::Number(JsonNumber::Float(b)) => EngineValueView::FloatBits(b),
        _ => EngineValueView::FloatBits(0),
    }
}

/// The value that a variable gives a script.
pub open spec fn engine_value_of(v: TaskVariable) -> EngineValueView {
    let id = v.data_type.id@;
    let value = v.value@;
    if id == "string"@ {
        EngineValueView::Text(value->Str_0)
    } else if id == "int"@ {
        EngineValueView::Int(
            match value.as_i64() {
                Some(i) => i,
                None => 0,
            },
        )
    } else if id == "float"@ {
        float_of(value)
    } else if id == "date"@ {
        EngineValueView::Date(value->Str_0)
    } else if id == "datetime"@ {
        EngineValueView::DateTime(value->Str_0)
    } else if id == "bool"@ {
        EngineValueView::Bool(value->Bool_0)
    } else {
        EngineValueView::Nothing
    }
}

/// A variable hands a script the value it holds, in the kind its data type
/// names: a `string` its text, an `int` its integer (0 when the value is no
/// integer that fits in 64 bits), a `float` its number, a `date` or a
/// `datetime` its text, a `bool` its boolean, and any other type nothing.
/// The script scope then holds the text, integer or boolean itself.
pub proof fn lemma_engine_value_by_type(v: TaskVariable)
    ensures
        v.data_type.id@ == "string"@ ==> (v.value@ matches Json::Str(s)
            ==> engine_value_of(v) == EngineValueView::Text(s)
                && scope_value_of(engine_value_of(v)) == ScopeValue::Text(s)),
        v.data_type.id@ == "int"@ ==> (v.value@ matches Json::Number(JsonNumber::NegInt(i))
            ==> engine_value_of(v) == EngineValueView::Int(i)
                && scope_value_of(engine_value_of(v)) == ScopeValue::Int(i)),
        v.data_type.id@ == "int"@ ==> (v.value@ matches Json::Number(JsonNumber::PosInt(u))
            ==> engine_value_of(v) == EngineValueView::Int(
                if u <= i64::MAX { u as i64 } else { 0 })),
        v.data_type.id@ == "int"@ ==> (!(v.value@ is Number) || (v.value@ is Number && v.value@->Number_0 is Float)
            ==> engine_value_of(v) == EngineValueView::Int(0)),
        v.data_type.id@ == "float"@ ==> (v.value@ matches Json::Number(JsonNumber::PosInt(u))
            ==> engine_value_of(v) == EngineValueView::FloatOfUnsigned(u)),
        v.data_type.id@ == "float"@ ==> (v.value@ matches Json::Number(JsonNumber::NegInt(i))
            ==> engine_value_of(v) == EngineValueView::FloatOfSigned(i)),
        v.data_type.id@ == "float"@ ==> (v.value@ matches Json::Number(JsonNumber::Float(b))
            ==> engine_value_of(v) == EngineValueView::FloatBits(b)),
        v.data_type.id@ == "float"@ ==> (!(v.value@ is Number)
            ==> engine_value_of(v) == EngineValueView::FloatBits(0)),
        v.data_type.id@ == "date"@ ==> (v.value@ matches Json::Str(s)
            ==> engine_value_of(v) == EngineValueView::Date(s)),
        v.data_type.id@ == "datetime"@ ==> (v.value@ matches Json::Str(s)
            ==> engine_value_of(v) == EngineValueView::DateTime(s)),
        v.data_type.id@ == "bool"@ ==> (v.value@ matches Json::Bool(b)
            ==> engine_value_of(v) == EngineValueView::Bool(b)
                && scope_value_of(engine_value_of(v)) == ScopeValue::Bool(b)),
        v.data_type.id@ != "string"@ && v.data_type.id@ != "int"@ && v.data_type.id@ != "float"@
            && v.data_type.id@ != "date"@ && v.data_type.id@ != "datetime"@ && v.data_type.id@ != "bool"@
            ==> engine_value_of(v) == EngineValueView::Nothing,
{
    reveal_strlit("string");
    reveal_strlit("int");
    reveal_strlit("float");
    reveal_strlit("date");
    reveal_strlit("datetime");
    reveal_strlit("bool");
    assert("int"@.len() != "string"@.len());
    assert("float"@ != "string"@ && "float"@ != "int"@) by {
        assert("float"@.len() != "string"@.len() && "float"@.len() != "int"@.len());
    }
    assert("date"@ != "string"@ && "date"@ != "int"@ && "date"@ != "float"@) by {
        assert("date"@[0] != "string"@[0] && "date"@[0] != "int"@[0] && "date"@[0] != "float"@[0]);
    }
    assert("datetime"@ != "string"@ && "datetime"@ != "int"@ && "datetime"@ != "float"@ && "datetime"@ != "date"@) by {
        assert("datetime"@.len() != "string"@.len() && "datetime"@.len() != "int"@.len());
        assert("datetime"@.len() != "float"@.len() && "datetime"@.len() != "date"@.len());
    }
    assert("bool"@ != "string"@ && "bool"@ != "int"@ && "bool"@ != "float"@ && "bool"@ != "date"@
        && "bool"@ != "datetime"@) by {
        assert("bool"@[0] != "string"@[0] && "bool"@[0] != "int"@[0] && "bool"@[0] != "float"@[0]);
        assert("bool"@[0] != "date"@[0] && "bool"@[0] != "datetime"@[0]);
    }
}

/// What the engine tells of a value that a script left in its scope.
#[derive(Debug)]
pub struct DynamicFacts {
    pub is_string: bool,
    pub is_float: bool,
    pub is_int: bool,
    pub is_timestamp: bool,
    pub is_bool: bool,
    pub text: String,
}

/// The data type that a script value is given: a string is a `date` or a
/// `datetime` when its text reads as one, else a `string`; then `float`,
/// `int`, `datetime` for timestamps, `bool`, and `string` for the rest.
pub open spec fn facts_data_type(f: DynamicFacts) -> Seq<char> {
    if f.is_string {
        if datetime_parses(f.text@, date_format()) {
            "date"@
        } else if datetime_parses(f.text@, datetime_format()) {
            "datetime"@
        } else {
            "string"@
        }
    } else if f.is_float {
        "float"@
    } else if f.is_int {
        "int"@
    } else if f.is_timestamp {
        "datetime"@
    } else if f.is_bool {
        "bool"@
    } else {
        "string"@
    }
}

/// A script string is typed `date` when it reads as `%Y-%m-%d`, else
/// `datetime` when it reads as `%Y-%m-%d %H:%M:%S %z`, and `string` only when
/// it reads as neither; any other value is typed `float`, `int`, `datetime`
/// (a timestamp), `bool` or `string`, in that order of precedence.
pub proof fn lemma_facts_data_type(f: DynamicFacts)
    ensures
        f.is_string && datetime_parses(f.text@, "%Y-%m-%d"@) ==> facts_data_type(f) == "date"@,
        f.is_string && !datetime_parses(f.text@, "%Y-%m-%d"@)
            && datetime_parses(f.text@, "%Y-%m-%d %H:%M:%S %z"@) ==> facts_data_type(f) == "datetime"@,
        f.is_string && !datetime_parses(f.text@, "%Y-%m-%d"@)
            && !datetime_parses(f.text@, "%Y-%m-%d %H:%M:%S %z"@) ==> facts_data_type(f) == "string"@,
        !f.is_string && f.is_float ==> facts_data_type(f) == "float"@,
        !f.is_string && !f.is_float && f.is_int ==> facts_data_type(f) == "int"@,
        !f.is_string && !f.is_float && !f.is_int && f.is_timestamp ==> facts_data_type(f) == "datetime"@,
        !f.is_string && !f.is_float && !f.is_int && !f.is_timestamp && f.is_bool
            ==> facts_data_type(f) == "bool"@,
        !f.is_string && !f.is_float && !f.is_int && !f.is_timestamp && !f.is_bool
            ==> facts_data_type(f) == "string"@,
{
}

/// Whether `id` names one of the data types that a script value can be
/// given: `string`, `date`, `datetime`, `float`, `int` or `bool`.
pub open spec fn script_data_type(id: Seq<char>) -> bool {
    ||| id == "string"@
    ||| id == "date"@
    ||| id == "datetime"@
    ||| id == "float"@
    ||| id == "int"@
    ||| id == "bool"@
}

/// Adds the variable `name` with the given value to a script scope.
pub fn push_engine_value(scope: &mut rhai::Scope, name: String, value: EngineValue)
    ensures
        scope_entries(*final(scope)) == scope_entries(*old(scope)).push((name@, scope_value_of(value@))),
{
    match value {
        EngineValue::Text(s) => scope_push_text(scope, name, s),
        EngineValue::Int(i) => scope_push_int(scope, name, i),
        EngineValue::FloatOfUnsigned(u) => scope_push_float_of_unsigned(scope, name, u),
        EngineValue::FloatOfSigned(i) => scope_push_float_of_signed(scope, name, i),
        EngineValue::FloatBits(b) => scope_push_float_bits(scope, name, b),
        EngineValue::Date(s) => scope_push_date(scope, name, s.as_str(), "%Y-%m-%d"),
        EngineValue::DateTime(s) => scope_push_datetime(scope, name, s.as_str(), "%Y-%m-%d %H:%M:%S %z"),
        EngineValue::Bool(b) => scope_push_bool(scope, name, b),
        EngineValue::Nothing => scope_push_nothing(scope, name),
    }
}

impl TaskVariable {
    /// A variable not stored yet (its id is the nil id).
    pub fn new(name: String, dt: DataType, value: JsonValue) -> (r: TaskVariable)
        ensures
            r.id == 0,
            r.name == name,
            r.data_type == dt,
            r.value == value,
    {
        TaskVariable { id: 0, name, data_type: dt, value }
    }

    /// Whether the variable can be handed to a script.
    pub fn is_engine_ready(&self) -> (r: bool)
        ensures
            r == engine_ready(*self),
    {
        let id = self.data_type.id.as_str();
        let text_typed = str_equal(id, "string") || str_equal(id, "date") || str_equal(id, "datetime");
        let bool_typed = str_equal(id, "bool");
        (!text_typed || self.value.is_string()) && (!bool_typed || self.value.as_bool().is_some())
    }

    /// The value that the variable gives a script.
    pub fn to_engine_value(&self) -> (r: EngineValue)
        requires
            engine_ready(*self),
        ensures
            r@ == engine_value_of(*self),
            self.data_type.id@ == "string"@ ==> r@ == EngineValueView::Text(self.value@->Str_0),
            self.data_type.id@ == "int"@ ==> r@ == EngineValueView::Int(
                match self.value@.as_i64() {
                    Some(i) => i,
                    None => 0,
                },
            ),
            self.data_type.id@ == "date"@ ==> r@ == EngineValueView::Date(self.value@->Str_0),
            self.data_type.id@ == "datetime"@ ==> r@ == EngineValueView::DateTime(self.value@->Str_0),
            self.data_type.id@ == "bool"@ ==> (self.value@ matches Json::Bool(b) && r@ == EngineValueView::Bool(b)),
    {
        proof {
            lemma_engine_value_by_type(*self);
        }
        let id = self.data_type.id.as_str();
        if str_equal(id, "string") {
            EngineValue::Text(self.value.as_str().unwrap().clone())
        } else if str_equal(id, "int") {
            EngineValue::Int(
                match self.value.as_i64() {
                    Some(i) => i,
                    None => 0,
                },
            )
        } else if str_equal(id, "float") {
            match &self.value {
                JsonValue::Number(JsonNumber::PosInt(u)) => EngineValue::FloatOfUnsigned(*u),
                JsonValue::Number(JsonNumber::NegInt(i)) => EngineValue::FloatOfSigned(*i),
                JsonValue::Number(JsonNumber::Float(b)) => EngineValue::FloatBits(*b),
                _ => EngineValue::FloatBits(0),
            }
        } else if str_equal(id, "date") {
            proof {
                reveal_strlit("%Y-%m-%d");
            }
            EngineValue::Date(self.value.as_str().unwrap().clone())
        } else if str_equal(id, "datetime") {
            EngineValue::DateTime(self.value.as_str().unwrap().clone())
        } else if str_equal(id, "bool") {
            EngineValue::Bool(self.value.as_bool().unwrap())
        } else {
            EngineValue::Nothing
        }
    }

    /// The variable that a script value becomes.
    pub fn from_engine_facts(name: String, facts: DynamicFacts) -> (r: TaskVariable)
        ensures
            r.id == 0,
            r.name == name,
            r.data_type.id@ == facts_data_type(facts),
            r.data_type.name@ == facts_data_type(facts),
            r.data_type.handler@ == Seq::<char>::empty(),
            r.value@ == Json::Str(facts.text@),
            facts.is_string && datetime_parses(facts.text@, "%Y-%m-%d"@) ==> r.data_type.id@ == "date"@,
            facts.is_string && !datetime_parses(facts.text@, "%Y-%m-%d"@)
                && datetime_parses(facts.text@, "%Y-%m-%d %H:%M:%S %z"@) ==> r.data_type.id@ == "datetime"@,
            facts.is_string && !datetime_parses(facts.text@, "%Y-%m-%d"@)
                && !datetime_parses(facts.text@, "%Y-%m-%d %H:%M:%S %z"@) ==> r.data_type.id@ == "string"@,
    {
        proof {
            lemma_facts_data_type(facts);
        }
        let dt_id: &str = if facts.is_string {
            if parses_as_datetime(facts.text.as_str(), "%Y-%m-%d") {
                "date"
            } else if parses_as_datetime(facts.text.as_str(), "%Y-%m-%d %H:%M:%S %z") {
                "datetime"
            } else {
                "string"
            }
        } else if facts.is_float {
            "float"
        } else if facts.is_int {
            "int"
        } else if facts.is_timestamp {
            "datetime"
        } else if facts.is_bool {
            "bool"
        } else {
            "string"
        };
        TaskVariable {
            id: 0,
            name,
            data_type: DataType { id: dt_id.to_string(), name: dt_id.to_string(), handler: String::new() },
            value: JsonValue::String(facts.text),
        }
    }

    /// The variable that the script value `value` becomes under `name`.
    pub fn from_dynamic(name: String, value: rhai::Dynamic) -> (r: TaskVariable)
        ensures
            r.id == 0,
            r.name == name,
            r.data_type.id@ == r.data_type.name@,
            script_data_type(r.data_type.id@),
            r.data_type.handler@ == Seq::<char>::empty(),
            r.value@ is Str,
    {
        let facts = DynamicFacts {
            is_string: dynamic_is_string(&value),
            is_float: dynamic_is_float(&value),
            is_int: dynamic_is_int(&value),
            is_timestamp: dynamic_is_timestamp(&value),
            is_bool: dynamic_is_bool(&value),
            text: dynamic_text(&value),
        };
        TaskVariable::from_engine_facts(name, facts)
    }
}

} // verus!
