//! `rhai`: the script engine that runs flow scripts and route conditions.
use vstd::prelude::*;

verus! {

#[verifier::external_type_specification]
#[verifier::external_body]
pub struct ExEngine(rhai::Engine);

#[verifier::external_type_specification]
#[verifier::external_body]
pub struct ExScope<'a>(rhai::Scope<'a>);

#[verifier::external_type_specification]
#[verifier::external_body]
pub struct ExDynamic(rhai::Dynamic);

/// The kind of value that a variable of a script scope holds, with the value
/// itself where the library reads it back: a string, an `i64`, a float, the
/// result of reading a date or a date and time (the value or the parse
/// error), a boolean, or nothing.
pub enum ScopeValue {
    Text(Seq<char>),
    Int(i64),
    Float,
    Date,
    DateTime,
    Bool(bool),
    Nothing,
}

/// The variables of a `rhai::Scope`, oldest first, with their values.
pub uninterp spec fn scope_entries(scope: rhai::Scope) -> Seq<(Seq<char>, ScopeValue)>;

/// The names of the variables of a scope, oldest first.
pub open spec fn scope_names(scope: rhai::Scope) -> Seq<Seq<char>> {
    scope_entries(scope).map_values(|e: (Seq<char>, ScopeValue)| e.0)
}

/// `rhai::Engine::new()`: an engine with the standard packages.
#[verifier::external_body]
pub fn new_engine() -> (r: rhai::Engine) {
    rhai::Engine::new()
}

/// `rhai::Scope::new()`: a scope with no variables.
#[verifier::external_body]
pub fn new_scope<'a>() -> (r: rhai::Scope<'a>)
    ensures
        scope_entries(r) == Seq::<(Seq<char>, ScopeValue)>::empty(),
{
    rhai::Scope::new()
}

/// `Scope::push` of a string: adds the variable `name` holding `value`.
#[verifier::external_body]
pub fn scope_push_text(scope: &mut rhai::Scope, name: String, value: String)
    ensures
        scope_entries(*final(scope)) == scope_entries(*old(scope)).push((name@, ScopeValue::Text(value@))),
{
    scope.push(name, value);
}

/// `Scope::push` of an `i64`.
#[verifier::external_body]
pub fn scope_push_int(scope: &mut rhai::Scope, name: String, value: i64)
    ensures
        scope_entries(*final(scope)) == scope_entries(*old(scope)).push((name@, ScopeValue::Int(value))),
{
    scope.push(name, value);
}

/// `Scope::push` of the float that `value as rhai::FLOAT` gives.
#[verifier::external_body]
pub fn scope_push_float_of_unsigned(scope: &mut rhai::Scope, name: String, value: u64)
    ensures
        scope_entries(*final(scope)) == scope_entries(*old(scope)).push((name@, ScopeValue::Float)),
{
    scope.push(name, value as rhai::FLOAT);
}

/// `Scope::push` of the float that `value as rhai::FLOAT` gives.
#[verifier::external_body]
pub fn scope_push_float_of_signed(scope: &mut rhai::Scope, name: String, value: i64)
    ensures
        scope_entries(*final(scope)) == scope_entries(*old(scope)).push((name@, ScopeValue::Float)),
{
    scope.push(name, value as rhai::FLOAT);
}

/// `Scope::push` of the float whose IEEE-754 bit pattern is `bits`.
#[verifier::external_body]
pub fn scope_push_float_bits(scope: &mut rhai::Scope, name: String, bits: u64)
    ensures
        scope_entries(*final(scope)) == scope_entries(*old(scope)).push((name@, ScopeValue::Float)),
{
    scope.push(name, rhai::FLOAT::from_bits(bits));
}

/// `Scope::push` of what `chrono::NaiveDate::parse_from_str(text, format)`
/// returns, the date or the parse error.
#[verifier::external_body]
pub fn scope_push_date(scope: &mut rhai::Scope, name: String, text: &str, format: &str)
    ensures
        scope_entries(*final(scope)) == scope_entries(*old(scope)).push((name@, ScopeValue::Date)),
{
    scope.push(name, chrono::NaiveDate::parse_from_str(text, format));
}

/// `Scope::push` of what `chrono::DateTime::parse_from_str(text, format)`
/// returns, the date and time or the parse error.
#[verifier::external_body]
pub fn scope_push_datetime(scope: &mut rhai::Scope, name: String, text: &str, format: &str)
    ensures
        scope_entries(*final(scope)) == scope_entries(*old(scope)).push((name@, ScopeValue::DateTime)),
{
    scope.push(name, chrono::DateTime::parse_from_str(text, format));
}

/// `Scope::push` of a `bool`.
#[verifier::external_body]
pub fn scope_push_bool(scope: &mut rhai::Scope, name: String, value: bool)
    ensures
        scope_entries(*final(scope)) == scope_entries(*old(scope)).push((name@, ScopeValue::Bool(value))),
{
    scope.push(name, value);
}

/// `Scope::push` of `None::<String>`.
#[verifier::external_body]
pub fn scope_push_nothing(scope: &mut rhai::Scope, name: String)
    ensures
        scope_entries(*final(scope)) == scope_entries(*old(scope)).push((name@, ScopeValue::Nothing)),
{
    scope.push(name, None::<String>);
}

/// `Engine::eval_with_scope::<bool>`: runs the script with the scope's
/// variables and gives its `bool` value, or the error's text. Scripts may
/// read the clock and change the scope, so nothing is stated of the result
/// or of the scope afterwards.
#[verifier::external_body]
pub fn eval_bool(engine: &rhai::Engine, scope: &mut rhai::Scope, code: &str) -> (r: Result<bool, String>) {
    match engine.eval_with_scope::<bool>(scope, code) {
        Ok(b) => Ok(b),
        Err(err) => Err(err.to_string()),
    }
}

/// `Scope::get_value::<Dynamic>`: the value of the newest variable called
/// `name`, present exactly when the scope has such a variable.
#[verifier::external_body]
pub fn scope_get(scope: &rhai::Scope, name: &str) -> (r: Option<rhai::Dynamic>)
    ensures
        r is Some <==> scope_names(*scope).contains(name@),
{
    scope.get_value::<rhai::Dynamic>(name)
}

/// `Dynamic::is_string`. Nothing is stated of an opaque value.
#[verifier::external_body]
pub fn dynamic_is_string(value: &rhai::Dynamic) -> (r: bool) {
    value.is_string()
}

/// `Dynamic::is_float`. Nothing is stated of an opaque value.
#[verifier::external_body]
pub fn dynamic_is_float(value: &rhai::Dynamic) -> (r: bool) {
    value.is_float()
}

/// `Dynamic::is_int`. Nothing is stated of an opaque value.
#[verifier::external_body]
pub fn dynamic_is_int(value: &rhai::Dynamic) -> (r: bool) {
    value.is_int()
}

/// `Dynamic::is_timestamp`. Nothing is stated of an opaque value.
#[verifier::external_body]
pub fn dynamic_is_timestamp(value: &rhai::Dynamic) -> (r: bool) {
    value.is_timestamp()
}

/// `Dynamic::is_bool`. Nothing is stated of an opaque value.
#[verifier::external_body]
pub fn dynamic_is_bool(value: &rhai::Dynamic) -> (r: bool) {
    value.is_bool()
}

/// `Dynamic`'s `Display` text. Nothing is stated of an opaque value.
#[verifier::external_body]
pub fn dynamic_text(value: &rhai::Dynamic) -> (r: String) {
    value.to_string()
}

} // verus!
