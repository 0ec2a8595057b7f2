use rs_commons::adapters::models::common_error::ErrorDefinition;
use rs_commons::db::services::DbServiceError;
use rs_commons::json::{str_equal, JsonNumber, JsonValue};
use rs_commons::registry::Registry;
use rs_commons::debug_text::{error_debug_string, json_debug_string, nat_string, repo_error_debug_string, service_error_debug_string};
use rs_commons::db::repos::DbRepoError;
use serde_json::Value;

fn to_serde(v: &JsonValue) -> Value {
    match v {
        JsonValue::Null => Value::Null,
        JsonValue::Bool(b) => Value::Bool(*b),
        JsonValue::Number(JsonNumber::PosInt(u)) => Value::from(*u),
        JsonValue::Number(JsonNumber::NegInt(i)) => Value::from(*i),
        JsonValue::Number(JsonNumber::Float(bits)) => Value::from(f64::from_bits(*bits)),
        JsonValue::String(s) => Value::String(s.clone()),
        JsonValue::Array(items) => Value::Array(items.iter().map(to_serde).collect()),
        JsonValue::Object(members) => {
            let mut m = serde_json::Map::new();
            for (k, v) in members {
                m.insert(k.clone(), to_serde(v));
            }
            Value::Object(m)
        }
    }
}

#[test]
fn error_empty_has_description_only() {
    let e = ErrorDefinition::empty("Not here".to_string());
    assert_eq!(e.description, "Not here");
    assert!(e.location.is_none());
    assert_eq!(to_serde(&e.value), Value::Null);
    assert_eq!(to_serde(&e.reason), serde_json::from_str::<Value>("{}").unwrap());
}

#[test]
fn error_with_error_wraps_text() {
    let e = ErrorDefinition::with_error("Couldn't commit transaction", "boom".to_string());
    assert_eq!(e.description, "Couldn't commit transaction");
    assert_eq!(to_serde(&e.reason), serde_json::from_str::<Value>(r#"{"error":"boom"}"#).unwrap());
}

#[test]
fn error_new_keeps_location_and_value() {
    let e = ErrorDefinition::new("Bad".to_string(), "here".to_string(), JsonValue::Number(JsonNumber::PosInt(7)));
    assert_eq!(e.location.as_deref(), Some("here"));
    assert_eq!(to_serde(&e.value), Value::from(7u64));
    assert_eq!(to_serde(&e.reason), serde_json::from_str::<Value>("{}").unwrap());
}

#[test]
fn error_as_json_has_four_members() {
    let e = ErrorDefinition::with_reason("Args that are not found".to_string(), JsonValue::single_member("arguments", JsonValue::string_array(vec!["a".to_string()])));
    let j = to_serde(&e.as_json());
    let expected: Value = serde_json::from_str(
        r#"{"description":"Args that are not found","location":null,"value":null,"reason":{"arguments":["a"]}}"#,
    )
    .unwrap();
    assert_eq!(j, expected);
}

#[test]
fn error_from_db_service_errors() {
    let e = ErrorDefinition::from_db(&DbServiceError::NotFound);
    assert_eq!(e.description, "Not found");
    assert_eq!(to_serde(&e.reason), serde_json::from_str::<Value>("{}").unwrap());
    let e = ErrorDefinition::from_db(&DbServiceError::QueryError("no table".to_string()));
    assert_eq!(e.description, "DbService error");
    assert_eq!(to_serde(&e.reason), serde_json::from_str::<Value>(r#"{"error":"no table"}"#).unwrap());
}

#[test]
fn json_readers() {
    let obj = JsonValue::Object(vec![
        ("a".to_string(), JsonValue::Number(JsonNumber::NegInt(-3))),
        ("b".to_string(), JsonValue::String("x".to_string())),
        ("a".to_string(), JsonValue::Bool(true)),
    ]);
    assert!(obj.is_object());
    assert_eq!(obj.get("a").and_then(|v| v.as_i64()), Some(-3));
    assert_eq!(obj.get("b").and_then(|v| v.as_str()).map(|s| s.as_str()), Some("x"));
    assert!(obj.get("c").is_none());
    assert!(JsonValue::Number(JsonNumber::PosInt(u64::MAX)).as_i64().is_none());
    assert!(!JsonValue::Number(JsonNumber::PosInt(u64::MAX)).is_i64());
    assert!(JsonValue::Number(JsonNumber::Float(1.5f64.to_bits())).is_f64());
    assert!(JsonValue::Number(JsonNumber::Float(1.5f64.to_bits())).is_number());
    assert_eq!(JsonValue::Bool(false).as_bool(), Some(false));
    assert!(JsonValue::text("t").is_string());
}

#[test]
fn json_deep_copy_and_clone_are_equal() {
    let v = JsonValue::Array(vec![JsonValue::Null, JsonValue::single_member("k", JsonValue::text("v"))]);
    assert_eq!(to_serde(&v.deep_copy()), to_serde(&v));
    assert_eq!(to_serde(&v.clone()), to_serde(&v));
}

#[test]
fn str_equal_compares_texts() {
    assert!(str_equal("abc", "abc"));
    assert!(!str_equal("abc", "abd"));
    assert!(!str_equal("ab", "abc"));
}

#[test]
fn registry_insert_replaces() {
    let mut r: Registry<u32> = Registry::new();
    assert_eq!(r.get("x"), None);
    r.insert("x".to_string(), 1);
    r.insert("y".to_string(), 2);
    r.insert("x".to_string(), 3);
    assert_eq!(r.get("x"), Some(3));
    assert_eq!(r.get("y"), Some(2));
    assert_eq!(r.get("z"), None);
}

#[test]
fn debug_texts_follow_serde_json() {
    let v = JsonValue::Object(vec![
        ("zeta".to_string(), JsonValue::Number(JsonNumber::NegInt(-12))),
        ("alpha".to_string(), JsonValue::Array(vec![JsonValue::Bool(true), JsonValue::Null])),
        ("mid".to_string(), JsonValue::String("a\"b".to_string())),
        ("alpha".to_string(), JsonValue::Number(JsonNumber::PosInt(5))),
    ]);
    assert_eq!(
        json_debug_string(&v),
        r#"Object {"alpha": Number(5), "mid": String("a\"b"), "zeta": Number(-12)}"#
    );
    let serde: Value = serde_json::from_str(r#"{"zeta": -12, "mid": "a\"b", "alpha": [true, null]}"#).unwrap();
    let mine = JsonValue::Object(vec![
        ("zeta".to_string(), JsonValue::Number(JsonNumber::NegInt(-12))),
        ("mid".to_string(), JsonValue::String("a\"b".to_string())),
        ("alpha".to_string(), JsonValue::Array(vec![JsonValue::Bool(true), JsonValue::Null])),
    ]);
    assert_eq!(json_debug_string(&mine), format!("{:?}", serde));
    assert_eq!(json_debug_string(&JsonValue::Array(vec![])), "Array []");
    assert_eq!(nat_string(0), "0");
    assert_eq!(nat_string(u64::MAX), u64::MAX.to_string());
    assert_eq!(json_debug_string(&JsonValue::Number(JsonNumber::NegInt(i64::MIN))), format!("Number({})", i64::MIN));
}

#[test]
fn error_debug_texts() {
    let e = ErrorDefinition::new("d".to_string(), "here".to_string(), JsonValue::single_member("error", JsonValue::text("x")));
    assert_eq!(
        error_debug_string(&e),
        r#"ErrorDefinition { description: "d", location: Some("here"), value: Object {"error": String("x")}, reason: Object {} }"#
    );
    assert_eq!(service_error_debug_string(&DbServiceError::NotFound), "NotFound");
    assert_eq!(service_error_debug_string(&DbServiceError::QueryError("q\n".to_string())), r#"QueryError("q\n")"#);
    assert_eq!(repo_error_debug_string(&DbRepoError::QueryError("e".to_string())), r#"QueryError("e")"#);
}
