use json_fields::json::{JsonNumber, JsonValue};
use json_fields::migration::json_path::{JsonPath, JsonPathError};
use json_fields::migration::resolve_path::{resolve_path, resolve_path_mut, PathResolveError};

/// Reads a JSON text with `serde_json` and writes the value in the library's type.
fn json(text: &str) -> JsonValue {
    let value: serde_json::Value = serde_json::from_str(text).unwrap();
    convert(&value)
}

fn convert(value: &serde_json::Value) -> JsonValue {
    match value {
        serde_json::Value::Null => JsonValue::Null,
        serde_json::Value::Bool(b) => JsonValue::Bool(*b),
        serde_json::Value::Number(n) => {
            if let Some(u) = n.as_u64() {
                JsonValue::Number(JsonNumber::from_u64(u))
            } else if let Some(i) = n.as_i64() {
                JsonValue::Number(JsonNumber::from_i64(i))
            } else {
                JsonValue::Number(JsonNumber::from_f64_bits(n.as_f64().unwrap().to_bits()).unwrap())
            }
        }
        serde_json::Value::String(s) => JsonValue::String(s.clone()),
        serde_json::Value::Array(items) => JsonValue::Array(items.iter().map(convert).collect()),
        serde_json::Value::Object(map) => {
            JsonValue::Object(map.iter().map(|(k, v)| (k.clone(), convert(v))).collect())
        }
    }
}

#[test]
fn root_needs_to_be_set() {
    // Fail
    assert!(resolve_path("", &json("null")).is_err());
    assert!(resolve_path("dqed", &json("null")).is_err());
    assert!(resolve_path(".", &json("null")).is_err());

    // Succeed
    assert_eq!(resolve_path("$", &json("null")), Ok(&json("null")));
}

#[test]
fn resolve_path_single_path_of_object_is_resolved_correctly() {
    let value = json("{ \"a\": 10 }");

    let resolved_value = resolve_path("$.a", &value);

    assert_eq!(resolved_value, Ok(&json("10")));
}

#[test]
fn resolve_path_deep_nested_object_path_is_resolved_correctly() {
    let value = json("{ \"a\": { \"b\": { \"c\": 10 } } }");

    let resolved_value = resolve_path("$.a.b.c", &value);

    assert_eq!(resolved_value, Ok(&json("10")));
}

#[test]
fn resolve_path_invalid_key_returns_an_err() {
    let value = json("{ \"a\": 10 }");

    let resolved_value = resolve_path("$.b", &value);

    assert_eq!(resolved_value, Err(PathResolveError::KeyNotFound("b".to_string())));
}

#[test]
fn resolve_path_single_path_of_array_is_resolved_correctly() {
    let value = json("[ 10 ]");

    let resolved_value = resolve_path("$.0", &value);

    assert_eq!(resolved_value, Ok(&json("10")));
}

#[test]
fn resolve_path_invalid_index_returns_an_err() {
    let value = json("[ 10 ]");

    let resolved_value = resolve_path("$.abc", &value);

    assert_eq!(resolved_value, Err(PathResolveError::NotAnIndex("abc".to_string())));
}

#[test]
fn resolve_path_missing_index_returns_an_err() {
    let value = json("[ 10 ]");

    let resolved_value = resolve_path("$.1", &value);

    assert_eq!(resolved_value, Err(PathResolveError::IndexNotFound(1)));
}

#[test]
fn resolve_path_last_item_of_array_is_returned_correctly() {
    let value = json("[ 1, 2, 3 ]");

    let resolved_value = resolve_path("$.<", &value);

    assert_eq!(resolved_value, Ok(&json("3")));
}

#[test]
fn resolve_path_missing_last_index_of_array_returns_error() {
    let value = json("[]");

    let resolved_value = resolve_path("$.<", &value);

    assert_eq!(resolved_value, Err(PathResolveError::NoLastItem));
}

#[test]
fn resolve_path_specific_item_back_of_array_is_returned_correctly() {
    let value = json("[ 1, 2, 3 ]");

    let resolved_value = resolve_path("$.<3", &value);

    assert_eq!(resolved_value, Ok(&json("1")));
}

#[test]
fn resolve_path_first_item_of_array_is_returned_correctly() {
    let value = json("[ 1, 2, 3 ]");

    let resolved_value = resolve_path("$.>", &value);

    assert_eq!(resolved_value, Ok(&json("1")));
}

#[test]
fn resolve_path_specific_item_front_of_array_is_returned_correctly() {
    let value = json("[ 1, 2, 3 ]");

    let resolved_value = resolve_path("$.>3", &value);

    assert_eq!(resolved_value, Ok(&json("3")));
}

#[test]
fn a_place_can_be_changed_through_the_path_to_it() {
    let mut value = json("{ \"a\": [1, { \"b\": 2 }] }");

    *resolve_path_mut("$.a.<.b", &mut value).unwrap() = json("3");
    assert_eq!(value, json("{ \"a\": [1, { \"b\": 3 }] }"));

    *JsonPath::from(["a", ">"]).resolve_mut(&mut value).unwrap() = json("null");
    assert_eq!(value, json("{ \"a\": [null, { \"b\": 3 }] }"));

    *JsonPath::new().resolve_mut(&mut value).unwrap() = json("[]");
    assert_eq!(value, json("[]"));

    assert_eq!(
        resolve_path_mut("$.0", &mut value),
        Err(PathResolveError::IndexNotFound(0))
    );
    assert_eq!(resolve_path_mut("a", &mut value), Err(PathResolveError::NoRoot));
    assert_eq!(
        JsonPath::from(["<0"]).resolve_mut(&mut value),
        Err(JsonPathError::NoLastItem)
    );
    assert_eq!(value, json("[]"));
}

#[test]
fn marks_count_from_the_ends_of_an_array() {
    let value = json("[1, 2, 3]");

    assert_eq!(resolve_path("$.<2", &value), Ok(&json("2")));
    assert_eq!(resolve_path("$.>2", &value), Ok(&json("2")));
    assert_eq!(resolve_path("$.<<3", &value), Ok(&json("1")));
    assert_eq!(resolve_path("$.<x", &value), Ok(&json("3")));
    assert_eq!(resolve_path("$.>+1", &value), Ok(&json("1")));
    assert_eq!(resolve_path("$.+2", &value), Ok(&json("3")));
    assert_eq!(resolve_path("$.002", &value), Ok(&json("3")));
    assert_eq!(resolve_path("$.<4", &value), Err(PathResolveError::NoLastItem));
    assert_eq!(resolve_path("$.<0", &value), Err(PathResolveError::NoLastItem));
    assert_eq!(resolve_path("$.>4", &value), Err(PathResolveError::NoFirstItem));
    assert_eq!(resolve_path("$.>0", &value), Err(PathResolveError::NoFirstItem));
    assert_eq!(
        resolve_path("$.-1", &value),
        Err(PathResolveError::NotAnIndex("-1".to_string()))
    );
    assert_eq!(
        resolve_path("$.", &value),
        Err(PathResolveError::NotAnIndex("".to_string()))
    );
    assert_eq!(
        resolve_path("$.99999999999999999999999999", &value),
        Err(PathResolveError::NotAnIndex("99999999999999999999999999".to_string()))
    );
    assert_eq!(
        resolve_path("$.0.a", &value),
        Err(PathResolveError::CannotMatchOnANumber)
    );
    assert_eq!(
        resolve_path("$.a", &json("\"text\"")),
        Err(PathResolveError::CannotMatchOnAString)
    );
    assert_eq!(
        resolve_path("$.a", &json("true")),
        Err(PathResolveError::CannotMatchOnABoolean)
    );
    assert_eq!(
        resolve_path("$.a", &json("null")),
        Err(PathResolveError::CannotMatchOnANullValue)
    );
}
