use json_fields::json::{JsonNumber, JsonValue};
use json_fields::migration::json_path::{JsonPath, JsonPathError};

/// Reads a JSON text with `serde_json` and writes the value in the library's type.
fn json(text: &str) -> JsonValue {
    let value: serde_json::Value = serde_json::from_str(text).unwrap();
    convert(&value)
}

fn convert(value: &serde_json::Value) -> JsonValue {
    match value {
        serde_json::Value::Null => JsonValue::Null,
        serde_json::Value::Bool(b) => JsonValue::Bool(*b),
        serde_json::Value::Number(n) => {
            if let Some(u) = n.as_u64() {
                JsonValue::Number(JsonNumber::from_u64(u))
            } else if let Some(i) = n.as_i64() {
                JsonValue::Number(JsonNumber::from_i64(i))
            } else {
                JsonValue::Number(JsonNumber::from_f64_bits(n.as_f64().unwrap().to_bits()).unwrap())
            }
        }
        serde_json::Value::String(s) => JsonValue::String(s.clone()),
        serde_json::Value::Array(items) => JsonValue::Array(items.iter().map(convert).collect()),
        serde_json::Value::Object(map) => {
            JsonValue::Object(map.iter().map(|(k, v)| (k.clone(), convert(v))).collect())
        }
    }
}

#[test]
fn json_path_single_path_of_object_is_resolved_correctly() {
    let value = json("{ \"a\": 10 }");

    let resolved_value = JsonPath::from_str("$.a")
        .unwrap()
        .resolve(&value);

    assert_eq!(resolved_value, Ok(&json("10")));
}

#[test]
fn json_path_deep_nested_object_path_is_resolved_correctly() {
    let value = json("{ \"a\": { \"b\": { \"c\": 10 } } }");

    let resolved_value = JsonPath::from_str("$.a.b.c")
        .unwrap()
        .resolve(&value);

    assert_eq!(resolved_value, Ok(&json("10")));
}

#[test]
fn json_path_invalid_key_returns_an_err() {
    let value = json("{ \"a\": 10 }");

    let resolved_value = JsonPath::from_str("$.b")
        .unwrap()
        .resolve(&value);

    assert_eq!(resolved_value, Err(JsonPathError::KeyNotFound("b".to_string())));
}

#[test]
fn json_path_single_path_of_array_is_resolved_correctly() {
    let value = json("[ 10 ]");

    let resolved_value = JsonPath::from_str("$.0")
        .unwrap()
        .resolve(&value);

    assert_eq!(resolved_value, Ok(&json("10")));
}

#[test]
fn json_path_invalid_index_returns_an_err() {
    let value = json("[ 10 ]");

    let resolved_value = JsonPath::from_str("$.abc")
        .unwrap()
        .resolve(&value);

    assert_eq!(resolved_value, Err(JsonPathError::NotAnIndex("abc".to_string())));
}

#[test]
fn json_path_missing_index_returns_an_err() {
    let value = json("[ 10 ]");

    let resolved_value = JsonPath::from_str("$.1")
        .unwrap()
        .resolve(&value);

    assert_eq!(resolved_value, Err(JsonPathError::IndexNotFound(1)));
}

#[test]
fn json_path_last_item_of_array_is_returned_correctly() {
    let value = json("[ 1, 2, 3 ]");

    let resolved_value = JsonPath::from_str("$.<")
        .unwrap()
        .resolve(&value);

    assert_eq!(resolved_value, Ok(&json("3")));
}

#[test]
fn json_path_missing_last_index_of_array_returns_error() {
    let value = json("[]");

    let resolved_value = JsonPath::from_str("$.<")
        .unwrap()
        .resolve(&value);

    assert_eq!(resolved_value, Err(JsonPathError::NoLastItem));
}

#[test]
fn json_path_specific_item_back_of_array_is_returned_correctly() {
    let value = json("[ 1, 2, 3 ]");

    let resolved_value = JsonPath::from_str("$.<3")
        .unwrap()
        .resolve(&value);

    assert_eq!(resolved_value, Ok(&json("1")));
}

#[test]
fn json_path_first_item_of_array_is_returned_correctly() {
    let value = json("[ 1, 2, 3 ]");

    let resolved_value = JsonPath::from_str("$.>")
        .unwrap()
        .resolve(&value);

    assert_eq!(resolved_value, Ok(&json("1")));
}

#[test]
fn json_path_specific_item_front_of_array_is_returned_correctly() {
    let value = json("[ 1, 2, 3 ]");

    let resolved_value = JsonPath::from_str("$.>3")
        .unwrap()
        .resolve(&value);

    assert_eq!(resolved_value, Ok(&json("3")));
}
