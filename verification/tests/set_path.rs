use json_fields::json::{JsonNumber, JsonValue};
use json_fields::migration::json_path::{JsonPath, JsonPathError};
use json_fields::migration::set_path::{SetPath, SetPathError};

/// Reads a JSON text with `serde_json` and writes the value in the library's type.
fn json(text: &str) -> JsonValue {
    let value: serde_json::Value = serde_json::from_str(text).unwrap();
    convert(&value)
}

fn convert(value: &serde_json::Value) -> JsonValue {
    match value {
        serde_json::Value::Null => JsonValue::Null,
        serde_json::Value::Bool(b) => JsonValue::Bool(*b),
        serde_json::Value::Number(n) => {
            if let Some(u) = n.as_u64() {
                JsonValue::Number(JsonNumber::from_u64(u))
            } else if let Some(i) = n.as_i64() {
                JsonValue::Number(JsonNumber::from_i64(i))
            } else {
                JsonValue::Number(JsonNumber::from_f64_bits(n.as_f64().unwrap().to_bits()).unwrap())
            }
        }
        serde_json::Value::String(s) => JsonValue::String(s.clone()),
        serde_json::Value::Array(items) => JsonValue::Array(items.iter().map(convert).collect()),
        serde_json::Value::Object(map) => {
            JsonValue::Object(map.iter().map(|(k, v)| (k.clone(), convert(v))).collect())
        }
    }
}

#[test]
fn root_can_be_replaced_by_value() {
    let mut target = json("\"String\"");

    let result = target.set_path(&JsonPath::from([]), json("10"));

    assert_eq!(result, Ok(()));
    assert_eq!(target, json("10"));
}

#[test]
fn value_is_set_on_object_root_correctly() {
    let mut target = json("{}");

    let result = target.set_path(&JsonPath::from(["a"]), json("10"));

    assert_eq!(result, Ok(()));
    assert_eq!(target, json("{ \"a\": 10 }"));
}

#[test]
fn value_is_set_on_nested_object_correctly() {
    let mut target = json("{ \"a\": {} }");

    let result = target.set_path(&JsonPath::from(["a", "b"]), json("10"));

    assert_eq!(result, Ok(()));
    assert_eq!(target, json("{ \"a\": { \"b\": 10 } }"));
}

#[test]
fn value_is_replaced_on_array_root_correctly() {
    let mut target = json("[ 5 ]");

    let result = target.set_path(&JsonPath::from(["0"]), json("10"));

    assert_eq!(result, Ok(()));
    assert_eq!(target, json("[10]"));
}

#[test]
fn value_is_replaced_on_nested_array_correctly() {
    let mut target = json("[ [ 2, 5 ] ]");

    let result = target.set_path(&JsonPath::from(["0", "1"]), json("10"));

    assert_eq!(result, Ok(()));
    assert_eq!(target, json("[[2, 10]]"));
}

#[test]
fn cannot_replace_value_on_array_that_does_not_exist() {
    let mut target = json("[ 5 ]");

    let result = target.set_path(&JsonPath::from(["1"]), json("10"));

    assert_eq!(result, Err(SetPathError::CannotReplaceMissingIndex));
    assert_eq!(target, json("[5]"));
}

#[test]
fn value_is_pushed_to_back_onto_array_correctly() {
    let mut target = json("[5]");

    let result = target.set_path(&JsonPath::from(["<"]), json("10"));

    assert_eq!(result, Ok(()));
    assert_eq!(target, json("[5, 10]"));
}

#[test]
fn value_is_pushed_to_front_onto_array_correctly() {
    let mut target = json("[5]");

    let result = target.set_path(&JsonPath::from([">"]), json("10"));

    assert_eq!(result, Ok(()));
    assert_eq!(target, json("[10, 5]"));
}

#[test]
fn value_under_an_existing_key_is_replaced_in_place() {
    let mut target = json("{ \"a\": 1, \"b\": 2 }");

    let result = target.set_path(&JsonPath::from(["a"]), json("10"));

    assert_eq!(result, Ok(()));
    assert_eq!(target, json("{ \"a\": 10, \"b\": 2 }"));
}

#[test]
fn nothing_is_set_where_the_way_to_the_place_is_missing() {
    let mut target = json("{ \"a\": [1, 2] }");

    let result = target.set_path(&JsonPath::from(["b", "c"]), json("10"));
    assert_eq!(
        result,
        Err(SetPathError::PathError(JsonPathError::KeyNotFound(
            "b".to_string()
        )))
    );
    assert_eq!(target, json("{ \"a\": [1, 2] }"));

    let result = target.set_path(&JsonPath::from(["a", "x"]), json("10"));
    assert_eq!(result, Err(SetPathError::NotAnIndex("x".to_string())));

    let result = target.set_path(&JsonPath::from(["a", "0", "x"]), json("10"));
    assert_eq!(result, Err(SetPathError::CannotSetOnANumber));
    assert_eq!(target, json("{ \"a\": [1, 2] }"));

    let result = target.set_path(&JsonPath::from(["a", "<2"]), json("10"));
    assert_eq!(result, Ok(()));
    assert_eq!(target, json("{ \"a\": [1, 2, 10] }"));

    let result = target.set_path(&JsonPath::from(["a", "<", "b"]), json("10"));
    assert_eq!(result, Err(SetPathError::CannotSetOnANumber));
}

#[test]
fn nothing_can_be_set_inside_a_value_without_children() {
    let path = JsonPath::from(["a"]);

    let mut target = json("null");
    assert_eq!(target.set_path(&path, json("1")), Err(SetPathError::CannotSetOnANullValue));
    assert_eq!(target, json("null"));

    let mut target = json("true");
    assert_eq!(target.set_path(&path, json("1")), Err(SetPathError::CannotSetOnABoolean));

    let mut target = json("7");
    assert_eq!(target.set_path(&path, json("1")), Err(SetPathError::CannotSetOnANumber));

    let mut target = json("\"text\"");
    assert_eq!(target.set_path(&path, json("1")), Err(SetPathError::CannotSetOnAString));
    assert_eq!(target, json("\"text\""));
}

#[test]
fn what_was_set_is_found_at_the_same_path() {
    let mut target = json("{ \"a\": [[1], { \"b\": [] }] }");
    for parts in [
        vec!["a", "0", "0"],
        vec!["a", "<", "b", "<"],
        vec!["a", ">", ">"],
        vec!["a", "1", "c"],
        vec!["new"],
        vec![],
    ] {
        let path = JsonPath::from(parts.iter().map(|part| part.to_string()).collect::<Vec<String>>());
        assert_eq!(target.set_path(&path, json("\"here\"")), Ok(()));
        assert_eq!(path.resolve(&target), Ok(&json("\"here\"")));
    }
}
