use json_fields::json::{JsonNumber, JsonValue};
use json_fields::migration::json_path::{JsonPath, JsonPathError};
use json_fields::migration::operation::Operation;
use json_fields::migration::operation_kind::value_source::{ValueSource, ValueSourceError};
use json_fields::migration::operation_kind::{OperationError, OperationKind};
use json_fields::migration::set_path::SetPathError;

/// Reads a JSON text with `serde_json` and writes the value in the library's type.
fn json(text: &str) -> JsonValue {
    let value: serde_json::Value = serde_json::from_str(text).unwrap();
    convert(&value)
}

fn convert(value: &serde_json::Value) -> JsonValue {
    match value {
        serde_json::Value::Null => JsonValue::Null,
        serde_json::Value::Bool(b) => JsonValue::Bool(*b),
        serde_json::Value::Number(n) => {
            if let Some(u) = n.as_u64() {
                JsonValue::Number(JsonNumber::from_u64(u))
            } else if let Some(i) = n.as_i64() {
                JsonValue::Number(JsonNumber::from_i64(i))
            } else {
                JsonValue::Number(JsonNumber::from_f64_bits(n.as_f64().unwrap().to_bits()).unwrap())
            }
        }
        serde_json::Value::String(s) => JsonValue::String(s.clone()),
        serde_json::Value::Array(items) => JsonValue::Array(items.iter().map(convert).collect()),
        serde_json::Value::Object(map) => {
            JsonValue::Object(map.iter().map(|(k, v)| (k.clone(), convert(v))).collect())
        }
    }
}
#[test]
fn delete_removes_a_member_an_item_or_the_root() {
    let mut value = json("{ \"a\": [1, 2, 3], \"b\": true }");

    assert_eq!(OperationKind::Delete.apply(&JsonPath::from(["a", "1"]), &mut value), Ok(()));
    assert_eq!(value, json("{ \"a\": [1, 3], \"b\": true }"));

    assert_eq!(OperationKind::Delete.apply(&JsonPath::from(["b"]), &mut value), Ok(()));
    assert_eq!(value, json("{ \"a\": [1, 3] }"));

    assert_eq!(OperationKind::Delete.apply(&JsonPath::from(["missing"]), &mut value), Ok(()));
    assert_eq!(value, json("{ \"a\": [1, 3] }"));

    assert_eq!(OperationKind::Delete.apply(&JsonPath::from([]), &mut value), Ok(()));
    assert_eq!(value, JsonValue::Null);
}

#[test]
fn delete_says_why_nothing_was_removed() {
    let mut value = json("{ \"a\": [1, 2, 3], \"b\": true }");

    assert_eq!(
        OperationKind::Delete.apply(&JsonPath::from(["a", "x"]), &mut value),
        Err(OperationError::NotAnIndex("x".to_string()))
    );
    assert_eq!(
        OperationKind::Delete.apply(&JsonPath::from(["a", "3"]), &mut value),
        Err(OperationError::PathError(JsonPathError::IndexNotFound(3)))
    );
    assert_eq!(
        OperationKind::Delete.apply(&JsonPath::from(["b", "c"]), &mut value),
        Err(OperationError::CannotDeleteOn(json("true")))
    );
    assert_eq!(
        OperationKind::Delete.apply(&JsonPath::from(["c", "d", "e"]), &mut value),
        Err(OperationError::PathError(JsonPathError::KeyNotFound(
            "c".to_string()
        )))
    );
    assert_eq!(value, json("{ \"a\": [1, 2, 3], \"b\": true }"));
}

#[test]
fn copy_keeps_the_value_and_rename_moves_it() {
    let mut value = json("{ \"a\": { \"x\": 1 } }");

    let copy = OperationKind::Copy {
        new_path: JsonPath::from(["b"]),
    };
    assert_eq!(copy.apply(&JsonPath::from(["a"]), &mut value), Ok(()));
    assert_eq!(value, json("{ \"a\": { \"x\": 1 }, \"b\": { \"x\": 1 } }"));

    let rename = OperationKind::Rename {
        new_path: JsonPath::from(["b", "y"]),
    };
    assert_eq!(rename.apply(&JsonPath::from(["a", "x"]), &mut value), Ok(()));
    assert_eq!(value, json("{ \"a\": {}, \"b\": { \"x\": 1, \"y\": 1 } }"));

    assert_eq!(
        copy.apply(&JsonPath::from(["nowhere"]), &mut value),
        Err(OperationError::PathError(JsonPathError::KeyNotFound(
            "nowhere".to_string()
        )))
    );
    let into_a_number = OperationKind::Copy {
        new_path: JsonPath::from(["b", "x", "z"]),
    };
    assert_eq!(
        into_a_number.apply(&JsonPath::from(["a"]), &mut value),
        Err(OperationError::SetError(SetPathError::CannotSetOnANumber))
    );
    assert_eq!(value, json("{ \"a\": {}, \"b\": { \"x\": 1, \"y\": 1 } }"));
}

#[test]
fn set_puts_a_value_or_what_a_source_gives() {
    let mut value = json("{ \"first\": \"Ada\", \"last\": \"Lovelace\", \"tags\": [] }");

    let set = OperationKind::set_value(json("10"));
    assert_eq!(set.apply(&JsonPath::from(["tags", "<"]), &mut value), Ok(()));
    assert_eq!(
        value,
        json("{ \"first\": \"Ada\", \"last\": \"Lovelace\", \"tags\": [10] }")
    );

    let source = ValueSource::Object(vec![
        (
            "names".to_string(),
            ValueSource::Array(vec![
                ValueSource::Path(JsonPath::from(["first"])),
                ValueSource::Path(JsonPath::from(["last"])),
            ]),
        ),
        ("tag".to_string(), ValueSource::Path(JsonPath::from(["tags", ">"]))),
    ]);
    assert_eq!(
        source.resolve(&value),
        Ok(json("{ \"names\": [\"Ada\", \"Lovelace\"], \"tag\": 10 }"))
    );

    let operation = Operation::new(JsonPath::from(["who"]), OperationKind::set_source(source));
    assert_eq!(operation.apply(&mut value), Ok(()));
    assert_eq!(
        value,
        json("{ \"first\": \"Ada\", \"last\": \"Lovelace\", \"tags\": [10], \"who\": { \"names\": [\"Ada\", \"Lovelace\"], \"tag\": 10 } }")
    );

    let missing = ValueSource::Array(vec![
        ValueSource::Path(JsonPath::from(["first"])),
        ValueSource::Path(JsonPath::from(["middle"])),
        ValueSource::Path(JsonPath::from(["tags", "7"])),
    ]);
    assert_eq!(
        missing.resolve(&value),
        Err(ValueSourceError::PathError(JsonPathError::KeyNotFound(
            "middle".to_string()
        )))
    );
    assert_eq!(
        OperationKind::set_source(missing).apply(&JsonPath::from(["x"]), &mut value),
        Err(OperationError::SourceError(ValueSourceError::PathError(
            JsonPathError::KeyNotFound("middle".to_string())
        )))
    );
}

#[test]
fn set_with_value_and_source_keeps_the_first_step_when_the_second_fails() {
    let mut value = json("{ \"a\": 1 }");
    let both = OperationKind::Assign {
        value: Some(json("2")),
        source: Some(ValueSource::Path(JsonPath::from(["missing"]))),
    };

    assert_eq!(
        both.apply(&JsonPath::from(["a"]), &mut value),
        Err(OperationError::SourceError(ValueSourceError::PathError(
            JsonPathError::KeyNotFound("missing".to_string())
        )))
    );
    assert_eq!(value, json("{ \"a\": 2 }"));
}
