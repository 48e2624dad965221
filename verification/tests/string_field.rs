use json_fields::errors::validation_error::ValidationError;
use json_fields::field::string_field::StringField;
use json_fields::json::{JsonNumber, JsonValue};
use json_fields::Validator;

/// Reads a JSON text with `serde_json` and writes the value in the library's type.
fn json(text: &str) -> JsonValue {
    let value: serde_json::Value = serde_json::from_str(text).unwrap();
    convert(&value)
}

fn convert(value: &serde_json::Value) -> JsonValue {
    match value {
        serde_json::Value::Null => JsonValue::Null,
        serde_json::Value::Bool(b) => JsonValue::Bool(*b),
        serde_json::Value::Number(n) => {
            if let Some(u) = n.as_u64() {
                JsonValue::Number(JsonNumber::from_u64(u))
            } else if let Some(i) = n.as_i64() {
                JsonValue::Number(JsonNumber::from_i64(i))
            } else {
                JsonValue::Number(JsonNumber::from_f64_bits(n.as_f64().unwrap().to_bits()).unwrap())
            }
        }
        serde_json::Value::String(s) => JsonValue::String(s.clone()),
        serde_json::Value::Array(items) => JsonValue::Array(items.iter().map(convert).collect()),
        serde_json::Value::Object(map) => {
            JsonValue::Object(map.iter().map(|(k, v)| (k.clone(), convert(v))).collect())
        }
    }
}
#[test]
fn filled_check_is_checked_correctly() {
    let string_field = StringField {
        require_filled: Some(true),
        ..StringField::default()
    };

    let success = string_field.validate(&json("\"abc\""));
    let failure = string_field.validate(&json("\"\""));

    assert!(success.is_ok());
    assert!(matches!(failure, Err(ValidationError::StringNotFilled)));
}

#[test]
fn min_length_check_is_checked_correctly() {
    let string_field = StringField {
        min_length: Some(3),
        ..StringField::default()
    };

    let success = string_field.validate(&json("\"abc\""));
    assert!(success.is_ok());

    let success = string_field.validate(&json("\"abcdef\""));
    assert!(success.is_ok());

    let failure = string_field.validate(&json("\"ab\""));

    assert!(matches!(
        failure,
        Err(ValidationError::StringNotMinLength(3, 2))
    ));
}

#[test]
fn max_length_check_is_checked_correctly() {
    let string_field = StringField {
        max_length: Some(6),
        ..StringField::default()
    };

    let success = string_field.validate(&json("\"abc\""));
    assert!(success.is_ok());

    let success = string_field.validate(&json("\"abcdef\""));
    assert!(success.is_ok());

    let failure = string_field.validate(&json("\"abcdefg\""));

    assert!(matches!(
        failure,
        Err(ValidationError::StringExceedsMaxLength(6, 7))
    ));
}

#[test]
fn string_field_accepts_every_string_by_default() {
    let string_field = StringField::default();

    assert_eq!(string_field.validate(&json("\"\"")), Ok(()));
    assert_eq!(string_field.validate(&json("10")), Err(ValidationError::NotAString));
    assert_eq!(
        StringField { require_filled: Some(false), min_length: Some(2), max_length: Some(1) }
            .validate(&json("\"\"")),
        Err(ValidationError::StringNotMinLength(2, 0))
    );
    assert_eq!(
        ValidationError::new_custom("not a".to_string()),
        ValidationError::Custom("not a".to_string())
    );
}

#[test]
fn string_field_is_a_validator_like_any_other() {
    fn check<V: Validator>(validator: &V, value: &JsonValue) -> bool {
        validator.validate(value).is_ok()
    }

    let string_field = StringField { min_length: Some(2), ..StringField::default() };
    assert!(check(&string_field, &json("\"ab\"")));
    assert!(!check(&string_field, &json("\"a\"")));
}
