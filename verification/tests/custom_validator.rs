use std::str::FromStr;

use json_fields::errors::validation_error::ValidationError;
use json_fields::json::{JsonNumber, JsonValue};
use json_fields::traits::validator::{validate_each, validate_optional};
use json_fields::Validator;
use uuid::Uuid;

/// Reads a JSON text with `serde_json` and writes the value in the library's type.
fn json(text: &str) -> JsonValue {
    let value: serde_json::Value = serde_json::from_str(text).unwrap();
    convert(&value)
}

fn convert(value: &serde_json::Value) -> JsonValue {
    match value {
        serde_json::Value::Null => JsonValue::Null,
        serde_json::Value::Bool(b) => JsonValue::Bool(*b),
        serde_json::Value::Number(n) => {
            if let Some(u) = n.as_u64() {
                JsonValue::Number(JsonNumber::from_u64(u))
            } else if let Some(i) = n.as_i64() {
                JsonValue::Number(JsonNumber::from_i64(i))
            } else {
                JsonValue::Number(JsonNumber::from_f64_bits(n.as_f64().unwrap().to_bits()).unwrap())
            }
        }
        serde_json::Value::String(s) => JsonValue::String(s.clone()),
        serde_json::Value::Array(items) => JsonValue::Array(items.iter().map(convert).collect()),
        serde_json::Value::Object(map) => {
            JsonValue::Object(map.iter().map(|(k, v)| (k.clone(), convert(v))).collect())
        }
    }
}
struct UuidValidator;

impl Validator for UuidValidator {
    type E = ValidationError;

    fn validate(&self, value: &JsonValue) -> Result<(), ValidationError> {
        let JsonValue::String(string) = value else {
            return Err(ValidationError::new_custom("not a string".to_string()));
        };

        Uuid::from_str(string)
            .map_err(|_| ValidationError::new_custom("invalid uuid".to_string()))?;

        Ok(())
    }
}

struct ExactStringValidator(String);

impl Validator for ExactStringValidator {
    type E = ValidationError;

    fn validate(&self, value: &JsonValue) -> Result<(), ValidationError> {
        let JsonValue::String(string) = value else {
            return Err(ValidationError::new_custom("not a string".to_string()));
        };

        if string != &self.0 {
            return Err(ValidationError::new_custom("not a".to_string()));
        }

        Ok(())
    }
}

#[test]
fn custom_validator_can_be_used() {
    let incorrect_uuid = json("\"Hello world\"");
    let correct_uuid = json("\"550e8400-e29b-41d4-a716-446655440000\"");

    assert!(UuidValidator.validate(&incorrect_uuid).is_err());
    assert!(UuidValidator.validate(&correct_uuid).is_ok());
}

#[test]
fn custom_validator_with_config_can_be_used() {
    let validator = ExactStringValidator("a".to_string());

    let incorrect_value = json("\"b\"");
    let correct_value = json("\"a\"");

    assert!(validator.validate(&incorrect_value).is_err());
    assert!(validator.validate(&correct_value).is_ok());
}

#[test]
fn custom_validator_takes_part_in_the_checks_of_the_library() {
    let validator = ExactStringValidator("a".to_string());

    assert_eq!(validate_optional(&validator, &json("null")), Ok(()));
    assert_eq!(validate_optional(&validator, &json("\"a\"")), Ok(()));
    assert_eq!(
        validate_optional(&validator, &json("\"b\"")),
        Err(ValidationError::Custom("not a".to_string()))
    );
    assert_eq!(
        validate_each(&validator, &vec![json("\"a\""), json("1"), json("\"b\"")]),
        Err(ValidationError::Custom("not a string".to_string()))
    );
    assert_eq!(
        validate_each(&UuidValidator, &vec![json("\"550e8400-e29b-41d4-a716-446655440000\"")]),
        Ok(())
    );
}
