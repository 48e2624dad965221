use json_fields::json::{JsonNumber, JsonValue};
use json_fields::schema_type::basic_type::BasicType;

/// Reads a JSON text with `serde_json` and writes the value in the library's type.
fn json(text: &str) -> JsonValue {
    let value: serde_json::Value = serde_json::from_str(text).unwrap();
    convert(&value)
}

fn convert(value: &serde_json::Value) -> JsonValue {
    match value {
        serde_json::Value::Null => JsonValue::Null,
        serde_json::Value::Bool(b) => JsonValue::Bool(*b),
        serde_json::Value::Number(n) => {
            if let Some(u) = n.as_u64() {
                JsonValue::Number(JsonNumber::from_u64(u))
            } else if let Some(i) = n.as_i64() {
                JsonValue::Number(JsonNumber::from_i64(i))
            } else {
                JsonValue::Number(JsonNumber::from_f64_bits(n.as_f64().unwrap().to_bits()).unwrap())
            }
        }
        serde_json::Value::String(s) => JsonValue::String(s.clone()),
        serde_json::Value::Array(items) => JsonValue::Array(items.iter().map(convert).collect()),
        serde_json::Value::Object(map) => {
            JsonValue::Object(map.iter().map(|(k, v)| (k.clone(), convert(v))).collect())
        }
    }
}

#[test]
fn any_type_is_validated_correctly() {
    assert!(BasicType::Any.validate(&json("null")).is_ok());
    assert!(BasicType::Any.validate(&json("\"\"")).is_ok());
    assert!(BasicType::Any.validate(&json("10")).is_ok());
    assert!(BasicType::Any.validate(&json("true")).is_ok());
    assert!(BasicType::Any.validate(&json("false")).is_ok());
    assert!(BasicType::Any.validate(&json("[]")).is_ok());
    assert!(BasicType::Any.validate(&json("{}")).is_ok());
}

#[test]
fn basic_null_type_is_validated_correctly() {
    assert!(BasicType::Null.validate(&json("null")).is_ok());

    assert!(BasicType::Null.validate(&json("\"\"")).is_err());
    assert!(BasicType::Null.validate(&json("10")).is_err());
    assert!(BasicType::Null.validate(&json("true")).is_err());
    assert!(BasicType::Null.validate(&json("false")).is_err());
    assert!(BasicType::Null.validate(&json("[]")).is_err());
    assert!(BasicType::Null.validate(&json("{}")).is_err());
}

#[test]
fn basic_string_type_is_validated_correctly() {
    assert!(BasicType::String.validate(&json("\"\"")).is_ok());
    assert!(BasicType::String
        .validate(&json("\"f1df9904-6f6b-4157-8a82-b1a566a50ec2\""))
        .is_ok());
    assert!(BasicType::String
        .validate(&json("\"alice@example.com\""))
        .is_ok());

    assert!(BasicType::String.validate(&json("null")).is_err());
    assert!(BasicType::String.validate(&json("true")).is_err());
    assert!(BasicType::String.validate(&json("false")).is_err());
    assert!(BasicType::String.validate(&json("10")).is_err());
    assert!(BasicType::String.validate(&json("[]")).is_err());
    assert!(BasicType::String.validate(&json("{}")).is_err());
}

#[test]
fn basic_number_type_is_validated_correctly() {
    assert!(BasicType::Number.validate(&json("10")).is_ok());

    assert!(BasicType::Number.validate(&json("null")).is_err());
    assert!(BasicType::Number.validate(&json("\"\"")).is_err());
    assert!(BasicType::Number.validate(&json("true")).is_err());
    assert!(BasicType::Number.validate(&json("false")).is_err());
    assert!(BasicType::Number.validate(&json("[]")).is_err());
    assert!(BasicType::Number.validate(&json("{}")).is_err());
}

#[test]
fn basic_object_type_is_validated_correctly() {
    assert!(BasicType::Object.validate(&json("{}")).is_ok());
    assert!(BasicType::Object
        .validate(&json("{ \"name\": \"Alice\" }"))
        .is_ok());
    assert!(BasicType::Object.validate(&json("{ \"age\": 10 }")).is_ok());

    assert!(BasicType::Object.validate(&json("null")).is_err());
    assert!(BasicType::Object.validate(&json("10")).is_err());
    assert!(BasicType::Object.validate(&json("\"\"")).is_err());
    assert!(BasicType::Object.validate(&json("true")).is_err());
    assert!(BasicType::Object.validate(&json("false")).is_err());
    assert!(BasicType::Object.validate(&json("[]")).is_err());
}

#[test]
fn basic_array_type_is_validated_correctly() {
    assert!(BasicType::Array.validate(&json("[]")).is_ok());
    assert!(BasicType::Array.validate(&json("[\"Alice\"]")).is_ok());
    assert!(BasicType::Array.validate(&json("[10]")).is_ok());

    assert!(BasicType::Array.validate(&json("null")).is_err());
    assert!(BasicType::Array.validate(&json("10")).is_err());
    assert!(BasicType::Array.validate(&json("\"\"")).is_err());
    assert!(BasicType::Array.validate(&json("true")).is_err());
    assert!(BasicType::Array.validate(&json("false")).is_err());
    assert!(BasicType::Array.validate(&json("{}")).is_err());
}

#[test]
fn basic_uuid_type_is_validated_correctly() {
    assert!(BasicType::Uuid
        .validate(&json("\"f1df9904-6f6b-4157-8a82-b1a566a50ec2\""))
        .is_ok());

    assert!(BasicType::Uuid.validate(&json("\"\"")).is_err());
    assert!(BasicType::Uuid.validate(&json("null")).is_err());
    assert!(BasicType::Uuid.validate(&json("true")).is_err());
    assert!(BasicType::Uuid.validate(&json("false")).is_err());
    assert!(BasicType::Uuid.validate(&json("10")).is_err());
    assert!(BasicType::Uuid.validate(&json("[]")).is_err());
    assert!(BasicType::Uuid.validate(&json("{}")).is_err());
}

#[test]
fn basic_email_type_is_validated_correctly() {
    assert!(BasicType::Email
        .validate(&json("\"alice@example.com\""))
        .is_ok());
    assert!(BasicType::Email
        .validate(&json("\"alice+alias@example.com\""))
        .is_ok());

    assert!(BasicType::Email
        .validate(&json("\"f1df9904-6f6b-4157-8a82-b1a566a50ec2\""))
        .is_err());
    assert!(BasicType::Email.validate(&json("\"\"")).is_err());
    assert!(BasicType::Email.validate(&json("null")).is_err());
    assert!(BasicType::Email.validate(&json("true")).is_err());
    assert!(BasicType::Email.validate(&json("false")).is_err());
    assert!(BasicType::Email.validate(&json("10")).is_err());
    assert!(BasicType::Email.validate(&json("[]")).is_err());
    assert!(BasicType::Email.validate(&json("{}")).is_err());
}

#[test]
fn positive_number_is_validated_correctly() {
    assert!(BasicType::PositiveNumber.validate(&json("\"\"")).is_err());
    assert!(BasicType::PositiveNumber.validate(&json("0")).is_ok());
    assert!(BasicType::PositiveNumber.validate(&json("1")).is_ok());
    assert!(BasicType::PositiveNumber.validate(&json("1.1")).is_ok());
    assert!(BasicType::PositiveNumber.validate(&json("-1")).is_err());
    assert!(BasicType::PositiveNumber.validate(&json("-1.1")).is_err());
}

#[test]
fn negative_number_is_validated_correctly() {
    assert!(BasicType::NegativeNumber.validate(&json("\"\"")).is_err());
    assert!(BasicType::NegativeNumber.validate(&json("0")).is_ok());
    assert!(BasicType::NegativeNumber.validate(&json("-1")).is_ok());
    assert!(BasicType::NegativeNumber.validate(&json("-1.1")).is_ok());
    assert!(BasicType::NegativeNumber.validate(&json("1")).is_err());
    assert!(BasicType::NegativeNumber.validate(&json("1.1")).is_err());
}

#[test]
fn u8_is_validated_correctly() {
    assert!(BasicType::U8.validate(&json("\"\"")).is_err());
    assert!(BasicType::U8.validate(&json("0")).is_ok());
    assert!(BasicType::U8.validate(&json("255")).is_ok());
    assert!(BasicType::U8.validate(&json("-1")).is_err());
    assert!(BasicType::U8.validate(&json("256")).is_err());
    assert!(BasicType::U8.validate(&json("1.1")).is_err());
}

#[test]
fn u16_is_validated_correctly() {
    assert!(BasicType::U16.validate(&json("\"\"")).is_err());
    assert!(BasicType::U16.validate(&json("0")).is_ok());
    assert!(BasicType::U16.validate(&json("65535")).is_ok());
    assert!(BasicType::U16.validate(&json("-1")).is_err());
    assert!(BasicType::U16.validate(&json("65536")).is_err());
    assert!(BasicType::U16.validate(&json("1.1")).is_err());
}

#[test]
fn u32_is_validated_correctly() {
    assert!(BasicType::U32.validate(&json("\"\"")).is_err());
    assert!(BasicType::U32.validate(&json("0")).is_ok());
    assert!(BasicType::U32.validate(&json("4294967295")).is_ok());
    assert!(BasicType::U32.validate(&json("-1")).is_err());
    assert!(BasicType::U32.validate(&json("4294967296")).is_err());
    assert!(BasicType::U32.validate(&json("1.1")).is_err());
}

#[test]
fn u64_is_validated_correctly() {
    assert!(BasicType::U64.validate(&json("\"\"")).is_err());
    assert!(BasicType::U64.validate(&json("0")).is_ok());
    assert!(BasicType::U64.validate(&json("18446744073709551615")).is_ok());
    assert!(BasicType::U64.validate(&json("-1")).is_err());
    assert!(BasicType::U64.validate(&json("1.1")).is_err());
}

#[test]
fn i8_is_validated_correctly() {
    assert!(BasicType::I8.validate(&json("\"\"")).is_err());
    assert!(BasicType::I8.validate(&json("0")).is_ok());
    assert!(BasicType::I8.validate(&json("127")).is_ok());
    assert!(BasicType::I8.validate(&json("-128")).is_ok());
    assert!(BasicType::I8.validate(&json("128")).is_err());
    assert!(BasicType::I8.validate(&json("-129")).is_err());
    assert!(BasicType::I8.validate(&json("1.1")).is_err());
}

#[test]
fn i16_is_validated_correctly() {
    assert!(BasicType::I16.validate(&json("\"\"")).is_err());
    assert!(BasicType::I16.validate(&json("0")).is_ok());
    assert!(BasicType::I16.validate(&json("32767")).is_ok());
    assert!(BasicType::I16.validate(&json("-32768")).is_ok());
    assert!(BasicType::I16.validate(&json("32768")).is_err());
    assert!(BasicType::I16.validate(&json("-32769")).is_err());
    assert!(BasicType::I16.validate(&json("1.1")).is_err());
}

#[test]
fn i32_is_validated_correctly() {
    assert!(BasicType::I32.validate(&json("\"\"")).is_err());
    assert!(BasicType::I32.validate(&json("0")).is_ok());
    assert!(BasicType::I32.validate(&json("2147483647")).is_ok());
    assert!(BasicType::I32.validate(&json("-2147483648")).is_ok());
    assert!(BasicType::I32.validate(&json("2147483648")).is_err());
    assert!(BasicType::I32.validate(&json("-2147483649")).is_err());
    assert!(BasicType::I32.validate(&json("1.1")).is_err());
}

#[test]
fn i64_is_validated_correctly() {
    assert!(BasicType::I64.validate(&json("\"\"")).is_err());
    assert!(BasicType::I64.validate(&json("0")).is_ok());
    assert!(BasicType::I64.validate(&json("9223372036854775807")).is_ok());
    assert!(BasicType::I64.validate(&json("-9223372036854775808")).is_ok());
    assert!(BasicType::I64.validate(&json("9223372036854775808")).is_err());
    assert!(BasicType::I64.validate(&json("-9223372036854775809")).is_err());
    assert!(BasicType::I64.validate(&json("1.1")).is_err());
}
