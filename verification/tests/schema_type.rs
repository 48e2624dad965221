use json_fields::json::{JsonNumber, JsonValue};
use json_fields::schema::SchemaValidationError;
use json_fields::schema_type::advanced_type::advanced_string_type::AdvancedStringType;
use json_fields::schema_type::advanced_type::any_of_type::AnyOfType;
use json_fields::schema_type::advanced_type::object_type::ObjectTypeError;
use json_fields::schema_type::advanced_type::optional_type::OptionalType;
use json_fields::schema_type::advanced_type::tuple_type::TupleType;
use json_fields::schema_type::advanced_type::{AdvancedType, AdvancedTypeValidationError};
use json_fields::schema_type::basic_type::BasicType;
use json_fields::schema_type::field::Field;
use json_fields::schema_type::literal::parse_schema;
use json_fields::schema_type::{SchemaType, SchemaTypeValidationError};

/// Reads a JSON text with `serde_json` and writes the value in the library's type.
fn json(text: &str) -> JsonValue {
    let value: serde_json::Value = serde_json::from_str(text).unwrap();
    convert(&value)
}

fn convert(value: &serde_json::Value) -> JsonValue {
    match value {
        serde_json::Value::Null => JsonValue::Null,
        serde_json::Value::Bool(b) => JsonValue::Bool(*b),
        serde_json::Value::Number(n) => {
            if let Some(u) = n.as_u64() {
                JsonValue::Number(JsonNumber::from_u64(u))
            } else if let Some(i) = n.as_i64() {
                JsonValue::Number(JsonNumber::from_i64(i))
            } else {
                JsonValue::Number(JsonNumber::from_f64_bits(n.as_f64().unwrap().to_bits()).unwrap())
            }
        }
        serde_json::Value::String(s) => JsonValue::String(s.clone()),
        serde_json::Value::Array(items) => JsonValue::Array(items.iter().map(convert).collect()),
        serde_json::Value::Object(map) => {
            JsonValue::Object(map.iter().map(|(k, v)| (k.clone(), convert(v))).collect())
        }
    }
}
#[test]
fn basic_schema_type_can_be_deserialized() {
    let value: SchemaType = SchemaType::from_json(&json("\"string\"")).unwrap();

    assert_eq!(value, SchemaType::Basic(BasicType::String));
}

#[test]
fn advanced_string_type_can_be_deserialized() {
    let value: SchemaType =
        SchemaType::from_json(&json("{ \"$\": \"string\", \"minLength\": 10 }")).unwrap();

    assert_eq!(
        value,
        AdvancedStringType {
            min_length: Some(10),
            ..Default::default()
        }
        .into()
    );

    let result = SchemaType::from_json(&json("{ \"minLength\": 10 }"));
    assert!(result.is_err());
}

#[test]
fn nested_values_in_object_are_deserialized_correctly() {
    let value: SchemaType = SchemaType::from_json(&json("{ \"name\": \"string\" }")).unwrap();

    assert_eq!(
        value,
        vec![("name".to_string(), SchemaType::Basic(BasicType::String))].into()
    );
}

#[test]
fn nested_values_in_array_are_deserialized_correctly() {
    let value: SchemaType = SchemaType::from_json(&json("[\"string\"]")).unwrap();

    assert_eq!(
        value,
        SchemaType::Array((Box::new(SchemaType::Basic(BasicType::String)),))
    );
}

#[test]
fn nested_values_in_tuple_are_deserialized_correctly() {
    let value: SchemaType = SchemaType::from_json(&json("[\"string\", \"number\"]")).unwrap();

    assert_eq!(
        value,
        vec![
            SchemaType::Basic(BasicType::String),
            SchemaType::Basic(BasicType::Number),
        ]
        .into()
    );
}

#[test]
fn objects_are_validated_correctly() {
    let value: SchemaType =
        SchemaType::from_json(&json("{ \"name\": \"string\", \"age\": \"number\" }")).unwrap();

    assert_eq!(
        value.validate(&json("{ \"name\": \"Alice\", \"age\": 42 }")),
        Ok(())
    );

    assert_eq!(
        value.validate(&json("\"\"")),
        Err(SchemaTypeValidationError::AdvancedTypeValidationError(
            AdvancedTypeValidationError::ObjectError(ObjectTypeError::NotAnObject)
        ))
    );

    assert_eq!(
        value.validate(&json("{ \"age\": 42 }")),
        Err(SchemaTypeValidationError::AdvancedTypeValidationError(
            AdvancedTypeValidationError::ObjectError(ObjectTypeError::MissingObjectKey(
                "name".to_string()
            ))
        ))
    );

    assert!(value
        .validate(&json("{ \"name\": 10, \"age\": 42 }"))
        .is_err());
}

#[test]
fn optional_type_in_object_is_resolved_correctly() {
    let value: SchemaType = SchemaType::from_json(&json(
        "{ \"name\": { \"$\": \"optional\", \"type\": \"string\" } }",
    ))
    .unwrap();

    assert_eq!(value.validate(&json("{}")), Ok(()));
}

#[test]
fn incorrect_optional_type_in_object_returns_an_error() {
    let value: SchemaType = SchemaType::from_json(&json(
        "{ \"name\": { \"$\": \"optional\", \"type\": \"string\" } }",
    ))
    .unwrap();

    assert!(value.validate(&json("{ \"name\": 10 }")).is_err());
}

#[test]
fn unmatched_object_with_dollar_sign_key_is_deserialized_correctly() {
    let value: SchemaType =
        SchemaType::from_json(&json("{ \"$\": \"number\", \"name\": \"string\" }")).unwrap();

    assert_eq!(
        value,
        vec![
            ("$".to_string(), SchemaType::Basic(BasicType::Number)),
            ("name".to_string(), SchemaType::Basic(BasicType::String)),
        ]
        .into()
    );
}

#[test]
fn tuple_shorthand_is_resolved_correctly() {
    let value: SchemaType = SchemaType::from_json(&json("[\"string\", \"number\"]")).unwrap();

    assert_eq!(value.validate(&json("[\"\", 10]")), Ok(()));

    assert!(value.validate(&json("[\"\", \"\"]")).is_err());

    assert!(value.validate(&json("[\"\"]")).is_err());
    assert!(value.validate(&json("[\"\", 10, \"\"]")).is_err());
}

#[test]
fn advanced_string_type_is_deserialized_correctly() {
    let advanced_type: SchemaType = SchemaType::from_json(&json(
        "{ \"$\": \"string\", \"requireFilled\": false, \"minLength\": 10, \"maxLength\": 20 }",
    ))
    .unwrap();

    assert_eq!(
        advanced_type,
        SchemaType::Advanced(AdvancedType::String(AdvancedStringType {
            require_filled: false,
            min_length: Some(10),
            max_length: Some(20),
        }))
    );
}

#[test]
fn any_of_type_is_deserialized_correctly() {
    let advanced_type: SchemaType = SchemaType::from_json(&json(
        "{ \"$\": \"anyOf\", \"variants\": [\"string\", \"number\"] }",
    ))
    .unwrap();

    assert_eq!(
        advanced_type,
        AnyOfType {
            variants: vec![BasicType::String.into(), BasicType::Number.into()],
        }
        .into()
    );
}

#[test]
fn tuple_type_is_deserialized_correctly() {
    let advanced_type: SchemaType = SchemaType::from_json(&json(
        "{ \"$\": \"tuple\", \"items\": [\"string\", \"number\"] }",
    ))
    .unwrap();

    assert_eq!(
        advanced_type,
        TupleType {
            items: vec![BasicType::String.into(), BasicType::Number.into()],
        }
        .into()
    );
}

#[test]
fn optional_type_is_deserialized_correctly() {
    let advanced_type: SchemaType =
        SchemaType::from_json(&json("{ \"$\": \"optional\", \"type\": \"string\" }")).unwrap();

    assert_eq!(
        advanced_type,
        OptionalType {
            kind: Box::new(BasicType::String.into())
        }
        .into()
    );
}

#[test]
fn field_is_deserialized_correctly() {
    let result = SchemaType::from_json(&json(
        "{ \"?\": \"string\", \"label\": \"Name\", \"hint\": \"Your name\" }",
    ));

    assert!(result.is_ok());
    assert_eq!(
        result.unwrap(),
        SchemaType::Field(Field {
            field_type: Box::new(BasicType::String.into()),
            label: "Name".to_string(),
            hint: Some("Your name".to_string()),
        })
    );
}

#[test]
fn literals_that_stand_for_no_schema_are_refused() {
    for text in [
        "null",
        "true",
        "10",
        "\"text\"",
        "\"String\"",
        "[\"string\", 1]",
        "[1]",
        "{ \"a\": 1 }",
        "{ \"$\": \"optional\" }",
        "{ \"$\": \"string\", \"minLength\": -1 }",
        "{ \"$\": \"string\", \"minLength\": 1.5 }",
        "{ \"$\": \"string\", \"requireFilled\": null }",
        "{ \"$\": \"anyOf\", \"variants\": \"string\" }",
        "{ \"$\": \"array\", \"items\": 1 }",
    ] {
        assert_eq!(
            SchemaType::from_json(&json(text)),
            Err(SchemaValidationError::InvalidSchemaValue),
            "{}",
            text
        );
        assert_eq!(parse_schema(&json(text)), None);
    }
}

#[test]
fn every_basic_name_is_read() {
    let names = [
        ("any", BasicType::Any),
        ("boolean", BasicType::Boolean),
        ("string", BasicType::String),
        ("filledString", BasicType::FilledString),
        ("number", BasicType::Number),
        ("positiveNumber", BasicType::PositiveNumber),
        ("negativeNumber", BasicType::NegativeNumber),
        ("u8", BasicType::U8),
        ("u16", BasicType::U16),
        ("u32", BasicType::U32),
        ("u64", BasicType::U64),
        ("i8", BasicType::I8),
        ("i16", BasicType::I16),
        ("i32", BasicType::I32),
        ("i64", BasicType::I64),
        ("null", BasicType::Null),
        ("object", BasicType::Object),
        ("array", BasicType::Array),
        ("uuid", BasicType::Uuid),
        ("email", BasicType::Email),
    ];
    for (name, kind) in names {
        assert_eq!(
            SchemaType::from_json(&JsonValue::String(name.to_string())),
            Ok(SchemaType::Basic(kind))
        );
    }
}

#[test]
fn shorthands_and_explicit_forms_differ_in_their_defaults() {
    let shorthand = SchemaType::from_json(&json("[\"string\"]")).unwrap();
    let explicit = SchemaType::from_json(&json("{ \"$\": \"array\", \"items\": \"string\" }")).unwrap();
    let relaxed = SchemaType::from_json(&json(
        "{ \"$\": \"array\", \"requireFilled\": false, \"items\": \"string\" }",
    ))
    .unwrap();

    assert_eq!(shorthand.validate(&json("[]")), Ok(()));
    assert!(explicit.validate(&json("[]")).is_err());
    assert_eq!(relaxed.validate(&json("[]")), Ok(()));
    assert_eq!(SchemaType::from_json(&json("[]")), Ok(SchemaType::Tuple(vec![])));
    assert_eq!(SchemaType::from_json(&json("{}")), Ok(SchemaType::Object(vec![])));
}

#[test]
fn explicit_object_form_and_field_without_hint_are_read() {
    let object = SchemaType::from_json(&json(
        "{ \"$\": \"object\", \"object\": { \"$\": \"string\", \"?\": \"number\" } }",
    ))
    .unwrap();
    assert_eq!(
        object,
        SchemaType::Advanced(AdvancedType::Object(
            vec![
                ("$".to_string(), SchemaType::Basic(BasicType::String)),
                ("?".to_string(), SchemaType::Basic(BasicType::Number)),
            ]
            .into()
        ))
    );

    let field = SchemaType::from_json(&json("{ \"?\": [\"u8\"], \"label\": \"Bytes\" }")).unwrap();
    assert_eq!(
        field,
        SchemaType::Field(Field {
            field_type: Box::new(SchemaType::Array((Box::new(BasicType::U8.into()),))),
            label: "Bytes".to_string(),
            hint: None,
        })
    );
    assert_eq!(field.validate(&json("[1, 2, 255]")), Ok(()));
    assert!(field.validate(&json("[1, 2, 256]")).is_err());

    let no_items = SchemaType::from_json(&json("{ \"$\": \"array\" }")).unwrap();
    assert_eq!(
        no_items,
        SchemaType::Object(vec![("$".to_string(), SchemaType::Basic(BasicType::Array))])
    );

    let no_label = SchemaType::from_json(&json("{ \"?\": \"string\" }")).unwrap();
    assert_eq!(
        no_label,
        SchemaType::Object(vec![("?".to_string(), SchemaType::Basic(BasicType::String))])
    );
}

#[test]
fn schemas_are_written_as_their_literals() {
    assert_eq!(SchemaType::Basic(BasicType::FilledString).to_json(), json("\"filledString\""));
    assert_eq!(
        SchemaType::from(AdvancedStringType { require_filled: true, min_length: Some(2), max_length: None }).to_json(),
        JsonValue::Object(vec![
            ("$".to_string(), json("\"string\"")),
            ("requireFilled".to_string(), json("true")),
            ("minLength".to_string(), json("2")),
            ("maxLength".to_string(), JsonValue::Null),
        ])
    );
    let field = SchemaType::Field(Field {
        field_type: Box::new(BasicType::String.into()),
        label: "Name".to_string(),
        hint: None,
    });
    assert_eq!(
        field.to_json(),
        JsonValue::Object(vec![
            ("?".to_string(), json("\"string\"")),
            ("label".to_string(), json("\"Name\"")),
            ("hint".to_string(), JsonValue::Null),
        ])
    );
    assert_eq!(
        SchemaType::Array((Box::new(BasicType::U8.into()),)).to_json(),
        json("[\"u8\"]")
    );
}

#[test]
fn literals_read_back_as_the_schema_they_write() {
    for text in [
        "\"uuid\"",
        "[\"string\"]",
        "[\"string\", \"number\"]",
        "[]",
        "{}",
        "{ \"a\": \"string\", \"b\": [\"u8\"] }",
        "{ \"$\": \"string\" }",
        "{ \"$\": \"string\", \"requireFilled\": false, \"maxLength\": 3 }",
        "{ \"$\": \"anyOf\", \"variants\": [\"null\", [\"i64\"]] }",
        "{ \"$\": \"tuple\", \"items\": [] }",
        "{ \"$\": \"array\", \"items\": { \"$\": \"optional\", \"type\": \"email\" } }",
        "{ \"$\": \"object\", \"object\": { \"k\": \"any\" } }",
        "{ \"?\": { \"x\": \"boolean\" }, \"label\": \"X\", \"hint\": \"an x\" }",
    ] {
        let schema = SchemaType::from_json(&json(text)).unwrap();
        assert_eq!(SchemaType::from_json(&schema.to_json()), Ok(schema.clone()), "{}", text);
        assert_eq!(parse_schema(&schema.to_json()), Some(schema));
    }
}
