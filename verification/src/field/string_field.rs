//! A validator for a field that holds a string.
use crate::errors::validation_error::{ValidationError, ValidationErrorModel};
use crate::json::{JsonModel, JsonValue};
use crate::schema_type::model::{byte_length, outcome_model};
use crate::traits::validator::Validator;
use vstd::prelude::*;
use vstd::string::*;

verus! {

/// A validator for a string. Nothing is asked of the string unless it is
/// set here. Lengths are counted in bytes of UTF-8.
#[derive(Debug, Clone, Copy, PartialEq, Eq)]
pub struct StringField {
    /// The string may not be empty. Not set means that it may.
    pub require_filled: Option<bool>,
    /// The least length that is accepted, if there is one.
    pub min_length: Option<usize>,
    /// The greatest length that is accepted, if there is one.
    pub max_length: Option<usize>,
}

/// What a string field says of a value. The checks come in a fixed order
/// and the first that fails decides: filled, then not too short, then not
/// too long.
pub open spec fn string_field_verdict(field: StringField, value: JsonModel) -> Result<
    (),
    ValidationErrorModel,
> {
    match value {
        JsonModel::String(text) => {
            if field.require_filled == Some(true) && text.len() == 0 {
                Err(ValidationErrorModel::StringNotFilled)
            } else if field.min_length is Some && byte_length(text) < field.min_length->Some_0 {
                Err(
                    ValidationErrorModel::StringNotMinLength(
                        field.min_length->Some_0,
                        byte_length(text),
                    ),
                )
            } else if field.max_length is Some && byte_length(text) > field.max_length->Some_0 {
                Err(
                    ValidationErrorModel::StringExceedsMaxLength(
                        field.max_length->Some_0,
                        byte_length(text),
                    ),
                )
            } else {
                Ok(())
            }
        },
        _ => Err(ValidationErrorModel::NotAString),
    }
}

impl Default for StringField {
    /// A field that accepts every string.
    fn default() -> (field: Self)
        ensures
            field == (StringField { require_filled: None, min_length: None, max_length: None }),
    {
        StringField { require_filled: None, min_length: None, max_length: None }
    }
}

impl StringField {
    /// Checks a value against this field.
    pub fn validate(&self, value: &JsonValue) -> (outcome: Result<(), ValidationError>)
        ensures
            outcome_model(outcome) == string_field_verdict(*self, value@),
    {
        match value {
            JsonValue::String(text) => {
                let text = text.as_str();
                let require_filled = match self.require_filled {
                    Some(flag) => flag,
                    None => false,
                };
                if require_filled && text.is_empty() {
                    return Err(ValidationError::StringNotFilled);
                }
                if let Some(min_length) = self.min_length {
                    if text.len() < min_length {
                        return Err(ValidationError::StringNotMinLength(min_length, text.len()));
                    }
                }
                if let Some(max_length) = self.max_length {
                    if text.len() > max_length {
                        return Err(
                            ValidationError::StringExceedsMaxLength(max_length, text.len()),
                        );
                    }
                }
                Ok(())
            },
            _ => Err(ValidationError::NotAString),
        }
    }
}

impl Validator for StringField {
    type E = ValidationError;

    fn validate(&self, value: &JsonValue) -> (outcome: Result<(), ValidationError>)
        ensures
            outcome_model(outcome) == string_field_verdict(*self, value@),
    {
        StringField::validate(self, value)
    }
}

} // verus!
