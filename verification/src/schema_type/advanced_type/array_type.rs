//! An array of any length with one schema for all its items.
use crate::json::{json_models, JsonModel, JsonValue};
use crate::schema_type::model::{
    array_error_model,
    array_verdict,
    items_verdict_from,
    outcome_model,
    schema_description,
    schema_model,
    ArrayErrorModel,
    ArrayModel,
};
use crate::schema_type::{SchemaType, SchemaTypeValidationError};
use vstd::prelude::*;
use vstd::string::*;

verus! {

/// Why a value did not match an [`ArrayType`].
#[derive(Debug, PartialEq)]
pub enum ArrayTypeError {
    /// The value is not an array.
    NotAnArray,
    /// The array is empty, and a filled one is required.
    RequireFilled,
    /// An item did not match the item schema.
    SchemaTypeValidationError(Box<SchemaTypeValidationError>),
}

impl View for ArrayTypeError {
    type V = ArrayErrorModel;

    open spec fn view(&self) -> ArrayErrorModel {
        array_error_model(*self)
    }
}

/// Matches an array whose items all match one schema.
#[derive(Debug, PartialEq)]
pub struct ArrayType {
    /// The array must have at least one item.
    pub require_filled: bool,
    /// The schema of every item.
    pub items: Box<SchemaType>,
}

impl View for ArrayType {
    type V = ArrayModel;

    open spec fn view(&self) -> ArrayModel {
        ArrayModel {
            require_filled: self.require_filled,
            items: Box::new(schema_model(*self.items)),
        }
    }
}

impl Clone for ArrayType {
    fn clone(&self) -> (copy: Self)
        ensures
            copy@ == self@,
        decreases self,
    {
        ArrayType { require_filled: self.require_filled, items: Box::new((*self.items).clone()) }
    }
}

impl ArrayType {
    /// Checks a value against an item schema: an array, filled where that is
    /// required, whose items all match.
    pub fn validate_items(require_filled: bool, items: &SchemaType, value: &JsonValue) -> (outcome:
        Result<(), ArrayTypeError>)
        ensures
            outcome_model(outcome) == array_verdict(require_filled, items@, value@),
        decreases items, 1int,
    {
        match value {
            JsonValue::Array(values) => {
                if values.len() == 0 && require_filled {
                    return Err(ArrayTypeError::RequireFilled);
                }
                let ghost models = json_models(values@);
                let mut i: usize = 0;
                while i < values.len()
                    invariant
                        i <= values.len(),
                        models == json_models(values@),
                        value@ == JsonModel::Array(models),
                        items_verdict_from(items@, models, 0) == items_verdict_from(
                            items@,
                            models,
                            i as int,
                        ),
                    decreases values.len() - i,
                {
                    match items.validate(&values[i]) {
                        Ok(_) => {},
                        Err(error) => {
                            return Err(ArrayTypeError::SchemaTypeValidationError(Box::new(error)));
                        },
                    }
                    i += 1;
                }
                Ok(())
            },
            _ => Err(ArrayTypeError::NotAnArray),
        }
    }

    /// Checks a value against this matcher.
    pub fn validate(&self, value: &JsonValue) -> (outcome: Result<(), ArrayTypeError>)
        ensures
            outcome_model(outcome) == array_verdict(self.require_filled, self.items@, value@),
        decreases self,
    {
        Self::validate_items(self.require_filled, &self.items, value)
    }

    /// Describes this matcher to a reader.
    pub fn to_string(&self) -> (text: String)
        ensures
            text@ == "array with items: "@ + schema_description(self.items@),
        decreases self,
    {
        let mut text = "array with items: ".to_owned();
        let inner = self.items.to_string();
        text.append(inner.as_str());
        text
    }
}

impl From<SchemaTypeValidationError> for ArrayTypeError {
    /// The error of an item, boxed.
    fn from(value: SchemaTypeValidationError) -> (made: Self) {
        ArrayTypeError::SchemaTypeValidationError(Box::new(value))
    }
}

impl vstd::std_specs::convert::FromSpecImpl<SchemaTypeValidationError> for ArrayTypeError {
    open spec fn obeys_from_spec() -> bool {
        true
    }

    open spec fn from_spec(value: SchemaTypeValidationError) -> Self {
        ArrayTypeError::SchemaTypeValidationError(Box::new(value))
    }
}

} // verus!
