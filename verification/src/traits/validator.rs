//! The contract of everything that checks a JSON value.
//!
//! Every matcher of the library meets it, and so can a validator written
//! elsewhere: it then takes part in validation like a matcher of the
//! library.
use crate::json::JsonValue;
use crate::schema_type::advanced_type::advanced_string_type::{
    AdvancedStringType,
    StringValidationError,
};
use crate::schema_type::advanced_type::any_of_type::{AnyOfType, AnyOfTypeError};
use crate::schema_type::advanced_type::array_type::{ArrayType, ArrayTypeError};
use crate::schema_type::advanced_type::object_type::{ObjectType, ObjectTypeError};
use crate::schema_type::advanced_type::optional_type::OptionalType;
use crate::schema_type::advanced_type::tuple_type::{TupleError, TupleType};
use crate::schema_type::advanced_type::{AdvancedType, AdvancedTypeValidationError};
use crate::schema_type::basic_type::{basic_verdict, BasicType, BasicTypeValidationError};
use crate::schema_type::field::Field;
use crate::schema_type::model::{
    advanced_verdict,
    any_of_verdict,
    array_verdict,
    object_verdict,
    optional_verdict,
    outcome_model,
    schema_verdict,
    string_verdict,
    tuple_verdict,
};
use crate::schema_type::{SchemaType, SchemaTypeValidationError};
use vstd::prelude::*;

verus! {

/// Something that accepts or rejects a JSON value.
///
/// A validator is expected to give the same answer for the same value every
/// time. The matchers of the library do, as their contracts say; of a
/// validator written elsewhere the library knows what that validator's own
/// contract says, and relies on nothing more.
pub trait Validator {
    /// What is said of a value that is rejected.
    type E;

    /// Checks a value: `Ok` where it is accepted, an error where it is not.
    fn validate(&self, value: &JsonValue) -> (outcome: Result<(), Self::E>);
}

impl Validator for BasicType {
    type E = BasicTypeValidationError;

    fn validate(&self, value: &JsonValue) -> (outcome: Result<(), BasicTypeValidationError>)
        ensures
            outcome_model(outcome) == basic_verdict(*self, value@),
    {
        BasicType::validate(self, value)
    }
}

impl Validator for AdvancedStringType {
    type E = StringValidationError;

    fn validate(&self, value: &JsonValue) -> (outcome: Result<(), StringValidationError>)
        ensures
            outcome == string_verdict(*self, value@),
    {
        AdvancedStringType::validate(self, value)
    }
}

impl Validator for AnyOfType {
    type E = AnyOfTypeError;

    fn validate(&self, value: &JsonValue) -> (outcome: Result<(), AnyOfTypeError>)
        ensures
            outcome_model(outcome) == any_of_verdict(self@, value@),
    {
        AnyOfType::validate(self, value)
    }
}

impl Validator for TupleType {
    type E = TupleError;

    fn validate(&self, value: &JsonValue) -> (outcome: Result<(), TupleError>)
        ensures
            outcome_model(outcome) == tuple_verdict(self@, value@),
    {
        TupleType::validate(self, value)
    }
}

impl Validator for ArrayType {
    type E = ArrayTypeError;

    fn validate(&self, value: &JsonValue) -> (outcome: Result<(), ArrayTypeError>)
        ensures
            outcome_model(outcome) == array_verdict(self.require_filled, self.items@, value@),
    {
        ArrayType::validate(self, value)
    }
}

impl Validator for ObjectType {
    type E = ObjectTypeError;

    fn validate(&self, value: &JsonValue) -> (outcome: Result<(), ObjectTypeError>)
        ensures
            outcome_model(outcome) == object_verdict(self@, value@),
    {
        ObjectType::validate(self, value)
    }
}

impl Validator for OptionalType {
    type E = SchemaTypeValidationError;

    fn validate(&self, value: &JsonValue) -> (outcome: Result<(), SchemaTypeValidationError>)
        ensures
            outcome_model(outcome) == optional_verdict(self@, value@),
    {
        OptionalType::validate(self, value)
    }
}

impl Validator for Field {
    type E = SchemaTypeValidationError;

    fn validate(&self, value: &JsonValue) -> (outcome: Result<(), SchemaTypeValidationError>)
        ensures
            outcome_model(outcome) == schema_verdict(*self@.field_type, value@),
    {
        Field::validate(self, value)
    }
}

impl Validator for AdvancedType {
    type E = AdvancedTypeValidationError;

    fn validate(&self, value: &JsonValue) -> (outcome: Result<(), AdvancedTypeValidationError>)
        ensures
            outcome_model(outcome) == advanced_verdict(self@, value@),
    {
        AdvancedType::validate(self, value)
    }
}

impl Validator for SchemaType {
    type E = SchemaTypeValidationError;

    fn validate(&self, value: &JsonValue) -> (outcome: Result<(), SchemaTypeValidationError>)
        ensures
            outcome_model(outcome) == schema_verdict(self@, value@),
    {
        SchemaType::validate(self, value)
    }
}

/// Checks a value that may be `null` with any validator: `null` is
/// accepted, anything else is left to the validator, whose outcome is handed
/// on as it is.
pub fn validate_optional<V: Validator>(validator: &V, value: &JsonValue) -> (outcome: Result<
    (),
    V::E,
>)
    ensures
        value@ is Null ==> outcome is Ok,
        !(value@ is Null) ==> call_ensures(V::validate, (validator, value), outcome),
{
    match value {
        JsonValue::Null => Ok(()),
        _ => validator.validate(value),
    }
}

/// Checks every value of a list with any validator, in order, and stops at
/// the first that is rejected, whose error is handed on as it is.
pub fn validate_each<V: Validator>(validator: &V, values: &Vec<JsonValue>) -> (outcome: Result<
    (),
    V::E,
>)
    ensures
        match outcome {
            Ok(_) => forall|i: int|
                0 <= i < values.len() ==> call_ensures(
                    V::validate,
                    (validator, &#[trigger] values@[i]),
                    Ok::<(), V::E>(()),
                ),
            Err(error) => exists|i: int|
                {
                    &&& 0 <= i < values.len()
                    &&& call_ensures(
                        V::validate,
                        (validator, &#[trigger] values@[i]),
                        Err::<(), V::E>(error),
                    )
                    &&& forall|j: int|
                        0 <= j < i ==> call_ensures(
                            V::validate,
                            (validator, &#[trigger] values@[j]),
                            Ok::<(), V::E>(()),
                        )
                },
        },
{
    let mut i: usize = 0;
    while i < values.len()
        invariant
            i <= values.len(),
            forall|j: int|
                0 <= j < i ==> call_ensures(
                    V::validate,
                    (validator, &#[trigger] values@[j]),
                    Ok::<(), V::E>(()),
                ),
        decreases values.len() - i,
    {
        let outcome = validator.validate(&values[i]);
        match outcome {
            Ok(unit) => {
                assert(outcome == Ok::<(), V::E>(unit));
            },
            Err(error) => {
                return Err(error);
            },
        }
        i += 1;
    }
    Ok(())
}

} // verus!
