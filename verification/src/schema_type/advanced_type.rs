//! Matchers with configuration, behind one type.
pub mod advanced_string_type;
pub mod any_of_type;
pub mod array_type;
pub mod object_type;
pub mod optional_type;
pub mod tuple_type;

use crate::json::JsonValue;
use crate::schema_type::advanced_type::advanced_string_type::{
    AdvancedStringType,
    StringValidationError,
};
use crate::schema_type::advanced_type::any_of_type::{AnyOfType, AnyOfTypeError};
use crate::schema_type::advanced_type::array_type::{ArrayType, ArrayTypeError};
use crate::schema_type::advanced_type::object_type::{ObjectType, ObjectTypeError};
use crate::schema_type::advanced_type::optional_type::OptionalType;
use crate::schema_type::advanced_type::tuple_type::{TupleError, TupleType};
use crate::schema_type::model::{
    advanced_description,
    advanced_error_model,
    advanced_model,
    advanced_verdict,
    outcome_model,
    AdvancedErrorModel,
    AdvancedModel,
};
use crate::schema_type::SchemaTypeValidationError;
use vstd::prelude::*;

verus! {

/// A matcher with configuration.
#[derive(Debug, PartialEq)]
pub enum AdvancedType {
    String(AdvancedStringType),
    AnyOf(AnyOfType),
    Tuple(TupleType),
    Array(ArrayType),
    Object(ObjectType),
    Optional(OptionalType),
}

impl View for AdvancedType {
    type V = AdvancedModel;

    open spec fn view(&self) -> AdvancedModel {
        advanced_model(*self)
    }
}

/// Why a value did not match an [`AdvancedType`]: the error of the matcher
/// inside, or, for an optional schema, that of the schema inside.
#[derive(Debug, PartialEq)]
pub enum AdvancedTypeValidationError {
    StringValidationError(StringValidationError),
    AnyOfError(AnyOfTypeError),
    TupleError(TupleError),
    ArrayError(ArrayTypeError),
    ObjectError(ObjectTypeError),
    SchemaTypeValidationError(Box<SchemaTypeValidationError>),
}

impl View for AdvancedTypeValidationError {
    type V = AdvancedErrorModel;

    open spec fn view(&self) -> AdvancedErrorModel {
        advanced_error_model(*self)
    }
}

impl Clone for AdvancedType {
    fn clone(&self) -> (copy: Self)
        ensures
            copy@ == self@,
        decreases self,
    {
        match self {
            AdvancedType::String(config) => AdvancedType::String(*config),
            AdvancedType::AnyOf(any_of) => AdvancedType::AnyOf(any_of.clone()),
            AdvancedType::Tuple(tuple) => AdvancedType::Tuple(tuple.clone()),
            AdvancedType::Array(array) => AdvancedType::Array(array.clone()),
            AdvancedType::Object(object) => AdvancedType::Object(object.clone()),
            AdvancedType::Optional(optional) => AdvancedType::Optional(optional.clone()),
        }
    }
}

impl AdvancedType {
    /// Checks a value against the matcher inside.
    pub fn validate(&self, value: &JsonValue) -> (outcome: Result<(), AdvancedTypeValidationError>)
        ensures
            outcome_model(outcome) == advanced_verdict(self@, value@),
        decreases self,
    {
        match self {
            AdvancedType::String(config) => match config.validate(value) {
                Ok(_) => Ok(()),
                Err(error) => Err(AdvancedTypeValidationError::StringValidationError(error)),
            },
            AdvancedType::AnyOf(any_of) => match any_of.validate(value) {
                Ok(_) => Ok(()),
                Err(error) => Err(AdvancedTypeValidationError::AnyOfError(error)),
            },
            AdvancedType::Tuple(tuple) => match tuple.validate(value) {
                Ok(_) => Ok(()),
                Err(error) => Err(AdvancedTypeValidationError::TupleError(error)),
            },
            AdvancedType::Array(array) => match array.validate(value) {
                Ok(_) => Ok(()),
                Err(error) => Err(AdvancedTypeValidationError::ArrayError(error)),
            },
            AdvancedType::Object(object) => match object.validate(value) {
                Ok(_) => Ok(()),
                Err(error) => Err(AdvancedTypeValidationError::ObjectError(error)),
            },
            AdvancedType::Optional(optional) => match optional.validate(value) {
                Ok(_) => Ok(()),
                Err(error) => Err(
                    AdvancedTypeValidationError::SchemaTypeValidationError(Box::new(error)),
                ),
            },
        }
    }

    /// Describes the matcher inside to a reader.
    pub fn to_string(&self) -> (text: String)
        ensures
            text@ == advanced_description(self@),
        decreases self,
    {
        match self {
            AdvancedType::String(config) => config.to_string(),
            AdvancedType::AnyOf(any_of) => any_of.to_string(),
            AdvancedType::Tuple(tuple) => tuple.to_string(),
            AdvancedType::Array(array) => array.to_string(),
            AdvancedType::Object(object) => object.to_string(),
            AdvancedType::Optional(optional) => optional.to_string(),
        }
    }
}

impl From<AdvancedStringType> for AdvancedType {
    /// A string matcher, behind the common type.
    fn from(value: AdvancedStringType) -> (made: Self) {
        AdvancedType::String(value)
    }
}

impl vstd::std_specs::convert::FromSpecImpl<AdvancedStringType> for AdvancedType {
    open spec fn obeys_from_spec() -> bool {
        true
    }

    open spec fn from_spec(value: AdvancedStringType) -> Self {
        AdvancedType::String(value)
    }
}

impl From<AnyOfType> for AdvancedType {
    /// A union, behind the common type.
    fn from(value: AnyOfType) -> (made: Self) {
        AdvancedType::AnyOf(value)
    }
}

impl vstd::std_specs::convert::FromSpecImpl<AnyOfType> for AdvancedType {
    open spec fn obeys_from_spec() -> bool {
        true
    }

    open spec fn from_spec(value: AnyOfType) -> Self {
        AdvancedType::AnyOf(value)
    }
}

impl From<TupleType> for AdvancedType {
    /// A tuple, behind the common type.
    fn from(value: TupleType) -> (made: Self) {
        AdvancedType::Tuple(value)
    }
}

impl vstd::std_specs::convert::FromSpecImpl<TupleType> for AdvancedType {
    open spec fn obeys_from_spec() -> bool {
        true
    }

    open spec fn from_spec(value: TupleType) -> Self {
        AdvancedType::Tuple(value)
    }
}

impl From<ArrayType> for AdvancedType {
    /// An array matcher, behind the common type.
    fn from(value: ArrayType) -> (made: Self) {
        AdvancedType::Array(value)
    }
}

impl vstd::std_specs::convert::FromSpecImpl<ArrayType> for AdvancedType {
    open spec fn obeys_from_spec() -> bool {
        true
    }

    open spec fn from_spec(value: ArrayType) -> Self {
        AdvancedType::Array(value)
    }
}

impl From<ObjectType> for AdvancedType {
    /// An object matcher, behind the common type.
    fn from(value: ObjectType) -> (made: Self) {
        AdvancedType::Object(value)
    }
}

impl vstd::std_specs::convert::FromSpecImpl<ObjectType> for AdvancedType {
    open spec fn obeys_from_spec() -> bool {
        true
    }

    open spec fn from_spec(value: ObjectType) -> Self {
        AdvancedType::Object(value)
    }
}

impl From<OptionalType> for AdvancedType {
    /// An optional schema, behind the common type.
    fn from(value: OptionalType) -> (made: Self) {
        AdvancedType::Optional(value)
    }
}

impl vstd::std_specs::convert::FromSpecImpl<OptionalType> for AdvancedType {
    open spec fn obeys_from_spec() -> bool {
        true
    }

    open spec fn from_spec(value: OptionalType) -> Self {
        AdvancedType::Optional(value)
    }
}

impl From<StringValidationError> for AdvancedTypeValidationError {
    /// The error of a string matcher, behind the common type.
    fn from(value: StringValidationError) -> (made: Self) {
        AdvancedTypeValidationError::StringValidationError(value)
    }
}

impl vstd::std_specs::convert::FromSpecImpl<StringValidationError> for AdvancedTypeValidationError {
    open spec fn obeys_from_spec() -> bool {
        true
    }

    open spec fn from_spec(value: StringValidationError) -> Self {
        AdvancedTypeValidationError::StringValidationError(value)
    }
}

impl From<AnyOfTypeError> for AdvancedTypeValidationError {
    /// The error of a union, behind the common type.
    fn from(value: AnyOfTypeError) -> (made: Self) {
        AdvancedTypeValidationError::AnyOfError(value)
    }
}

impl vstd::std_specs::convert::FromSpecImpl<AnyOfTypeError> for AdvancedTypeValidationError {
    open spec fn obeys_from_spec() -> bool {
        true
    }

    open spec fn from_spec(value: AnyOfTypeError) -> Self {
        AdvancedTypeValidationError::AnyOfError(value)
    }
}

impl From<TupleError> for AdvancedTypeValidationError {
    /// The error of a tuple, behind the common type.
    fn from(value: TupleError) -> (made: Self) {
        AdvancedTypeValidationError::TupleError(value)
    }
}

impl vstd::std_specs::convert::FromSpecImpl<TupleError> for AdvancedTypeValidationError {
    open spec fn obeys_from_spec() -> bool {
        true
    }

    open spec fn from_spec(value: TupleError) -> Self {
        AdvancedTypeValidationError::TupleError(value)
    }
}

impl From<ArrayTypeError> for AdvancedTypeValidationError {
    /// The error of an array matcher, behind the common type.
    fn from(value: ArrayTypeError) -> (made: Self) {
        AdvancedTypeValidationError::ArrayError(value)
    }
}

impl vstd::std_specs::convert::FromSpecImpl<ArrayTypeError> for AdvancedTypeValidationError {
    open spec fn obeys_from_spec() -> bool {
        true
    }

    open spec fn from_spec(value: ArrayTypeError) -> Self {
        AdvancedTypeValidationError::ArrayError(value)
    }
}

impl From<ObjectTypeError> for AdvancedTypeValidationError {
    /// The error of an object matcher, behind the common type.
    fn from(value: ObjectTypeError) -> (made: Self) {
        AdvancedTypeValidationError::ObjectError(value)
    }
}

impl vstd::std_specs::convert::FromSpecImpl<ObjectTypeError> for AdvancedTypeValidationError {
    open spec fn obeys_from_spec() -> bool {
        true
    }

    open spec fn from_spec(value: ObjectTypeError) -> Self {
        AdvancedTypeValidationError::ObjectError(value)
    }
}

impl From<SchemaTypeValidationError> for AdvancedTypeValidationError {
    /// The error of a schema inside, boxed.
    fn from(value: SchemaTypeValidationError) -> (made: Self) {
        AdvancedTypeValidationError::SchemaTypeValidationError(Box::new(value))
    }
}

impl vstd::std_specs::convert::FromSpecImpl<SchemaTypeValidationError> for AdvancedTypeValidationError {
    open spec fn obeys_from_spec() -> bool {
        true
    }

    open spec fn from_spec(value: SchemaTypeValidationError) -> Self {
        AdvancedTypeValidationError::SchemaTypeValidationError(Box::new(value))
    }
}

} // verus!
