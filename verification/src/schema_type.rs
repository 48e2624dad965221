//! The schema tree and its validation.
pub mod advanced_type;
pub mod basic_type;
pub mod field;
pub mod literal;
pub mod model;

use crate::json::JsonValue;
use crate::schema_type::advanced_type::advanced_string_type::AdvancedStringType;
use crate::schema_type::advanced_type::any_of_type::AnyOfType;
use crate::schema_type::advanced_type::array_type::ArrayType;
use crate::schema_type::advanced_type::optional_type::OptionalType;
use crate::schema_type::advanced_type::object_type::ObjectType;
use crate::schema_type::advanced_type::tuple_type::TupleType;
use crate::schema_type::advanced_type::{AdvancedType, AdvancedTypeValidationError};
use crate::schema_type::basic_type::{BasicType, BasicTypeValidationError};
use crate::schema_type::field::Field;
use crate::schema_type::model::{
    entry_models,
    joined_descriptions,
    outcome_model,
    schema_description,
    schema_error_model,
    schema_model,
    schema_models,
    schema_verdict,
    tuple_description,
    SchemaErrorModel,
    SchemaModel,
};
use vstd::prelude::*;
use vstd::string::*;

verus! {

/// Why a value did not match a [`SchemaType`]: the error of the matcher that
/// rejected it. The nesting of the error follows the way through the schema
/// to the check that failed.
#[derive(Debug, PartialEq)]
pub enum SchemaTypeValidationError {
    BasicTypeValidationError(BasicTypeValidationError),
    AdvancedTypeValidationError(AdvancedTypeValidationError),
}

impl View for SchemaTypeValidationError {
    type V = SchemaErrorModel;

    open spec fn view(&self) -> SchemaErrorModel {
        schema_error_model(*self)
    }
}

/// A schema: a tree of matchers.
#[derive(Debug, PartialEq)]
pub enum SchemaType {
    /// A matcher without configuration.
    Basic(BasicType),
    /// A schema with a label and a hint.
    Field(Field),
    /// A matcher with configuration.
    Advanced(AdvancedType),
    /// An array whose items all match the schema inside. An empty array
    /// matches.
    Array((Box<SchemaType>,)),
    /// An array with a schema for each position.
    Tuple(Vec<SchemaType>),
    /// An object with a schema for each key.
    Object(Vec<(String, SchemaType)>),
}

impl View for SchemaType {
    type V = SchemaModel;

    open spec fn view(&self) -> SchemaModel {
        schema_model(*self)
    }
}

/// A deep copy of a list of schemas.
#[verifier::loop_isolation(false)]
pub fn clone_schemas(schemas: &Vec<SchemaType>) -> (copies: Vec<SchemaType>)
    ensures
        schema_models(copies@) == schema_models(schemas@),
    decreases schemas,
{
    let mut copies: Vec<SchemaType> = Vec::new();
    let mut i: usize = 0;
    while i < schemas.len()
        invariant
            i <= schemas.len(),
            copies@.len() == i,
            forall|j: int| 0 <= j < i ==> copies@[j]@ == schemas@[j]@,
        decreases schemas.len() - i,
    {
        copies.push(schemas[i].clone());
        i += 1;
    }
    copies
}

/// A deep copy of the entries of an object schema.
#[verifier::loop_isolation(false)]
pub fn clone_entries(entries: &Vec<(String, SchemaType)>) -> (copies: Vec<(String, SchemaType)>)
    ensures
        entry_models(copies@) == entry_models(entries@),
    decreases entries,
{
    let mut copies: Vec<(String, SchemaType)> = Vec::new();
    let mut i: usize = 0;
    while i < entries.len()
        invariant
            i <= entries.len(),
            copies@.len() == i,
            forall|j: int|
                0 <= j < i ==> copies@[j].0@ == entries@[j].0@ && copies@[j].1@ == entries@[j].1@,
        decreases entries.len() - i,
    {
        let key = entries[i].0.clone();
        let schema = entries[i].1.clone();
        copies.push((key, schema));
        i += 1;
    }
    copies
}

/// The descriptions of the schemas of a list, with a comma and a space
/// between them.
#[verifier::loop_isolation(false)]
pub fn describe_schemas(schemas: &Vec<SchemaType>) -> (text: String)
    ensures
        text@ == joined_descriptions(schema_models(schemas@), schemas.len() as int),
    decreases schemas,
{
    let ghost models = schema_models(schemas@);
    let mut text = String::new();
    let mut i: usize = 0;
    while i < schemas.len()
        invariant
            i <= schemas.len(),
            text@ == joined_descriptions(models, i as int),
        decreases schemas.len() - i,
    {
        let part = schemas[i].to_string();
        if i > 0 {
            text.append(", ");
        } else {
        }
        text.append(part.as_str());
        i += 1;
    }
    text
}

impl Clone for SchemaType {
    /// A deep copy: the copy has the model of what was copied.
    fn clone(&self) -> (copy: Self)
        ensures
            copy@ == self@,
        decreases self,
    {
        match self {
            SchemaType::Basic(kind) => SchemaType::Basic(*kind),
            SchemaType::Field(field) => SchemaType::Field(field.clone()),
            SchemaType::Advanced(advanced) => SchemaType::Advanced(advanced.clone()),
            SchemaType::Array(items) => SchemaType::Array((Box::new((*items.0).clone()),)),
            SchemaType::Tuple(items) => SchemaType::Tuple(clone_schemas(items)),
            SchemaType::Object(entries) => SchemaType::Object(clone_entries(entries)),
        }
    }
}

impl SchemaType {
    /// Checks a value against this schema.
    ///
    /// The walk through schema and value stops at the first check that
    /// fails, and the error says which one that was.
    pub fn validate(&self, value: &JsonValue) -> (outcome: Result<(), SchemaTypeValidationError>)
        ensures
            outcome_model(outcome) == schema_verdict(self@, value@),
        decreases self, 0int,
    {
        match self {
            SchemaType::Basic(kind) => match kind.validate(value) {
                Ok(_) => Ok(()),
                Err(error) => Err(SchemaTypeValidationError::BasicTypeValidationError(error)),
            },
            SchemaType::Field(field) => field.validate(value),
            SchemaType::Advanced(advanced) => match advanced.validate(value) {
                Ok(_) => Ok(()),
                Err(error) => Err(SchemaTypeValidationError::AdvancedTypeValidationError(error)),
            },
            SchemaType::Array(items) => match ArrayType::validate_items(false, &items.0, value) {
                Ok(_) => Ok(()),
                Err(error) => Err(
                    SchemaTypeValidationError::AdvancedTypeValidationError(
                        AdvancedTypeValidationError::ArrayError(error),
                    ),
                ),
            },
            SchemaType::Tuple(items) => match TupleType::validate_items(items, value) {
                Ok(_) => Ok(()),
                Err(error) => Err(
                    SchemaTypeValidationError::AdvancedTypeValidationError(
                        AdvancedTypeValidationError::TupleError(error),
                    ),
                ),
            },
            SchemaType::Object(entries) => match ObjectType::validate_entries(entries, value) {
                Ok(_) => Ok(()),
                Err(error) => Err(
                    SchemaTypeValidationError::AdvancedTypeValidationError(
                        AdvancedTypeValidationError::ObjectError(error),
                    ),
                ),
            },
        }
    }

    /// Describes this schema to a reader.
    pub fn to_string(&self) -> (text: String)
        ensures
            text@ == schema_description(self@),
        decreases self,
    {
        match self {
            SchemaType::Basic(kind) => kind.to_string(),
            SchemaType::Field(field) => field.to_string(),
            SchemaType::Advanced(advanced) => advanced.to_string(),
            SchemaType::Array(items) => {
                let mut text = "array filled with '".to_owned();
                let inner = items.0.to_string();
                text.append(inner.as_str());
                text.append("'");
                text
            },
            SchemaType::Tuple(items) => {
                let mut text = "tuple with items: ".to_owned();
                let inner = describe_schemas(items);
                text.append(inner.as_str());
                assert(text@ == tuple_description(schema_models(items@)));
                text
            },
            SchemaType::Object(_) => "object".to_owned(),
        }
    }
}

impl From<BasicType> for SchemaType {
    /// A matcher without configuration, as a schema.
    fn from(value: BasicType) -> (made: Self) {
        SchemaType::Basic(value)
    }
}

impl vstd::std_specs::convert::FromSpecImpl<BasicType> for SchemaType {
    open spec fn obeys_from_spec() -> bool {
        true
    }

    open spec fn from_spec(value: BasicType) -> Self {
        SchemaType::Basic(value)
    }
}

impl From<AdvancedType> for SchemaType {
    /// A matcher with configuration, as a schema.
    fn from(value: AdvancedType) -> (made: Self) {
        SchemaType::Advanced(value)
    }
}

impl vstd::std_specs::convert::FromSpecImpl<AdvancedType> for SchemaType {
    open spec fn obeys_from_spec() -> bool {
        true
    }

    open spec fn from_spec(value: AdvancedType) -> Self {
        SchemaType::Advanced(value)
    }
}

impl From<Field> for SchemaType {
    /// A field, as a schema.
    fn from(value: Field) -> (made: Self) {
        SchemaType::Field(value)
    }
}

impl vstd::std_specs::convert::FromSpecImpl<Field> for SchemaType {
    open spec fn obeys_from_spec() -> bool {
        true
    }

    open spec fn from_spec(value: Field) -> Self {
        SchemaType::Field(value)
    }
}

impl From<(SchemaType,)> for SchemaType {
    /// The array shorthand for an item schema.
    fn from(value: (SchemaType,)) -> (made: Self) {
        SchemaType::Array((Box::new(value.0),))
    }
}

impl vstd::std_specs::convert::FromSpecImpl<(SchemaType,)> for SchemaType {
    open spec fn obeys_from_spec() -> bool {
        true
    }

    open spec fn from_spec(value: (SchemaType,)) -> Self {
        SchemaType::Array((Box::new(value.0),))
    }
}

impl From<Vec<SchemaType>> for SchemaType {
    /// The tuple shorthand for the schemas of its positions.
    fn from(value: Vec<SchemaType>) -> (made: Self) {
        SchemaType::Tuple(value)
    }
}

impl vstd::std_specs::convert::FromSpecImpl<Vec<SchemaType>> for SchemaType {
    open spec fn obeys_from_spec() -> bool {
        true
    }

    open spec fn from_spec(value: Vec<SchemaType>) -> Self {
        SchemaType::Tuple(value)
    }
}

impl From<Vec<(String, SchemaType)>> for SchemaType {
    /// The object shorthand for its entries.
    fn from(value: Vec<(String, SchemaType)>) -> (made: Self) {
        SchemaType::Object(value)
    }
}

impl vstd::std_specs::convert::FromSpecImpl<Vec<(String, SchemaType)>> for SchemaType {
    open spec fn obeys_from_spec() -> bool {
        true
    }

    open spec fn from_spec(value: Vec<(String, SchemaType)>) -> Self {
        SchemaType::Object(value)
    }
}

impl From<AdvancedStringType> for SchemaType {
    /// A string matcher, as a schema.
    fn from(value: AdvancedStringType) -> (made: Self) {
        SchemaType::Advanced(AdvancedType::String(value))
    }
}

impl vstd::std_specs::convert::FromSpecImpl<AdvancedStringType> for SchemaType {
    open spec fn obeys_from_spec() -> bool {
        true
    }

    open spec fn from_spec(value: AdvancedStringType) -> Self {
        SchemaType::Advanced(AdvancedType::String(value))
    }
}

impl From<AnyOfType> for SchemaType {
    /// A union, as a schema.
    fn from(value: AnyOfType) -> (made: Self) {
        SchemaType::Advanced(AdvancedType::AnyOf(value))
    }
}

impl vstd::std_specs::convert::FromSpecImpl<AnyOfType> for SchemaType {
    open spec fn obeys_from_spec() -> bool {
        true
    }

    open spec fn from_spec(value: AnyOfType) -> Self {
        SchemaType::Advanced(AdvancedType::AnyOf(value))
    }
}

impl From<TupleType> for SchemaType {
    /// A tuple, as a schema.
    fn from(value: TupleType) -> (made: Self) {
        SchemaType::Advanced(AdvancedType::Tuple(value))
    }
}

impl vstd::std_specs::convert::FromSpecImpl<TupleType> for SchemaType {
    open spec fn obeys_from_spec() -> bool {
        true
    }

    open spec fn from_spec(value: TupleType) -> Self {
        SchemaType::Advanced(AdvancedType::Tuple(value))
    }
}

impl From<ArrayType> for SchemaType {
    /// An array matcher, as a schema.
    fn from(value: ArrayType) -> (made: Self) {
        SchemaType::Advanced(AdvancedType::Array(value))
    }
}

impl vstd::std_specs::convert::FromSpecImpl<ArrayType> for SchemaType {
    open spec fn obeys_from_spec() -> bool {
        true
    }

    open spec fn from_spec(value: ArrayType) -> Self {
        SchemaType::Advanced(AdvancedType::Array(value))
    }
}

impl From<ObjectType> for SchemaType {
    /// An object matcher, as a schema.
    fn from(value: ObjectType) -> (made: Self) {
        SchemaType::Advanced(AdvancedType::Object(value))
    }
}

impl vstd::std_specs::convert::FromSpecImpl<ObjectType> for SchemaType {
    open spec fn obeys_from_spec() -> bool {
        true
    }

    open spec fn from_spec(value: ObjectType) -> Self {
        SchemaType::Advanced(AdvancedType::Object(value))
    }
}

impl From<OptionalType> for SchemaType {
    /// An optional schema, as a schema.
    fn from(value: OptionalType) -> (made: Self) {
        SchemaType::Advanced(AdvancedType::Optional(value))
    }
}

impl vstd::std_specs::convert::FromSpecImpl<OptionalType> for SchemaType {
    open spec fn obeys_from_spec() -> bool {
        true
    }

    open spec fn from_spec(value: OptionalType) -> Self {
        SchemaType::Advanced(AdvancedType::Optional(value))
    }
}

impl From<BasicTypeValidationError> for SchemaTypeValidationError {
    /// The error of a matcher without configuration, as the error of a schema.
    fn from(value: BasicTypeValidationError) -> (made: Self) {
        SchemaTypeValidationError::BasicTypeValidationError(value)
    }
}

impl vstd::std_specs::convert::FromSpecImpl<BasicTypeValidationError> for SchemaTypeValidationError {
    open spec fn obeys_from_spec() -> bool {
        true
    }

    open spec fn from_spec(value: BasicTypeValidationError) -> Self {
        SchemaTypeValidationError::BasicTypeValidationError(value)
    }
}

impl From<AdvancedTypeValidationError> for SchemaTypeValidationError {
    /// The error of a matcher with configuration, as the error of a schema.
    fn from(value: AdvancedTypeValidationError) -> (made: Self) {
        SchemaTypeValidationError::AdvancedTypeValidationError(value)
    }
}

impl vstd::std_specs::convert::FromSpecImpl<AdvancedTypeValidationError> for SchemaTypeValidationError {
    open spec fn obeys_from_spec() -> bool {
        true
    }

    open spec fn from_spec(value: AdvancedTypeValidationError) -> Self {
        SchemaTypeValidationError::AdvancedTypeValidationError(value)
    }
}

} // verus!
