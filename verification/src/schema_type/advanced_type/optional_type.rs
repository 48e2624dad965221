//! A schema that `null` satisfies too.
use crate::json::JsonValue;
use crate::schema_type::model::{
    optional_verdict,
    outcome_model,
    schema_description,
    schema_model,
    SchemaModel,
};
use crate::schema_type::{SchemaType, SchemaTypeValidationError};
use vstd::prelude::*;
use vstd::string::*;

verus! {

/// Matches `null`, and whatever the schema inside matches. An object schema
/// treats a missing key with an optional schema as no failure.
#[derive(Debug, PartialEq)]
pub struct OptionalType {
    /// The schema of a value that is not `null`.
    pub kind: Box<SchemaType>,
}

impl View for OptionalType {
    type V = SchemaModel;

    open spec fn view(&self) -> SchemaModel {
        schema_model(*self.kind)
    }
}

impl Clone for OptionalType {
    fn clone(&self) -> (copy: Self)
        ensures
            copy@ == self@,
        decreases self,
    {
        OptionalType { kind: Box::new((*self.kind).clone()) }
    }
}

impl OptionalType {
    /// Checks a value against this matcher. An error of the schema inside
    /// is handed on as it is.
    pub fn validate(&self, value: &JsonValue) -> (outcome: Result<(), SchemaTypeValidationError>)
        ensures
            outcome_model(outcome) == optional_verdict(self@, value@),
        decreases self,
    {
        match value {
            JsonValue::Null => Ok(()),
            _ => self.kind.validate(value),
        }
    }

    /// Describes this matcher to a reader.
    pub fn to_string(&self) -> (text: String)
        ensures
            text@ == "optional "@ + schema_description(self@),
        decreases self,
    {
        let mut text = "optional ".to_owned();
        let inner = self.kind.to_string();
        text.append(inner.as_str());
        text
    }
}

impl From<SchemaType> for OptionalType {
    /// An optional schema around this schema.
    fn from(value: SchemaType) -> (made: Self) {
        OptionalType { kind: Box::new(value) }
    }
}

impl vstd::std_specs::convert::FromSpecImpl<SchemaType> for OptionalType {
    open spec fn obeys_from_spec() -> bool {
        true
    }

    open spec fn from_spec(value: SchemaType) -> Self {
        OptionalType { kind: Box::new(value) }
    }
}

impl From<Box<SchemaType>> for OptionalType {
    /// An optional schema around this schema.
    fn from(value: Box<SchemaType>) -> (made: Self) {
        OptionalType { kind: value }
    }
}

impl vstd::std_specs::convert::FromSpecImpl<Box<SchemaType>> for OptionalType {
    open spec fn obeys_from_spec() -> bool {
        true
    }

    open spec fn from_spec(value: Box<SchemaType>) -> Self {
        OptionalType { kind: value }
    }
}

} // verus!
