//! A union of schemas.
use crate::json::JsonValue;
use crate::schema_type::model::{
    any_of_description,
    any_of_error_message,
    any_of_verdict,
    outcome_model,
    schema_models,
    schema_verdict,
    SchemaModel,
};
use crate::schema_type::{clone_schemas, describe_schemas, SchemaType};
use vstd::prelude::*;
use vstd::string::*;

verus! {

/// No variant of a union matched: the error holds all the variants.
#[derive(Debug, PartialEq)]
pub struct AnyOfTypeError(pub Vec<SchemaType>);

impl View for AnyOfTypeError {
    type V = Seq<SchemaModel>;

    open spec fn view(&self) -> Seq<SchemaModel> {
        schema_models(self.0@)
    }
}

/// Matches a value that any of its variants matches.
#[derive(Debug, PartialEq)]
pub struct AnyOfType {
    pub variants: Vec<SchemaType>,
}

impl View for AnyOfType {
    type V = Seq<SchemaModel>;

    open spec fn view(&self) -> Seq<SchemaModel> {
        schema_models(self.variants@)
    }
}

impl Clone for AnyOfType {
    fn clone(&self) -> (copy: Self)
        ensures
            copy@ == self@,
        decreases self,
    {
        AnyOfType { variants: clone_schemas(&self.variants) }
    }
}

impl AnyOfType {
    /// Checks a value against the variants in order. The first that accepts
    /// it ends the check.
    pub fn validate(&self, value: &JsonValue) -> (outcome: Result<(), AnyOfTypeError>)
        ensures
            outcome_model(outcome) == any_of_verdict(self@, value@),
        decreases self,
    {
        let mut i: usize = 0;
        while i < self.variants.len()
            invariant
                i <= self.variants.len(),
                forall|j: int| 0 <= j < i ==> schema_verdict(self@[j], value@) is Err,
            decreases self.variants.len() - i,
        {
            if self.variants[i].validate(value).is_ok() {
                assert(schema_verdict(self@[i as int], value@) is Ok);
                return Ok(());
            }
            i += 1;
        }
        Err(AnyOfTypeError(clone_schemas(&self.variants)))
    }

    /// Describes this union to a reader.
    pub fn to_string(&self) -> (text: String)
        ensures
            text@ == any_of_description(self@),
        decreases self,
    {
        let mut text = "any of: ".to_owned();
        let inner = describe_schemas(&self.variants);
        text.append(inner.as_str());
        text
    }
}

impl AnyOfTypeError {
    /// The message of this error: it names all the variants.
    pub fn to_string(&self) -> (text: String)
        ensures
            text@ == any_of_error_message(self@),
    {
        let mut text = "No matching variant. Expected one of: ".to_owned();
        let inner = describe_schemas(&self.0);
        text.append(inner.as_str());
        text
    }
}

impl<const U: usize> From<[SchemaType; U]> for AnyOfType {
    /// A union of these variants, in this order.
    fn from(value: [SchemaType; U]) -> (made: Self)
        ensures
            made@ == schema_models(value@),
    {
        let mut variants: Vec<SchemaType> = Vec::new();
        let mut i: usize = 0;
        while i < U
            invariant
                i <= U,
                variants@.len() == i,
                forall|j: int| 0 <= j < i ==> variants@[j]@ == value@[j]@,
            decreases U - i,
        {
            variants.push(value[i].clone());
            i += 1;
        }
        AnyOfType { variants }
    }
}

impl<const U: usize> vstd::std_specs::convert::FromSpecImpl<[SchemaType; U]> for AnyOfType {
    open spec fn obeys_from_spec() -> bool {
        false
    }

    open spec fn from_spec(value: [SchemaType; U]) -> Self {
        arbitrary()
    }
}

} // verus!
