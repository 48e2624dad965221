//! A fixed-length array with a schema for each position.
use crate::json::{json_models, JsonModel, JsonValue};
use crate::schema_type::model::{
    outcome_model,
    schema_models,
    tuple_description,
    tuple_error_model,
    tuple_verdict,
    tuple_verdict_from,
    SchemaModel,
    TupleErrorModel,
};
use crate::schema_type::{clone_schemas, describe_schemas, SchemaType, SchemaTypeValidationError};
use vstd::prelude::*;
use vstd::string::*;

verus! {

/// Why a value did not match a [`TupleType`].
#[derive(Debug, PartialEq)]
pub enum TupleError {
    /// The value is not an array.
    NotAnArray,
    /// The array has another length than the tuple: the number of items
    /// found, then the number expected.
    IncorrectLength(usize, usize),
    /// An item did not match the schema of its position.
    SchemaTypeValidationError(Box<SchemaTypeValidationError>),
}

impl View for TupleError {
    type V = TupleErrorModel;

    open spec fn view(&self) -> TupleErrorModel {
        tuple_error_model(*self)
    }
}

/// Matches an array of a fixed length, item by item.
#[derive(Debug, PartialEq)]
pub struct TupleType {
    pub items: Vec<SchemaType>,
}

impl View for TupleType {
    type V = Seq<SchemaModel>;

    open spec fn view(&self) -> Seq<SchemaModel> {
        schema_models(self.items@)
    }
}

impl Clone for TupleType {
    fn clone(&self) -> (copy: Self)
        ensures
            copy@ == self@,
        decreases self,
    {
        TupleType { items: clone_schemas(&self.items) }
    }
}

impl TupleType {
    /// Checks a value against the schemas of a tuple's positions.
    pub fn validate_items(items: &Vec<SchemaType>, value: &JsonValue) -> (outcome: Result<
        (),
        TupleError,
    >)
        ensures
            outcome_model(outcome) == tuple_verdict(schema_models(items@), value@),
        decreases items,
    {
        match value {
            JsonValue::Array(values) => {
                if values.len() != items.len() {
                    return Err(TupleError::IncorrectLength(values.len(), items.len()));
                }
                let ghost schemas = schema_models(items@);
                let ghost models = json_models(values@);
                let mut i: usize = 0;
                while i < items.len()
                    invariant
                        i <= items.len(),
                        items.len() == values.len(),
                        schemas == schema_models(items@),
                        models == json_models(values@),
                        value@ == JsonModel::Array(models),
                        tuple_verdict_from(schemas, models, 0) == tuple_verdict_from(
                            schemas,
                            models,
                            i as int,
                        ),
                    decreases items.len() - i,
                {
                    match items[i].validate(&values[i]) {
                        Ok(_) => {},
                        Err(error) => {
                            return Err(TupleError::SchemaTypeValidationError(Box::new(error)));
                        },
                    }
                    i += 1;
                }
                Ok(())
            },
            _ => Err(TupleError::NotAnArray),
        }
    }

    /// Checks a value against this tuple.
    pub fn validate(&self, value: &JsonValue) -> (outcome: Result<(), TupleError>)
        ensures
            outcome_model(outcome) == tuple_verdict(self@, value@),
        decreases self,
    {
        Self::validate_items(&self.items, value)
    }

    /// Describes this tuple to a reader.
    pub fn to_string(&self) -> (text: String)
        ensures
            text@ == tuple_description(self@),
        decreases self,
    {
        let mut text = "tuple with items: ".to_owned();
        let inner = describe_schemas(&self.items);
        text.append(inner.as_str());
        text
    }
}

impl From<SchemaTypeValidationError> for TupleError {
    /// The error of an item, boxed.
    fn from(value: SchemaTypeValidationError) -> (made: Self) {
        TupleError::SchemaTypeValidationError(Box::new(value))
    }
}

impl vstd::std_specs::convert::FromSpecImpl<SchemaTypeValidationError> for TupleError {
    open spec fn obeys_from_spec() -> bool {
        true
    }

    open spec fn from_spec(value: SchemaTypeValidationError) -> Self {
        TupleError::SchemaTypeValidationError(Box::new(value))
    }
}

impl<const U: usize> From<[SchemaType; U]> for TupleType {
    /// A tuple of these positions, in this order.
    fn from(value: [SchemaType; U]) -> (made: Self)
        ensures
            made@ == schema_models(value@),
    {
        let mut items: Vec<SchemaType> = Vec::new();
        let mut i: usize = 0;
        while i < U
            invariant
                i <= U,
                items@.len() == i,
                forall|j: int| 0 <= j < i ==> items@[j]@ == value@[j]@,
            decreases U - i,
        {
            items.push(value[i].clone());
            i += 1;
        }
        TupleType { items }
    }
}

impl<const U: usize> vstd::std_specs::convert::FromSpecImpl<[SchemaType; U]> for TupleType {
    open spec fn obeys_from_spec() -> bool {
        false
    }

    open spec fn from_spec(value: [SchemaType; U]) -> Self {
        arbitrary()
    }
}

} // verus!
