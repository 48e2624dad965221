//! A schema with a label and a hint for those who fill a value in.
use crate::json::JsonValue;
use crate::schema_type::model::{
    outcome_model,
    schema_description,
    schema_model,
    schema_verdict,
    FieldModel,
};
use crate::schema_type::{SchemaType, SchemaTypeValidationError};
use vstd::prelude::*;
use vstd::string::*;

verus! {

/// A schema with presentation metadata. The metadata plays no part in
/// validation.
#[derive(Debug, PartialEq)]
pub struct Field {
    pub field_type: Box<SchemaType>,
    pub label: String,
    pub hint: Option<String>,
}

impl View for Field {
    type V = FieldModel;

    open spec fn view(&self) -> FieldModel {
        FieldModel {
            field_type: Box::new(schema_model(*self.field_type)),
            label: self.label@,
            hint: match self.hint {
                Some(hint) => Some(hint@),
                None => None,
            },
        }
    }
}

impl Clone for Field {
    fn clone(&self) -> (copy: Self)
        ensures
            copy@ == self@,
        decreases self,
    {
        Field {
            field_type: Box::new((*self.field_type).clone()),
            label: self.label.clone(),
            hint: match &self.hint {
                Some(hint) => Some(hint.clone()),
                None => None,
            },
        }
    }
}

impl Field {
    /// Checks a value against the schema of this field.
    pub fn validate(&self, value: &JsonValue) -> (outcome: Result<(), SchemaTypeValidationError>)
        ensures
            outcome_model(outcome) == schema_verdict(*self@.field_type, value@),
        decreases self,
    {
        self.field_type.validate(value)
    }

    /// Describes this field to a reader.
    pub fn to_string(&self) -> (text: String)
        ensures
            text@ == "field with "@ + schema_description(*self@.field_type),
        decreases self,
    {
        let mut text = "field with ".to_owned();
        let inner = self.field_type.to_string();
        text.append(inner.as_str());
        text
    }
}

} // verus!
