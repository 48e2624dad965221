//! One change in the history of a schema.
use crate::schema_type::model::SchemaModel;
use crate::schema_type::SchemaType;
use vstd::prelude::*;

verus! {

/// A change of a schema: the schema that is in force after it.
#[derive(Debug, PartialEq)]
pub struct SchemaChange {
    pub new_schema: SchemaType,
}

impl View for SchemaChange {
    type V = SchemaModel;

    open spec fn view(&self) -> SchemaModel {
        self.new_schema@
    }
}

} // verus!
