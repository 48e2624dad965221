//! A schema with the history of its changes.
pub mod schema_change;

use crate::schema::schema_change::SchemaChange;
use crate::schema_type::model::SchemaModel;
use crate::schema_type::SchemaType;
use vstd::prelude::*;

verus! {

/// Why a schema could not be used.
#[derive(Debug, Clone, Copy, PartialEq, Eq)]
pub enum SchemaValidationError {
    InvalidSchemaValue,
}

/// A schema in all its versions: the first one, and the changes made to it
/// since. The version counts the changes.
#[derive(Debug, PartialEq)]
pub struct Schema {
    version: u32,
    initial: SchemaType,
    changes: Vec<SchemaChange>,
}

/// The model of a [`Schema`].
pub struct SchemaHistory {
    pub version: u32,
    pub initial: SchemaModel,
    /// The schema that each change brought, oldest first.
    pub changes: Seq<SchemaModel>,
}

/// The schema that each change of a list brought, in order.
pub open spec fn change_models(changes: Seq<SchemaChange>) -> Seq<SchemaModel> {
    Seq::new(changes.len(), |i: int| changes[i]@)
}

impl View for Schema {
    type V = SchemaHistory;

    closed spec fn view(&self) -> SchemaHistory {
        SchemaHistory {
            version: self.version,
            initial: self.initial@,
            changes: change_models(self.changes@),
        }
    }
}

impl Schema {
    /// Records a change: the version goes up by one and the change comes
    /// last in the history.
    pub fn add_change(&mut self, change: SchemaChange)
        requires
            old(self)@.version < u32::MAX,
        ensures
            final(self)@.version == old(self)@.version + 1,
            final(self)@.initial == old(self)@.initial,
            final(self)@.changes == old(self)@.changes.push(change@),
    {
        self.version += 1;
        self.changes.push(change);
    }

    /// Records a change where the version can still go up, and tells
    /// whether it did; where it cannot, nothing changes.
    pub fn try_add_change(&mut self, change: SchemaChange) -> (added: bool)
        ensures
            added == (old(self)@.version < u32::MAX),
            added ==> final(self)@.version == old(self)@.version + 1 && final(self)@.initial
                == old(self)@.initial && final(self)@.changes == old(self)@.changes.push(change@),
            !added ==> final(self)@ == old(self)@,
    {
        if self.version < u32::MAX {
            self.add_change(change);
            true
        } else {
            false
        }
    }

    /// The number of changes made to the first schema.
    pub fn version(&self) -> (version: u32)
        ensures
            version == self@.version,
    {
        self.version
    }

    /// The first schema.
    pub fn initial(&self) -> (initial: &SchemaType)
        ensures
            initial@ == self@.initial,
    {
        &self.initial
    }

    /// The schema in force: that of the last change, or the first schema
    /// where nothing was changed.
    pub fn current(&self) -> (current: &SchemaType)
        ensures
            current@ == (if self@.changes.len() == 0 {
                self@.initial
            } else {
                self@.changes.last()
            }),
    {
        if self.changes.len() == 0 {
            &self.initial
        } else {
            &self.changes[self.changes.len() - 1].new_schema
        }
    }
}

impl From<SchemaType> for Schema {
    /// A schema without changes, at version 0.
    fn from(value: SchemaType) -> (made: Self)
        ensures
            made@ == (SchemaHistory { version: 0, initial: value@, changes: Seq::empty() }),
    {
        let made = Schema { version: 0, initial: value, changes: Vec::new() };
        proof {
            assert(change_models(made.changes@) =~= Seq::<SchemaModel>::empty());
        }
        made
    }
}

impl vstd::std_specs::convert::FromSpecImpl<SchemaType> for Schema {
    open spec fn obeys_from_spec() -> bool {
        false
    }

    open spec fn from_spec(value: SchemaType) -> Self {
        arbitrary()
    }
}

} // verus!
