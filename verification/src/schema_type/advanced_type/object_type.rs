//! An object with a schema for each of its keys.
use crate::json::{
    json_member_models,
    member_position,
    member_position_from,
    members_with,
    JsonModel,
    JsonValue,
};
use crate::schema_type::advanced_type::AdvancedType;
use crate::schema_type::model::{
    entry_models,
    is_optional,
    object_error_model,
    object_verdict,
    object_verdict_from,
    outcome_model,
    ObjectErrorModel,
    SchemaModel,
};
use crate::schema_type::{clone_entries, SchemaType, SchemaTypeValidationError};
use vstd::prelude::*;
use vstd::string::*;

verus! {

/// Why a value did not match an [`ObjectType`].
#[derive(Debug, PartialEq)]
pub enum ObjectTypeError {
    /// The value is not an object.
    NotAnObject,
    /// The object lacks a key that the schema requires.
    MissingObjectKey(String),
    /// The value under a key did not match the schema of that key.
    SchemaTypeValidationError(Box<SchemaTypeValidationError>),
}

impl View for ObjectTypeError {
    type V = ObjectErrorModel;

    open spec fn view(&self) -> ObjectErrorModel {
        object_error_model(*self)
    }
}

/// Matches an object that has the given keys, each with a value that matches
/// the schema of the key. Other keys of the object are not looked at.
///
/// The entries are held and visited in order. Entries that are made with
/// [`ObjectType::insert`], or read from a literal without a key that occurs
/// twice, hold no key twice.
#[derive(Debug, PartialEq)]
pub struct ObjectType {
    pub object: Vec<(String, SchemaType)>,
}

impl View for ObjectType {
    type V = Seq<(Seq<char>, SchemaModel)>;

    open spec fn view(&self) -> Seq<(Seq<char>, SchemaModel)> {
        entry_models(self.object@)
    }
}

impl Clone for ObjectType {
    fn clone(&self) -> (copy: Self)
        ensures
            copy@ == self@,
        decreases self,
    {
        ObjectType { object: clone_entries(&self.object) }
    }
}

impl ObjectType {
    /// An object matcher without entries: it accepts every object.
    pub fn new() -> (made: Self)
        ensures
            made@ == Seq::<(Seq<char>, SchemaModel)>::empty(),
    {
        ObjectType { object: Vec::new() }
    }

    /// Puts a schema under a key: in the place of the first entry with that
    /// key, or at the end where there is none. Entries made this way never
    /// hold a key twice.
    pub fn insert(&mut self, key: String, schema: SchemaType)
        ensures
            final(self)@ == members_with(old(self)@, key@, schema@),
    {
        let ghost before = self.object@;
        let ghost models = entry_models(before);
        let mut i: usize = 0;
        while i < self.object.len()
            invariant
                i <= self.object.len(),
                self.object@ == before,
                models == entry_models(before),
                models == old(self)@,
                member_position(models, key@) == member_position_from(models, key@, i as int),
            decreases self.object.len() - i,
        {
            if self.object[i].0 == key {
                self.object[i] = (key, schema);
                return;
            }
            i += 1;
        }
        self.object.push((key, schema));
    }

    /// Tells whether a schema is an optional one.
    pub fn schema_is_optional(schema: &SchemaType) -> (optional: bool)
        ensures
            optional == is_optional(schema@),
    {
        match schema {
            SchemaType::Advanced(advanced) => {
                assert(schema@ == SchemaModel::Advanced(advanced@));
                match advanced {
                    AdvancedType::Optional(_) => true,
                    _ => false,
                }
            },
            _ => false,
        }
    }

    /// Checks a value against the entries of an object schema, in order.
    pub fn validate_entries(entries: &Vec<(String, SchemaType)>, value: &JsonValue) -> (outcome:
        Result<(), ObjectTypeError>)
        ensures
            outcome_model(outcome) == object_verdict(entry_models(entries@), value@),
        decreases entries,
    {
        match value {
            JsonValue::Object(members) => {
                let ghost schemas = entry_models(entries@);
                let ghost models = json_member_models(members@);
                let mut i: usize = 0;
                while i < entries.len()
                    invariant
                        i <= entries.len(),
                        schemas == entry_models(entries@),
                        value@ == JsonModel::Object(models),
                        object_verdict_from(schemas, models, 0) == object_verdict_from(
                            schemas,
                            models,
                            i as int,
                        ),
                    decreases entries.len() - i,
                {
                    match value.get(&entries[i].0) {
                        None => {
                            if Self::schema_is_optional(&entries[i].1) {
                                return Ok(());
                            }
                            return Err(ObjectTypeError::MissingObjectKey(entries[i].0.clone()));
                        },
                        Some(found) => match entries[i].1.validate(found) {
                            Ok(_) => {},
                            Err(error) => {
                                return Err(
                                    ObjectTypeError::SchemaTypeValidationError(Box::new(error)),
                                );
                            },
                        },
                    }
                    i += 1;
                }
                Ok(())
            },
            _ => Err(ObjectTypeError::NotAnObject),
        }
    }

    /// Checks a value against this matcher.
    pub fn validate(&self, value: &JsonValue) -> (outcome: Result<(), ObjectTypeError>)
        ensures
            outcome_model(outcome) == object_verdict(self@, value@),
        decreases self,
    {
        Self::validate_entries(&self.object, value)
    }

    /// Describes this matcher to a reader.
    pub fn to_string(&self) -> (text: String)
        ensures
            text@ == "object"@,
    {
        "object".to_owned()
    }
}

impl From<SchemaTypeValidationError> for ObjectTypeError {
    /// The error of a value under a key, boxed.
    fn from(value: SchemaTypeValidationError) -> (made: Self) {
        ObjectTypeError::SchemaTypeValidationError(Box::new(value))
    }
}

impl vstd::std_specs::convert::FromSpecImpl<SchemaTypeValidationError> for ObjectTypeError {
    open spec fn obeys_from_spec() -> bool {
        true
    }

    open spec fn from_spec(value: SchemaTypeValidationError) -> Self {
        ObjectTypeError::SchemaTypeValidationError(Box::new(value))
    }
}

impl From<Vec<(String, SchemaType)>> for ObjectType {
    /// An object matcher with these entries.
    fn from(value: Vec<(String, SchemaType)>) -> (made: Self) {
        ObjectType { object: value }
    }
}

impl vstd::std_specs::convert::FromSpecImpl<Vec<(String, SchemaType)>> for ObjectType {
    open spec fn obeys_from_spec() -> bool {
        true
    }

    open spec fn from_spec(value: Vec<(String, SchemaType)>) -> Self {
        ObjectType { object: value }
    }
}

} // verus!
