//! The mathematical model of schemas and of validation.
//!
//! A schema tree is modelled by a [`SchemaModel`], an error by the error
//! model of its type. [`schema_verdict`] says, for every schema and every
//! value, what validation returns: `Ok`, or the error of the first check
//! that fails on the way through schema and value.
use crate::json::{member_lookup, JsonModel};
use crate::schema_type::advanced_type::advanced_string_type::{
    string_type_description,
    AdvancedStringType,
    StringValidationError,
};
use crate::schema_type::advanced_type::array_type::ArrayTypeError;
use crate::schema_type::advanced_type::object_type::ObjectTypeError;
use crate::schema_type::advanced_type::tuple_type::TupleError;
use crate::schema_type::advanced_type::{AdvancedType, AdvancedTypeValidationError};
use crate::schema_type::basic_type::{basic_type_name, basic_verdict, BasicErrorModel, BasicType};
use crate::schema_type::{SchemaType, SchemaTypeValidationError};
use vstd::prelude::*;

verus! {

/// The model of a schema.
pub enum SchemaModel {
    Basic(BasicType),
    Field(FieldModel),
    Advanced(AdvancedModel),
    /// The shorthand for an array: the schema of every item.
    Array(Box<SchemaModel>),
    /// The shorthand for a tuple: the schema of each position.
    Tuple(Seq<SchemaModel>),
    /// The shorthand for an object: its entries, each a key and a schema.
    Object(Seq<(Seq<char>, SchemaModel)>),
}

/// The model of a configurable matcher.
pub enum AdvancedModel {
    String(AdvancedStringType),
    AnyOf(Seq<SchemaModel>),
    Tuple(Seq<SchemaModel>),
    Array(ArrayModel),
    Object(Seq<(Seq<char>, SchemaModel)>),
    Optional(Box<SchemaModel>),
}

/// The model of an array matcher.
pub struct ArrayModel {
    pub require_filled: bool,
    pub items: Box<SchemaModel>,
}

/// The model of a field: a schema with a label and a hint.
pub struct FieldModel {
    pub field_type: Box<SchemaModel>,
    pub label: Seq<char>,
    pub hint: Option<Seq<char>>,
}

/// The model of a tuple matcher's error.
pub enum TupleErrorModel {
    NotAnArray,
    /// The number of items found, then the number expected.
    IncorrectLength(usize, usize),
    Schema(Box<SchemaErrorModel>),
}

/// The model of an array matcher's error.
pub enum ArrayErrorModel {
    NotAnArray,
    RequireFilled,
    Schema(Box<SchemaErrorModel>),
}

/// The model of an object matcher's error.
pub enum ObjectErrorModel {
    NotAnObject,
    MissingObjectKey(Seq<char>),
    Schema(Box<SchemaErrorModel>),
}

/// The model of a configurable matcher's error.
pub enum AdvancedErrorModel {
    String(StringValidationError),
    /// No variant matched: all the variants.
    AnyOf(Seq<SchemaModel>),
    Tuple(TupleErrorModel),
    Array(ArrayErrorModel),
    Object(ObjectErrorModel),
    Schema(Box<SchemaErrorModel>),
}

/// The model of a schema's error.
pub enum SchemaErrorModel {
    Basic(BasicErrorModel),
    Advanced(AdvancedErrorModel),
}

/// The model of an outcome: `Ok` stays `Ok`, an error becomes its model.
pub open spec fn outcome_model<E: View>(outcome: Result<(), E>) -> Result<(), E::V> {
    match outcome {
        Ok(_) => Ok(()),
        Err(error) => Err(error@),
    }
}

/// The model of each schema of a list, in order.
pub open spec fn schema_models(schemas: Seq<SchemaType>) -> Seq<SchemaModel>
    decreases schemas, 0int,
{
    Seq::new(
        schemas.len(),
        |i: int|
            if 0 <= i < schemas.len() {
                schema_model(schemas[i])
            } else {
                SchemaModel::Basic(BasicType::Any)
            },
    )
}

/// The model of each entry of an object schema, in order.
pub open spec fn entry_models(entries: Seq<(String, SchemaType)>) -> Seq<(Seq<char>, SchemaModel)>
    decreases entries, 0int,
{
    Seq::new(
        entries.len(),
        |i: int|
            if 0 <= i < entries.len() {
                (entries[i].0@, schema_model(entries[i].1))
            } else {
                (Seq::empty(), SchemaModel::Basic(BasicType::Any))
            },
    )
}

/// The model of a configurable matcher.
pub open spec fn advanced_model(advanced: AdvancedType) -> AdvancedModel
    decreases advanced, 1int,
{
    match advanced {
        AdvancedType::String(config) => AdvancedModel::String(config),
        AdvancedType::AnyOf(any_of) => AdvancedModel::AnyOf(schema_models(any_of.variants@)),
        AdvancedType::Tuple(tuple) => AdvancedModel::Tuple(schema_models(tuple.items@)),
        AdvancedType::Array(array) => AdvancedModel::Array(
            ArrayModel {
                require_filled: array.require_filled,
                items: Box::new(schema_model(*array.items)),
            },
        ),
        AdvancedType::Object(object) => AdvancedModel::Object(entry_models(object.object@)),
        AdvancedType::Optional(optional) => AdvancedModel::Optional(
            Box::new(schema_model(*optional.kind)),
        ),
    }
}

/// The model of a schema.
pub open spec fn schema_model(schema: SchemaType) -> SchemaModel
    decreases schema, 1int,
{
    match schema {
        SchemaType::Basic(kind) => SchemaModel::Basic(kind),
        SchemaType::Field(field) => SchemaModel::Field(
            FieldModel {
                field_type: Box::new(schema_model(*field.field_type)),
                label: field.label@,
                hint: match field.hint {
                    Some(hint) => Some(hint@),
                    None => None,
                },
            },
        ),
        SchemaType::Advanced(advanced) => SchemaModel::Advanced(advanced_model(advanced)),
        SchemaType::Array(items) => SchemaModel::Array(Box::new(schema_model(*items.0))),
        SchemaType::Tuple(items) => SchemaModel::Tuple(schema_models(items@)),
        SchemaType::Object(entries) => SchemaModel::Object(entry_models(entries@)),
    }
}

/// The model of a tuple matcher's error.
pub open spec fn tuple_error_model(error: TupleError) -> TupleErrorModel
    decreases error,
{
    match error {
        TupleError::NotAnArray => TupleErrorModel::NotAnArray,
        TupleError::IncorrectLength(found, expected) => TupleErrorModel::IncorrectLength(
            found,
            expected,
        ),
        TupleError::SchemaTypeValidationError(inner) => TupleErrorModel::Schema(
            Box::new(schema_error_model(*inner)),
        ),
    }
}

/// The model of an array matcher's error.
pub open spec fn array_error_model(error: ArrayTypeError) -> ArrayErrorModel
    decreases error,
{
    match error {
        ArrayTypeError::NotAnArray => ArrayErrorModel::NotAnArray,
        ArrayTypeError::RequireFilled => ArrayErrorModel::RequireFilled,
        ArrayTypeError::SchemaTypeValidationError(inner) => ArrayErrorModel::Schema(
            Box::new(schema_error_model(*inner)),
        ),
    }
}

/// The model of an object matcher's error.
pub open spec fn object_error_model(error: ObjectTypeError) -> ObjectErrorModel
    decreases error,
{
    match error {
        ObjectTypeError::NotAnObject => ObjectErrorModel::NotAnObject,
        ObjectTypeError::MissingObjectKey(key) => ObjectErrorModel::MissingObjectKey(key@),
        ObjectTypeError::SchemaTypeValidationError(inner) => ObjectErrorModel::Schema(
            Box::new(schema_error_model(*inner)),
        ),
    }
}

/// The model of a configurable matcher's error.
pub open spec fn advanced_error_model(error: AdvancedTypeValidationError) -> AdvancedErrorModel
    decreases error,
{
    match error {
        AdvancedTypeValidationError::StringValidationError(inner) => AdvancedErrorModel::String(
            inner,
        ),
        AdvancedTypeValidationError::AnyOfError(inner) => AdvancedErrorModel::AnyOf(
            schema_models(inner.0@),
        ),
        AdvancedTypeValidationError::TupleError(inner) => AdvancedErrorModel::Tuple(
            tuple_error_model(inner),
        ),
        AdvancedTypeValidationError::ArrayError(inner) => AdvancedErrorModel::Array(
            array_error_model(inner),
        ),
        AdvancedTypeValidationError::ObjectError(inner) => AdvancedErrorModel::Object(
            object_error_model(inner),
        ),
        AdvancedTypeValidationError::SchemaTypeValidationError(inner) => AdvancedErrorModel::Schema(
            Box::new(schema_error_model(*inner)),
        ),
    }
}

/// The model of a schema's error.
pub open spec fn schema_error_model(error: SchemaTypeValidationError) -> SchemaErrorModel
    decreases error,
{
    match error {
        SchemaTypeValidationError::BasicTypeValidationError(inner) => SchemaErrorModel::Basic(
            inner@,
        ),
        SchemaTypeValidationError::AdvancedTypeValidationError(inner) => SchemaErrorModel::Advanced(
            advanced_error_model(inner),
        ),
    }
}

/// The length of a text in bytes of UTF-8, as the machine counts it.
pub open spec fn byte_length(text: Seq<char>) -> usize {
    vstd::utf8::encode_utf8(text).len() as usize
}

/// What a string matcher says of a value. The checks come in a fixed order
/// and the first that fails decides: filled, then not too long, then not too
/// short. Lengths are counted in bytes of UTF-8.
pub open spec fn string_verdict(config: AdvancedStringType, value: JsonModel) -> Result<
    (),
    StringValidationError,
> {
    match value {
        JsonModel::String(text) => {
            if text.len() == 0 && config.require_filled {
                Err(StringValidationError::RequireFilled)
            } else if config.max_length is Some && byte_length(text) > config.max_length->Some_0 {
                Err(StringValidationError::StringTooLong)
            } else if config.min_length is Some && byte_length(text) < config.min_length->Some_0 {
                Err(StringValidationError::StringTooShort)
            } else {
                Ok(())
            }
        },
        _ => Err(StringValidationError::NotAString),
    }
}

/// Some variant accepts the value.
pub open spec fn some_variant_accepts(variants: Seq<SchemaModel>, value: JsonModel) -> bool
    decreases variants, 1int, 0nat,
{
    exists|i: int| 0 <= i < variants.len() && schema_verdict(variants[i], value) is Ok
}

/// What a union says of a value: `Ok` when some variant accepts it, else an
/// error that holds all the variants.
pub open spec fn any_of_verdict(variants: Seq<SchemaModel>, value: JsonModel) -> Result<
    (),
    Seq<SchemaModel>,
>
    decreases variants, 2int, 0nat,
{
    if some_variant_accepts(variants, value) {
        Ok(())
    } else {
        Err(variants)
    }
}

/// What the positions of a tuple say of the items from `from` on: the error
/// of the first position that rejects its item.
pub open spec fn tuple_verdict_from(
    items: Seq<SchemaModel>,
    values: Seq<JsonModel>,
    from: int,
) -> Result<(), TupleErrorModel>
    decreases items, 1int, items.len() - from,
{
    if from < 0 || from >= items.len() || from >= values.len() {
        Ok(())
    } else {
        match schema_verdict(items[from], values[from]) {
            Err(error) => Err(TupleErrorModel::Schema(Box::new(error))),
            Ok(_) => tuple_verdict_from(items, values, from + 1),
        }
    }
}

/// What a tuple says of a value: the value is an array, it has as many items
/// as the tuple has positions, and each position accepts its item.
pub open spec fn tuple_verdict(items: Seq<SchemaModel>, value: JsonModel) -> Result<
    (),
    TupleErrorModel,
>
    decreases items, 2int, 0nat,
{
    match value {
        JsonModel::Array(values) => {
            if values.len() != items.len() {
                Err(TupleErrorModel::IncorrectLength(values.len() as usize, items.len() as usize))
            } else {
                tuple_verdict_from(items, values, 0)
            }
        },
        _ => Err(TupleErrorModel::NotAnArray),
    }
}

/// What an item schema says of the values from `from` on: the error of the
/// first value that it rejects.
pub open spec fn items_verdict_from(items: SchemaModel, values: Seq<JsonModel>, from: int) -> Result<
    (),
    ArrayErrorModel,
>
    decreases items, 1int, values.len() - from,
{
    if from < 0 || from >= values.len() {
        Ok(())
    } else {
        match schema_verdict(items, values[from]) {
            Err(error) => Err(ArrayErrorModel::Schema(Box::new(error))),
            Ok(_) => items_verdict_from(items, values, from + 1),
        }
    }
}

/// What an array matcher says of a value: the value is an array, it is not
/// empty where a filled one is required, and every item is accepted.
pub open spec fn array_verdict(require_filled: bool, items: SchemaModel, value: JsonModel) -> Result<
    (),
    ArrayErrorModel,
>
    decreases items, 2int, 0nat,
{
    match value {
        JsonModel::Array(values) => {
            if values.len() == 0 && require_filled {
                Err(ArrayErrorModel::RequireFilled)
            } else {
                items_verdict_from(items, values, 0)
            }
        },
        _ => Err(ArrayErrorModel::NotAnArray),
    }
}

/// The schema is an optional one.
pub open spec fn is_optional(schema: SchemaModel) -> bool {
    schema matches SchemaModel::Advanced(AdvancedModel::Optional(_))
}

/// What the entries of an object schema from `from` on say of the members
/// of an object. The entries are visited in order. An entry whose key is
/// there checks the value under it, and a failure ends the visit. An entry
/// whose key is missing ends the visit too: with success for the whole
/// object when its schema is optional, with an error that names the key
/// when not.
pub open spec fn object_verdict_from(
    entries: Seq<(Seq<char>, SchemaModel)>,
    members: Seq<(Seq<char>, JsonModel)>,
    from: int,
) -> Result<(), ObjectErrorModel>
    decreases entries, 1int, entries.len() - from,
{
    if from < 0 || from >= entries.len() {
        Ok(())
    } else {
        match member_lookup(members, entries[from].0) {
            None => {
                if is_optional(entries[from].1) {
                    Ok(())
                } else {
                    Err(ObjectErrorModel::MissingObjectKey(entries[from].0))
                }
            },
            Some(value) => match schema_verdict(entries[from].1, value) {
                Err(error) => Err(ObjectErrorModel::Schema(Box::new(error))),
                Ok(_) => object_verdict_from(entries, members, from + 1),
            },
        }
    }
}

/// What an object schema says of a value. Keys of the value that the schema
/// does not name are never looked at.
pub open spec fn object_verdict(entries: Seq<(Seq<char>, SchemaModel)>, value: JsonModel) -> Result<
    (),
    ObjectErrorModel,
>
    decreases entries, 2int, 0nat,
{
    match value {
        JsonModel::Object(members) => object_verdict_from(entries, members, 0),
        _ => Err(ObjectErrorModel::NotAnObject),
    }
}

/// What an optional schema says of a value: `null` is accepted, anything
/// else is left to the schema inside.
pub open spec fn optional_verdict(kind: SchemaModel, value: JsonModel) -> Result<
    (),
    SchemaErrorModel,
>
    decreases kind, 1int, 0nat,
{
    match value {
        JsonModel::Null => Ok(()),
        _ => schema_verdict(kind, value),
    }
}

/// What a configurable matcher says of a value.
pub open spec fn advanced_verdict(advanced: AdvancedModel, value: JsonModel) -> Result<
    (),
    AdvancedErrorModel,
>
    decreases advanced, 0int, 0nat,
{
    match advanced {
        AdvancedModel::String(config) => match string_verdict(config, value) {
            Ok(_) => Ok(()),
            Err(error) => Err(AdvancedErrorModel::String(error)),
        },
        AdvancedModel::AnyOf(variants) => match any_of_verdict(variants, value) {
            Ok(_) => Ok(()),
            Err(error) => Err(AdvancedErrorModel::AnyOf(error)),
        },
        AdvancedModel::Tuple(items) => match tuple_verdict(items, value) {
            Ok(_) => Ok(()),
            Err(error) => Err(AdvancedErrorModel::Tuple(error)),
        },
        AdvancedModel::Array(array) => match array_verdict(
            array.require_filled,
            *array.items,
            value,
        ) {
            Ok(_) => Ok(()),
            Err(error) => Err(AdvancedErrorModel::Array(error)),
        },
        AdvancedModel::Object(entries) => match object_verdict(entries, value) {
            Ok(_) => Ok(()),
            Err(error) => Err(AdvancedErrorModel::Object(error)),
        },
        AdvancedModel::Optional(kind) => match optional_verdict(*kind, value) {
            Ok(_) => Ok(()),
            Err(error) => Err(AdvancedErrorModel::Schema(Box::new(error))),
        },
    }
}

/// What a schema says of a value. A shorthand is checked as the matcher it
/// stands for; the array shorthand accepts an empty array.
pub open spec fn schema_verdict(schema: SchemaModel, value: JsonModel) -> Result<
    (),
    SchemaErrorModel,
>
    decreases schema, 0int, 0nat,
{
    match schema {
        SchemaModel::Basic(kind) => match basic_verdict(kind, value) {
            Ok(_) => Ok(()),
            Err(error) => Err(SchemaErrorModel::Basic(error)),
        },
        SchemaModel::Field(field) => schema_verdict(*field.field_type, value),
        SchemaModel::Advanced(advanced) => match advanced_verdict(advanced, value) {
            Ok(_) => Ok(()),
            Err(error) => Err(SchemaErrorModel::Advanced(error)),
        },
        SchemaModel::Array(items) => match array_verdict(false, *items, value) {
            Ok(_) => Ok(()),
            Err(error) => Err(SchemaErrorModel::Advanced(AdvancedErrorModel::Array(error))),
        },
        SchemaModel::Tuple(items) => match tuple_verdict(items, value) {
            Ok(_) => Ok(()),
            Err(error) => Err(SchemaErrorModel::Advanced(AdvancedErrorModel::Tuple(error))),
        },
        SchemaModel::Object(entries) => match object_verdict(entries, value) {
            Ok(_) => Ok(()),
            Err(error) => Err(SchemaErrorModel::Advanced(AdvancedErrorModel::Object(error))),
        },
    }
}

/// The descriptions of the first `upto` schemas of a list, with a comma and
/// a space between them.
pub open spec fn joined_descriptions(schemas: Seq<SchemaModel>, upto: int) -> Seq<char>
    decreases schemas, 1int, upto,
{
    if upto <= 0 || upto > schemas.len() {
        Seq::empty()
    } else if upto == 1 {
        schema_description(schemas[0])
    } else {
        joined_descriptions(schemas, upto - 1) + ", "@ + schema_description(schemas[upto - 1])
    }
}

/// How a tuple is described: its positions, in order.
pub open spec fn tuple_description(items: Seq<SchemaModel>) -> Seq<char>
    decreases items, 2int, 0int,
{
    "tuple with items: "@ + joined_descriptions(items, items.len() as int)
}

/// How a union is described: its variants, in order.
pub open spec fn any_of_description(variants: Seq<SchemaModel>) -> Seq<char>
    decreases variants, 2int, 0int,
{
    "any of: "@ + joined_descriptions(variants, variants.len() as int)
}

/// How the error of a union reads: it names all the variants.
pub open spec fn any_of_error_message(variants: Seq<SchemaModel>) -> Seq<char> {
    "No matching variant. Expected one of: "@ + joined_descriptions(
        variants,
        variants.len() as int,
    )
}

/// How a configurable matcher is described.
pub open spec fn advanced_description(advanced: AdvancedModel) -> Seq<char>
    decreases advanced, 0int, 0int,
{
    match advanced {
        AdvancedModel::String(config) => string_type_description(config),
        AdvancedModel::AnyOf(variants) => any_of_description(variants),
        AdvancedModel::Tuple(items) => tuple_description(items),
        AdvancedModel::Array(array) => "array with items: "@ + schema_description(*array.items),
        AdvancedModel::Object(_) => "object"@,
        AdvancedModel::Optional(kind) => "optional "@ + schema_description(*kind),
    }
}

/// How a schema is described to a reader.
pub open spec fn schema_description(schema: SchemaModel) -> Seq<char>
    decreases schema, 0int, 0int,
{
    match schema {
        SchemaModel::Basic(kind) => basic_type_name(kind),
        SchemaModel::Field(field) => "field with "@ + schema_description(*field.field_type),
        SchemaModel::Advanced(advanced) => advanced_description(advanced),
        SchemaModel::Array(items) => "array filled with '"@ + schema_description(*items) + "'"@,
        SchemaModel::Tuple(items) => tuple_description(items),
        SchemaModel::Object(_) => "object"@,
    }
}

} // verus!
