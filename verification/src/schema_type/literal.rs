//! Reading a schema from its literal, the JSON form of a schema.
//!
//! | Literal | Schema |
//! |---|---|
//! | the name of a basic matcher, as a string | that matcher |
//! | an object with `?` and `label`, and maybe `hint` | a field |
//! | an object with `$`, the name of a configurable matcher | that matcher |
//! | any other object | the object shorthand |
//! | an array of one literal | the array shorthand |
//! | any other array | the tuple shorthand |
//!
//! The forms are tried in this order. An object that fits neither a field
//! nor a configurable matcher is read as the object shorthand, so `$` and
//! `?` may be keys of it.
use crate::json::{
    json_member_models,
    json_models,
    keys_distinct,
    lemma_lookup_finds_a_member,
    member_lookup,
    JsonModel,
    JsonNumber,
    JsonValue,
};
use crate::schema::SchemaValidationError;
use crate::schema_type::advanced_type::advanced_string_type::AdvancedStringType;
use crate::schema_type::advanced_type::any_of_type::AnyOfType;
use crate::schema_type::advanced_type::array_type::ArrayType;
use crate::schema_type::advanced_type::object_type::ObjectType;
use crate::schema_type::advanced_type::optional_type::OptionalType;
use crate::schema_type::advanced_type::tuple_type::TupleType;
use crate::schema_type::advanced_type::AdvancedType;
use crate::schema_type::basic_type::BasicType;
use crate::schema_type::field::Field;
use crate::schema_type::model::{
    entry_models,
    schema_models,
    AdvancedModel,
    ArrayModel,
    FieldModel,
    SchemaModel,
};
use crate::schema_type::SchemaType;
use vstd::prelude::*;
use vstd::string::*;

verus! {

/// The basic matcher of a name.
pub open spec fn basic_type_of(name: Seq<char>) -> Option<BasicType> {
    if name == "any"@ {
        Some(BasicType::Any)
    } else if name == "boolean"@ {
        Some(BasicType::Boolean)
    } else if name == "string"@ {
        Some(BasicType::String)
    } else if name == "filledString"@ {
        Some(BasicType::FilledString)
    } else if name == "number"@ {
        Some(BasicType::Number)
    } else if name == "positiveNumber"@ {
        Some(BasicType::PositiveNumber)
    } else if name == "negativeNumber"@ {
        Some(BasicType::NegativeNumber)
    } else if name == "u8"@ {
        Some(BasicType::U8)
    } else if name == "u16"@ {
        Some(BasicType::U16)
    } else if name == "u32"@ {
        Some(BasicType::U32)
    } else if name == "u64"@ {
        Some(BasicType::U64)
    } else if name == "i8"@ {
        Some(BasicType::I8)
    } else if name == "i16"@ {
        Some(BasicType::I16)
    } else if name == "i32"@ {
        Some(BasicType::I32)
    } else if name == "i64"@ {
        Some(BasicType::I64)
    } else if name == "null"@ {
        Some(BasicType::Null)
    } else if name == "object"@ {
        Some(BasicType::Object)
    } else if name == "array"@ {
        Some(BasicType::Array)
    } else if name == "uuid"@ {
        Some(BasicType::Uuid)
    } else if name == "email"@ {
        Some(BasicType::Email)
    } else {
        None
    }
}

/// The flag under a key: `true` where the key is missing, the boolean under
/// it where there is one.
pub open spec fn flag_of(members: Seq<(Seq<char>, JsonModel)>, key: Seq<char>) -> Option<bool> {
    match member_lookup(members, key) {
        None => Some(true),
        Some(JsonModel::Bool(flag)) => Some(flag),
        Some(_) => None,
    }
}

/// The length under a key: none where the key is missing or holds `null`,
/// the integer under it where that is a length.
pub open spec fn length_of(members: Seq<(Seq<char>, JsonModel)>, key: Seq<char>) -> Option<
    Option<usize>,
> {
    match member_lookup(members, key) {
        None => Some(None),
        Some(JsonModel::Null) => Some(None),
        Some(JsonModel::Number(number)) => match number.integer() {
            Some(value) => if 0 <= value <= usize::MAX {
                Some(Some(value as usize))
            } else {
                None
            },
            None => None,
        },
        Some(_) => None,
    }
}

/// The text under a key: none where the key is missing or holds `null`, the
/// string under it where there is one.
pub open spec fn text_of(members: Seq<(Seq<char>, JsonModel)>, key: Seq<char>) -> Option<
    Option<Seq<char>>,
> {
    match member_lookup(members, key) {
        None => Some(None),
        Some(JsonModel::Null) => Some(None),
        Some(JsonModel::String(text)) => Some(Some(text)),
        Some(_) => None,
    }
}

/// The string matcher that the members of an object configure.
pub open spec fn string_config_of(members: Seq<(Seq<char>, JsonModel)>) -> Option<
    AdvancedStringType,
> {
    match (
        flag_of(members, "requireFilled"@),
        length_of(members, "minLength"@),
        length_of(members, "maxLength"@),
    ) {
        (Some(require_filled), Some(min_length), Some(max_length)) => Some(
            AdvancedStringType { require_filled, min_length, max_length },
        ),
        _ => None,
    }
}

/// The schemas of a list of literals: all of them must be schemas.
pub open spec fn schemas_of(literals: Seq<JsonModel>) -> Option<Seq<SchemaModel>>
    decreases literals, 0int,
{
    if forall|i: int| 0 <= i < literals.len() ==> schema_of(literals[i]) is Some {
        Some(
            Seq::new(
                literals.len(),
                |i: int|
                    if 0 <= i < literals.len() {
                        schema_of(literals[i])->Some_0
                    } else {
                        SchemaModel::Basic(BasicType::Any)
                    },
            ),
        )
    } else {
        None
    }
}

/// The entries of the members of an object: every value must be a schema.
pub open spec fn entries_of(members: Seq<(Seq<char>, JsonModel)>) -> Option<
    Seq<(Seq<char>, SchemaModel)>,
>
    decreases members, 0int,
{
    if forall|i: int| 0 <= i < members.len() ==> schema_of(members[i].1) is Some {
        Some(
            Seq::new(
                members.len(),
                |i: int|
                    if 0 <= i < members.len() {
                        (members[i].0, schema_of(members[i].1)->Some_0)
                    } else {
                        (Seq::empty(), SchemaModel::Basic(BasicType::Any))
                    },
            ),
        )
    } else {
        None
    }
}

/// The entries read from the members of an object have the keys of the
/// members, in their order: where no key occurs twice among the members,
/// none does among the entries.
pub proof fn lemma_entries_keep_the_keys(members: Seq<(Seq<char>, JsonModel)>)
    ensures
        entries_of(members) matches Some(entries) ==> {
            &&& entries.len() == members.len()
            &&& forall|i: int| 0 <= i < members.len() ==> entries[i].0 == members[i].0
            &&& keys_distinct(members) ==> keys_distinct(entries)
        },
{
}

/// The field that the members of an object describe: a schema under `?`, a
/// string under `label`, and maybe a string under `hint`.
pub open spec fn field_of(members: Seq<(Seq<char>, JsonModel)>) -> Option<FieldModel>
    decreases members, 0int,
    via field_of_terminates
{
    match (member_lookup(members, "?"@), member_lookup(members, "label"@), text_of(members, "hint"@)) {
        (Some(literal), Some(JsonModel::String(label)), Some(hint)) => match schema_of(literal) {
            Some(schema) => Some(FieldModel { field_type: Box::new(schema), label, hint }),
            None => None,
        },
        _ => None,
    }
}

#[via_fn]
proof fn field_of_terminates(members: Seq<(Seq<char>, JsonModel)>) {
    lemma_lookup_finds_a_member(members, "?"@);
}

/// The configurable matcher that the members of an object describe: its
/// name under `$`, and its configuration under the keys of that matcher.
pub open spec fn advanced_of(members: Seq<(Seq<char>, JsonModel)>) -> Option<AdvancedModel>
    decreases members, 0int,
    via advanced_of_terminates
{
    match member_lookup(members, "$"@) {
        Some(JsonModel::String(name)) => {
            if name == "string"@ {
                match string_config_of(members) {
                    Some(config) => Some(AdvancedModel::String(config)),
                    None => None,
                }
            } else if name == "anyOf"@ {
                match member_lookup(members, "variants"@) {
                    Some(JsonModel::Array(literals)) => match schemas_of(literals) {
                        Some(variants) => Some(AdvancedModel::AnyOf(variants)),
                        None => None,
                    },
                    _ => None,
                }
            } else if name == "tuple"@ {
                match member_lookup(members, "items"@) {
                    Some(JsonModel::Array(literals)) => match schemas_of(literals) {
                        Some(items) => Some(AdvancedModel::Tuple(items)),
                        None => None,
                    },
                    _ => None,
                }
            } else if name == "array"@ {
                match (flag_of(members, "requireFilled"@), member_lookup(members, "items"@)) {
                    (Some(require_filled), Some(literal)) => match schema_of(literal) {
                        Some(items) => Some(
                            AdvancedModel::Array(
                                ArrayModel { require_filled, items: Box::new(items) },
                            ),
                        ),
                        None => None,
                    },
                    _ => None,
                }
            } else if name == "object"@ {
                match member_lookup(members, "object"@) {
                    Some(JsonModel::Object(inner)) => match entries_of(inner) {
                        Some(entries) => Some(AdvancedModel::Object(entries)),
                        None => None,
                    },
                    _ => None,
                }
            } else if name == "optional"@ {
                match member_lookup(members, "type"@) {
                    Some(literal) => match schema_of(literal) {
                        Some(kind) => Some(AdvancedModel::Optional(Box::new(kind))),
                        None => None,
                    },
                    None => None,
                }
            } else {
                None
            }
        },
        _ => None,
    }
}

#[via_fn]
proof fn advanced_of_terminates(members: Seq<(Seq<char>, JsonModel)>) {
    lemma_lookup_finds_a_member(members, "variants"@);
    lemma_lookup_finds_a_member(members, "items"@);
    lemma_lookup_finds_a_member(members, "object"@);
    lemma_lookup_finds_a_member(members, "type"@);
}

/// The schema that a literal stands for, if it stands for one.
pub open spec fn schema_of(literal: JsonModel) -> Option<SchemaModel>
    decreases literal, 0int,
{
    match literal {
        JsonModel::String(name) => match basic_type_of(name) {
            Some(kind) => Some(SchemaModel::Basic(kind)),
            None => None,
        },
        JsonModel::Object(members) => match field_of(members) {
            Some(field) => Some(SchemaModel::Field(field)),
            None => match advanced_of(members) {
                Some(advanced) => Some(SchemaModel::Advanced(advanced)),
                None => match entries_of(members) {
                    Some(entries) => Some(SchemaModel::Object(entries)),
                    None => None,
                },
            },
        },
        JsonModel::Array(literals) => {
            if literals.len() == 1 {
                match schema_of(literals[0]) {
                    Some(items) => Some(SchemaModel::Array(Box::new(items))),
                    None => None,
                }
            } else {
                match schemas_of(literals) {
                    Some(items) => Some(SchemaModel::Tuple(items)),
                    None => None,
                }
            }
        },
        _ => None,
    }
}

/// Tells whether a text is the expected one.
fn text_is(text: &String, expected: &str) -> (same: bool)
    ensures
        same == (text@ == expected@),
{
    let expected = expected.to_owned();
    *text == expected
}

/// Looks up a key, given as a string slice, in an object.
fn lookup<'a>(object: &'a JsonValue, key: &str) -> (found: Option<&'a JsonValue>)
    ensures
        match object@ {
            JsonModel::Object(members) => match found {
                Some(value) => member_lookup(members, key@) == Some(value@),
                None => member_lookup(members, key@) is None,
            },
            _ => found is None,
        },
        found matches Some(value) ==> decreases_to!(object => value),
{
    let key = key.to_owned();
    object.get(&key)
}

/// Reads the name of a basic matcher.
pub fn parse_basic(name: &String) -> (kind: Option<BasicType>)
    ensures
        kind == basic_type_of(name@),
{
    if text_is(name, "any") {
        Some(BasicType::Any)
    } else if text_is(name, "boolean") {
        Some(BasicType::Boolean)
    } else if text_is(name, "string") {
        Some(BasicType::String)
    } else if text_is(name, "filledString") {
        Some(BasicType::FilledString)
    } else if text_is(name, "number") {
        Some(BasicType::Number)
    } else if text_is(name, "positiveNumber") {
        Some(BasicType::PositiveNumber)
    } else if text_is(name, "negativeNumber") {
        Some(BasicType::NegativeNumber)
    } else if text_is(name, "u8") {
        Some(BasicType::U8)
    } else if text_is(name, "u16") {
        Some(BasicType::U16)
    } else if text_is(name, "u32") {
        Some(BasicType::U32)
    } else if text_is(name, "u64") {
        Some(BasicType::U64)
    } else if text_is(name, "i8") {
        Some(BasicType::I8)
    } else if text_is(name, "i16") {
        Some(BasicType::I16)
    } else if text_is(name, "i32") {
        Some(BasicType::I32)
    } else if text_is(name, "i64") {
        Some(BasicType::I64)
    } else if text_is(name, "null") {
        Some(BasicType::Null)
    } else if text_is(name, "object") {
        Some(BasicType::Object)
    } else if text_is(name, "array") {
        Some(BasicType::Array)
    } else if text_is(name, "uuid") {
        Some(BasicType::Uuid)
    } else if text_is(name, "email") {
        Some(BasicType::Email)
    } else {
        None
    }
}

/// Reads the flag under a key of an object.
fn parse_flag(object: &JsonValue, key: &str) -> (flag: Option<bool>)
    requires
        object@ is Object,
    ensures
        flag == flag_of(object@->Object_0, key@),
{
    match lookup(object, key) {
        None => Some(true),
        Some(JsonValue::Bool(flag)) => Some(*flag),
        Some(_) => None,
    }
}

/// Reads the length under a key of an object.
fn parse_length(object: &JsonValue, key: &str) -> (length: Option<Option<usize>>)
    requires
        object@ is Object,
    ensures
        length == length_of(object@->Object_0, key@),
{
    match lookup(object, key) {
        None => Some(None),
        Some(JsonValue::Null) => Some(None),
        Some(JsonValue::Number(number)) => match number {
            JsonNumber::PosInt(value) => {
                if *value <= usize::MAX as u64 {
                    Some(Some(*value as usize))
                } else {
                    None
                }
            },
            JsonNumber::NegInt(value) => {
                if 0 <= *value {
                    if *value as u64 <= usize::MAX as u64 {
                        Some(Some(*value as usize))
                    } else {
                        None
                    }
                } else {
                    None
                }
            },
            JsonNumber::Float(_) => None,
        },
        Some(_) => None,
    }
}

/// Reads the text under a key of an object.
fn parse_text(object: &JsonValue, key: &str) -> (text: Option<Option<String>>)
    requires
        object@ is Object,
    ensures
        match text_of(object@->Object_0, key@) {
            None => text is None,
            Some(None) => text == Some(None::<String>),
            Some(Some(expected)) => text is Some && text->Some_0 is Some && text->Some_0->Some_0@
                == expected,
        },
{
    match lookup(object, key) {
        None => Some(None),
        Some(JsonValue::Null) => Some(None),
        Some(JsonValue::String(text)) => Some(Some(text.clone())),
        Some(_) => None,
    }
}

/// Reads the configuration of a string matcher from an object.
fn parse_string_config(object: &JsonValue) -> (config: Option<AdvancedStringType>)
    requires
        object@ is Object,
    ensures
        config == string_config_of(object@->Object_0),
{
    let require_filled = parse_flag(object, "requireFilled");
    let min_length = parse_length(object, "minLength");
    let max_length = parse_length(object, "maxLength");
    match (require_filled, min_length, max_length) {
        (Some(require_filled), Some(min_length), Some(max_length)) => Some(
            AdvancedStringType { require_filled, min_length, max_length },
        ),
        _ => None,
    }
}

/// What reading gave, against what the literal stands for: the schema with
/// that model, or nothing where the literal stands for nothing.
pub open spec fn reads_as<T: View>(read: Option<T>, expected: Option<T::V>) -> bool {
    match expected {
        Some(model) => read is Some && read->Some_0@ == model,
        None => read is None,
    }
}

/// Reads a schema from each literal of a list.
fn parse_schemas(literals: &Vec<JsonValue>) -> (schemas: Option<Vec<SchemaType>>)
    ensures
        match schemas_of(json_models(literals@)) {
            Some(models) => schemas is Some && schema_models(schemas->Some_0@) == models,
            None => schemas is None,
        },
    decreases literals, 0int,
{
    let ghost models = json_models(literals@);
    let mut schemas: Vec<SchemaType> = Vec::new();
    let mut i: usize = 0;
    while i < literals.len()
        invariant
            i <= literals.len(),
            schemas@.len() == i,
            models == json_models(literals@),
            forall|j: int| 0 <= j < i ==> schema_of(models[j]) == Some(schemas@[j]@),
        decreases literals.len() - i,
    {
        assert(models[i as int] == literals@[i as int]@);
        match parse_schema(&literals[i]) {
            Some(schema) => {
                schemas.push(schema);
            },
            None => {
                return None;
            },
        }
        i += 1;
    }
    Some(schemas)
}

/// Reads a schema from the value of each member of an object.
fn parse_entries(members: &Vec<(String, JsonValue)>) -> (entries: Option<
    Vec<(String, SchemaType)>,
>)
    ensures
        match entries_of(json_member_models(members@)) {
            Some(models) => entries is Some && entry_models(entries->Some_0@) == models,
            None => entries is None,
        },
    decreases members, 0int,
{
    let ghost models = json_member_models(members@);
    let mut entries: Vec<(String, SchemaType)> = Vec::new();
    let mut i: usize = 0;
    while i < members.len()
        invariant
            i <= members.len(),
            entries@.len() == i,
            models == json_member_models(members@),
            forall|j: int|
                0 <= j < i ==> entries@[j].0@ == models[j].0 && schema_of(models[j].1) == Some(
                    entries@[j].1@,
                ),
        decreases members.len() - i,
    {
        assert(models[i as int] == (members@[i as int].0@, members@[i as int].1@));
        match parse_schema(&members[i].1) {
            Some(schema) => {
                entries.push((members[i].0.clone(), schema));
            },
            None => {
                return None;
            },
        }
        i += 1;
    }
    Some(entries)
}

/// Reads a field from an object.
fn parse_field(object: &JsonValue) -> (field: Option<Field>)
    requires
        object@ is Object,
    ensures
        reads_as(field, field_of(object@->Object_0)),
    decreases object, 0int,
{
    let literal = lookup(object, "?");
    let label = lookup(object, "label");
    let hint = parse_text(object, "hint");
    match (literal, label, hint) {
        (Some(literal), Some(JsonValue::String(label)), Some(hint)) => match parse_schema(literal) {
            Some(schema) => Some(Field { field_type: Box::new(schema), label: label.clone(), hint }),
            None => None,
        },
        _ => None,
    }
}

/// Reads a configurable matcher from an object.
fn parse_advanced(object: &JsonValue) -> (advanced: Option<AdvancedType>)
    requires
        object@ is Object,
    ensures
        reads_as(advanced, advanced_of(object@->Object_0)),
    decreases object, 0int,
{
    match lookup(object, "$") {
        Some(JsonValue::String(name)) => {
            if text_is(name, "string") {
                match parse_string_config(object) {
                    Some(config) => Some(AdvancedType::String(config)),
                    None => None,
                }
            } else if text_is(name, "anyOf") {
                match lookup(object, "variants") {
                    Some(JsonValue::Array(literals)) => match parse_schemas(literals) {
                        Some(variants) => Some(AdvancedType::AnyOf(AnyOfType { variants })),
                        None => None,
                    },
                    _ => None,
                }
            } else if text_is(name, "tuple") {
                match lookup(object, "items") {
                    Some(JsonValue::Array(literals)) => match parse_schemas(literals) {
                        Some(items) => Some(AdvancedType::Tuple(TupleType { items })),
                        None => None,
                    },
                    _ => None,
                }
            } else if text_is(name, "array") {
                let require_filled = parse_flag(object, "requireFilled");
                let literal = lookup(object, "items");
                match (require_filled, literal) {
                    (Some(require_filled), Some(literal)) => match parse_schema(literal) {
                        Some(items) => Some(
                            AdvancedType::Array(
                                ArrayType { require_filled, items: Box::new(items) },
                            ),
                        ),
                        None => None,
                    },
                    _ => None,
                }
            } else if text_is(name, "object") {
                match lookup(object, "object") {
                    Some(JsonValue::Object(inner)) => match parse_entries(inner) {
                        Some(entries) => Some(AdvancedType::Object(ObjectType { object: entries })),
                        None => None,
                    },
                    _ => None,
                }
            } else if text_is(name, "optional") {
                match lookup(object, "type") {
                    Some(literal) => match parse_schema(literal) {
                        Some(kind) => Some(
                            AdvancedType::Optional(OptionalType { kind: Box::new(kind) }),
                        ),
                        None => None,
                    },
                    None => None,
                }
            } else {
                None
            }
        },
        _ => None,
    }
}

/// Reads a schema from a literal; `None` where the literal stands for no
/// schema.
pub fn parse_schema(literal: &JsonValue) -> (schema: Option<SchemaType>)
    ensures
        reads_as(schema, schema_of(literal@)),
    decreases literal, 1int,
{
    match literal {
        JsonValue::String(name) => match parse_basic(name) {
            Some(kind) => Some(SchemaType::Basic(kind)),
            None => None,
        },
        JsonValue::Object(members) => match parse_field(literal) {
            Some(field) => Some(SchemaType::Field(field)),
            None => match parse_advanced(literal) {
                Some(advanced) => Some(SchemaType::Advanced(advanced)),
                None => match parse_entries(members) {
                    Some(entries) => Some(SchemaType::Object(entries)),
                    None => None,
                },
            },
        },
        JsonValue::Array(literals) => {
            if literals.len() == 1 {
                match parse_schema(&literals[0]) {
                    Some(items) => Some(SchemaType::Array((Box::new(items),))),
                    None => None,
                }
            } else {
                match parse_schemas(literals) {
                    Some(items) => Some(SchemaType::Tuple(items)),
                    None => None,
                }
            }
        },
        _ => None,
    }
}

impl SchemaType {
    /// Reads a schema from its literal. A literal that stands for no schema
    /// is refused.
    pub fn from_json(literal: &JsonValue) -> (read: Result<SchemaType, SchemaValidationError>)
        ensures
            match schema_of(literal@) {
                Some(model) => read is Ok && read->Ok_0@ == model,
                None => read == Err::<SchemaType, SchemaValidationError>(
                    SchemaValidationError::InvalidSchemaValue,
                ),
            },
    {
        match parse_schema(literal) {
            Some(schema) => Ok(schema),
            None => Err(SchemaValidationError::InvalidSchemaValue),
        }
    }
}

/// The name of a basic matcher in a literal.
pub open spec fn basic_literal_name(kind: BasicType) -> Seq<char> {
    match kind {
        BasicType::Any => "any"@,
        BasicType::Boolean => "boolean"@,
        BasicType::String => "string"@,
        BasicType::FilledString => "filledString"@,
        BasicType::Number => "number"@,
        BasicType::PositiveNumber => "positiveNumber"@,
        BasicType::NegativeNumber => "negativeNumber"@,
        BasicType::U8 => "u8"@,
        BasicType::U16 => "u16"@,
        BasicType::U32 => "u32"@,
        BasicType::U64 => "u64"@,
        BasicType::I8 => "i8"@,
        BasicType::I16 => "i16"@,
        BasicType::I32 => "i32"@,
        BasicType::I64 => "i64"@,
        BasicType::Null => "null"@,
        BasicType::Object => "object"@,
        BasicType::Array => "array"@,
        BasicType::Uuid => "uuid"@,
        BasicType::Email => "email"@,
    }
}

/// A length in a literal: the number, or `null` where there is none.
pub open spec fn length_literal(length: Option<usize>) -> JsonModel {
    match length {
        Some(length) => JsonModel::Number(JsonNumber::PosInt(length as u64)),
        None => JsonModel::Null,
    }
}

/// A text in a literal: the string, or `null` where there is none.
pub open spec fn text_literal(text: Option<Seq<char>>) -> JsonModel {
    match text {
        Some(text) => JsonModel::String(text),
        None => JsonModel::Null,
    }
}

/// The literal of each schema of a list, in order.
pub open spec fn literals_of(schemas: Seq<SchemaModel>) -> Seq<JsonModel>
    decreases schemas, 0int,
{
    Seq::new(
        schemas.len(),
        |i: int|
            if 0 <= i < schemas.len() {
                literal_of(schemas[i])
            } else {
                JsonModel::Null
            },
    )
}

/// The members that write the entries of an object schema, in order.
pub open spec fn entry_literals_of(entries: Seq<(Seq<char>, SchemaModel)>) -> Seq<
    (Seq<char>, JsonModel),
>
    decreases entries, 0int,
{
    Seq::new(
        entries.len(),
        |i: int|
            if 0 <= i < entries.len() {
                (entries[i].0, literal_of(entries[i].1))
            } else {
                (Seq::empty(), JsonModel::Null)
            },
    )
}

/// The literal of a configurable matcher: an object with the name of the
/// matcher under `$` and its configuration under the keys of that matcher.
pub open spec fn advanced_literal_of(advanced: AdvancedModel) -> JsonModel
    decreases advanced, 1int,
{
    match advanced {
        AdvancedModel::String(config) => JsonModel::Object(
            seq![
                ("$"@, JsonModel::String("string"@)),
                ("requireFilled"@, JsonModel::Bool(config.require_filled)),
                ("minLength"@, length_literal(config.min_length)),
                ("maxLength"@, length_literal(config.max_length)),
            ],
        ),
        AdvancedModel::AnyOf(variants) => JsonModel::Object(
            seq![
                ("$"@, JsonModel::String("anyOf"@)),
                ("variants"@, JsonModel::Array(literals_of(variants))),
            ],
        ),
        AdvancedModel::Tuple(items) => JsonModel::Object(
            seq![
                ("$"@, JsonModel::String("tuple"@)),
                ("items"@, JsonModel::Array(literals_of(items))),
            ],
        ),
        AdvancedModel::Array(array) => JsonModel::Object(
            seq![
                ("$"@, JsonModel::String("array"@)),
                ("requireFilled"@, JsonModel::Bool(array.require_filled)),
                ("items"@, literal_of(*array.items)),
            ],
        ),
        AdvancedModel::Object(entries) => JsonModel::Object(
            seq![
                ("$"@, JsonModel::String("object"@)),
                ("object"@, JsonModel::Object(entry_literals_of(entries))),
            ],
        ),
        AdvancedModel::Optional(kind) => JsonModel::Object(
            seq![("$"@, JsonModel::String("optional"@)), ("type"@, literal_of(*kind))],
        ),
    }
}

/// The literal that writes a schema. Every configuration is written out,
/// also where it is the default.
pub open spec fn literal_of(schema: SchemaModel) -> JsonModel
    decreases schema, 1int,
{
    match schema {
        SchemaModel::Basic(kind) => JsonModel::String(basic_literal_name(kind)),
        SchemaModel::Field(field) => JsonModel::Object(
            seq![
                ("?"@, literal_of(*field.field_type)),
                ("label"@, JsonModel::String(field.label)),
                ("hint"@, text_literal(field.hint)),
            ],
        ),
        SchemaModel::Advanced(advanced) => advanced_literal_of(advanced),
        SchemaModel::Array(items) => JsonModel::Array(seq![literal_of(*items)]),
        SchemaModel::Tuple(items) => JsonModel::Array(literals_of(items)),
        SchemaModel::Object(entries) => JsonModel::Object(entry_literals_of(entries)),
    }
}

/// Makes a member of an object from a key and a value.
fn member(key: &str, value: JsonValue) -> (made: (String, JsonValue))
    ensures
        made.0@ == key@,
        made.1 == value,
{
    (key.to_owned(), value)
}

/// Makes a string value from a string slice.
fn string_value(text: &str) -> (made: JsonValue)
    ensures
        made@ == JsonModel::String(text@),
{
    JsonValue::String(text.to_owned())
}

/// Writes a length as a literal.
fn write_length(length: Option<usize>) -> (literal: JsonValue)
    ensures
        literal@ == length_literal(length),
{
    match length {
        Some(length) => JsonValue::Number(JsonNumber::PosInt(length as u64)),
        None => JsonValue::Null,
    }
}

/// Writes the name of a basic matcher as it stands in a literal.
pub fn write_basic(kind: BasicType) -> (name: String)
    ensures
        name@ == basic_literal_name(kind),
{
    let name = match kind {
        BasicType::Any => "any",
        BasicType::Boolean => "boolean",
        BasicType::String => "string",
        BasicType::FilledString => "filledString",
        BasicType::Number => "number",
        BasicType::PositiveNumber => "positiveNumber",
        BasicType::NegativeNumber => "negativeNumber",
        BasicType::U8 => "u8",
        BasicType::U16 => "u16",
        BasicType::U32 => "u32",
        BasicType::U64 => "u64",
        BasicType::I8 => "i8",
        BasicType::I16 => "i16",
        BasicType::I32 => "i32",
        BasicType::I64 => "i64",
        BasicType::Null => "null",
        BasicType::Object => "object",
        BasicType::Array => "array",
        BasicType::Uuid => "uuid",
        BasicType::Email => "email",
    };
    name.to_owned()
}

/// Writes the literal of each schema of a list.
#[verifier::loop_isolation(false)]
fn write_schemas(schemas: &Vec<SchemaType>) -> (literals: Vec<JsonValue>)
    ensures
        json_models(literals@) == literals_of(schema_models(schemas@)),
    decreases schemas, 0int,
{
    let ghost models = schema_models(schemas@);
    let mut literals: Vec<JsonValue> = Vec::new();
    let mut i: usize = 0;
    while i < schemas.len()
        invariant
            i <= schemas.len(),
            literals@.len() == i,
            forall|j: int| 0 <= j < i ==> literals@[j]@ == literal_of(models[j]),
        decreases schemas.len() - i,
    {
        literals.push(write_schema(&schemas[i]));
        i += 1;
    }
    literals
}

/// Writes the members for the entries of an object schema.
#[verifier::loop_isolation(false)]
fn write_entries(entries: &Vec<(String, SchemaType)>) -> (members: Vec<(String, JsonValue)>)
    ensures
        json_member_models(members@) == entry_literals_of(entry_models(entries@)),
    decreases entries, 0int,
{
    let ghost models = entry_models(entries@);
    let mut members: Vec<(String, JsonValue)> = Vec::new();
    let mut i: usize = 0;
    while i < entries.len()
        invariant
            i <= entries.len(),
            members@.len() == i,
            forall|j: int|
                0 <= j < i ==> members@[j].0@ == models[j].0 && members@[j].1@ == literal_of(
                    models[j].1,
                ),
        decreases entries.len() - i,
    {
        let key = entries[i].0.clone();
        let literal = write_schema(&entries[i].1);
        members.push((key, literal));
        i += 1;
    }
    members
}

/// Makes an object of the given members.
fn object_of(members: Vec<(String, JsonValue)>) -> (made: JsonValue)
    ensures
        made@ == JsonModel::Object(json_member_models(members@)),
{
    JsonValue::Object(members)
}

/// Writes the literal of a configurable matcher.
fn write_advanced(advanced: &AdvancedType) -> (literal: JsonValue)
    ensures
        literal@ == advanced_literal_of(advanced@),
    decreases advanced, 1int,
{
    let mut members: Vec<(String, JsonValue)> = Vec::new();
    match advanced {
        AdvancedType::String(config) => {
            members.push(member("$", string_value("string")));
            members.push(member("requireFilled", JsonValue::Bool(config.require_filled)));
            members.push(member("minLength", write_length(config.min_length)));
            members.push(member("maxLength", write_length(config.max_length)));
        },
        AdvancedType::AnyOf(any_of) => {
            members.push(member("$", string_value("anyOf")));
            members.push(member("variants", JsonValue::Array(write_schemas(&any_of.variants))));
        },
        AdvancedType::Tuple(tuple) => {
            members.push(member("$", string_value("tuple")));
            members.push(member("items", JsonValue::Array(write_schemas(&tuple.items))));
        },
        AdvancedType::Array(array) => {
            members.push(member("$", string_value("array")));
            members.push(member("requireFilled", JsonValue::Bool(array.require_filled)));
            members.push(member("items", write_schema(&array.items)));
        },
        AdvancedType::Object(object) => {
            members.push(member("$", string_value("object")));
            members.push(member("object", JsonValue::Object(write_entries(&object.object))));
        },
        AdvancedType::Optional(optional) => {
            members.push(member("$", string_value("optional")));
            members.push(member("type", write_schema(&optional.kind)));
        },
    }
    let literal = object_of(members);
    proof {
        assert(literal@->Object_0 =~= advanced_literal_of(advanced@)->Object_0);
    }
    literal
}

/// Writes the literal of a schema.
pub fn write_schema(schema: &SchemaType) -> (literal: JsonValue)
    ensures
        literal@ == literal_of(schema@),
    decreases schema, 1int,
{
    match schema {
        SchemaType::Basic(kind) => JsonValue::String(write_basic(*kind)),
        SchemaType::Field(field) => {
            let mut members: Vec<(String, JsonValue)> = Vec::new();
            members.push(member("?", write_schema(&field.field_type)));
            members.push(member("label", JsonValue::String(field.label.clone())));
            let hint = match &field.hint {
                Some(hint) => JsonValue::String(hint.clone()),
                None => JsonValue::Null,
            };
            members.push(member("hint", hint));
            let literal = object_of(members);
            proof {
                assert(literal@->Object_0 =~= literal_of(schema@)->Object_0);
            }
            literal
        },
        SchemaType::Advanced(advanced) => write_advanced(advanced),
        SchemaType::Array(items) => {
            let mut literals: Vec<JsonValue> = Vec::new();
            literals.push(write_schema(&items.0));
            proof {
                assert(json_models(literals@) =~= seq![literal_of(items.0@)]);
            }
            JsonValue::Array(literals)
        },
        SchemaType::Tuple(items) => JsonValue::Array(write_schemas(items)),
        SchemaType::Object(entries) => JsonValue::Object(write_entries(entries)),
    }
}

impl SchemaType {
    /// Writes this schema as its literal.
    pub fn to_json(&self) -> (literal: JsonValue)
        ensures
            literal@ == literal_of(self@),
    {
        write_schema(self)
    }
}

} // verus!
