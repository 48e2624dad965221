//! Laws of validation, each proved from the model of the schemas.
//!
//! The laws of objects and their keys stand in [`crate::json`], those of
//! paths and of putting values in [`crate::migration`].
use crate::json::{member_lookup, JsonModel, JsonValue};
use crate::schema_type::basic_type::{basic_verdict, BasicErrorModel, BasicType};
use crate::schema_type::model::{
    advanced_verdict,
    any_of_verdict,
    array_verdict,
    items_verdict_from,
    object_verdict,
    object_verdict_from,
    optional_verdict,
    outcome_model,
    schema_verdict,
    tuple_verdict,
    tuple_verdict_from,
    AdvancedErrorModel,
    AdvancedModel,
    ArrayErrorModel,
    ArrayModel,
    FieldModel,
    ObjectErrorModel,
    SchemaModel,
    TupleErrorModel,
};
use crate::schema_type::literal::{basic_literal_name, basic_type_of, literal_of, schema_of};
use crate::schema_type::{SchemaType, SchemaTypeValidationError};
use vstd::prelude::*;
use vstd::string::*;

verus! {

/// The null matcher accepts `null` and nothing else: any other value is
/// rejected as being of an incorrect type, and the error holds the matcher
/// and that value.
pub proof fn lemma_null_matches_only_null(value: JsonModel)
    ensures
        value is Null ==> basic_verdict(BasicType::Null, value) is Ok,
        !(value is Null) ==> basic_verdict(BasicType::Null, value) == Err::<(), BasicErrorModel>(
            BasicErrorModel::IncorrectType(BasicType::Null, value),
        ),
{
}

/// The matcher for any value accepts every value.
pub proof fn lemma_any_matches_everything(value: JsonModel)
    ensures
        basic_verdict(BasicType::Any, value) is Ok,
{
}

/// Validation is a function of the schema and the value: two validations of
/// the same value against the same schema give the same outcome.
pub proof fn lemma_validation_is_deterministic(
    schema: SchemaType,
    value: JsonValue,
    first: Result<(), SchemaTypeValidationError>,
    second: Result<(), SchemaTypeValidationError>,
)
    requires
        call_ensures(SchemaType::validate, (&schema, &value), first),
        call_ensures(SchemaType::validate, (&schema, &value), second),
    ensures
        outcome_model(first) == outcome_model(second),
        outcome_model(first) == schema_verdict(schema@, value@),
{
}

/// An optional schema accepts `null` whatever the schema inside, and leaves
/// every other value to the schema inside, whose outcome it hands on
/// unchanged.
pub proof fn lemma_optional_accepts_null_and_forwards(kind: SchemaModel, value: JsonModel)
    ensures
        optional_verdict(kind, JsonModel::Null) is Ok,
        !(value is Null) ==> optional_verdict(kind, value) == schema_verdict(kind, value),
{
}

/// A union that rejects a value was rejected by every variant, and its
/// error holds all the variants; a union with a variant that accepts the
/// value accepts it.
pub proof fn lemma_any_of_error_is_exhaustive(variants: Seq<SchemaModel>, value: JsonModel)
    ensures
        any_of_verdict(variants, value) is Err ==> {
            &&& any_of_verdict(variants, value) == Err::<(), Seq<SchemaModel>>(variants)
            &&& forall|i: int|
                0 <= i < variants.len() ==> (#[trigger] schema_verdict(variants[i], value)) is Err
        },
        forall|i: int|
            0 <= i < variants.len() && (#[trigger] schema_verdict(variants[i], value)) is Ok
                ==> any_of_verdict(variants, value) is Ok,
{
}

/// A tuple rejects an array of another length than its own, and the error
/// holds the length found and then the length expected.
pub proof fn lemma_tuple_length_mismatch(items: Seq<SchemaModel>, values: Seq<JsonModel>)
    requires
        values.len() != items.len(),
    ensures
        tuple_verdict(items, JsonModel::Array(values)) == Err::<(), TupleErrorModel>(
            TupleErrorModel::IncorrectLength(values.len() as usize, items.len() as usize),
        ),
{
}

/// An array matcher that requires a filled array rejects the empty array;
/// one that does not, and the array shorthand, accept it, whatever the item
/// schema.
pub proof fn lemma_empty_array(items: SchemaModel)
    ensures
        array_verdict(true, items, JsonModel::Array(Seq::empty())) == Err::<(), ArrayErrorModel>(
            ArrayErrorModel::RequireFilled,
        ),
        array_verdict(false, items, JsonModel::Array(Seq::empty())) is Ok,
        schema_verdict(SchemaModel::Array(Box::new(items)), JsonModel::Array(Seq::empty())) is Ok,
{
}

/// An object schema rejects anything but an object, and an object schema
/// without entries accepts every object.
pub proof fn lemma_object_kind(entries: Seq<(Seq<char>, SchemaModel)>, value: JsonModel)
    ensures
        !(value is Object) ==> object_verdict(entries, value) == Err::<(), ObjectErrorModel>(
            ObjectErrorModel::NotAnObject,
        ),
        value is Object ==> object_verdict(Seq::empty(), value) is Ok,
{
}

/// A shorthand validates as the matcher it stands for: the tuple and the
/// object shorthand as the tuple and the object matcher with the same
/// entries, the array shorthand as the array matcher that accepts an empty
/// array. Outcome and error are the same.
pub proof fn lemma_shorthand_is_its_matcher(
    items: Seq<SchemaModel>,
    entries: Seq<(Seq<char>, SchemaModel)>,
    item: SchemaModel,
    value: JsonModel,
)
    ensures
        schema_verdict(SchemaModel::Tuple(items), value) == schema_verdict(
            SchemaModel::Advanced(AdvancedModel::Tuple(items)),
            value,
        ),
        schema_verdict(SchemaModel::Object(entries), value) == schema_verdict(
            SchemaModel::Advanced(AdvancedModel::Object(entries)),
            value,
        ),
        schema_verdict(SchemaModel::Array(Box::new(item)), value) == schema_verdict(
            SchemaModel::Advanced(
                AdvancedModel::Array(ArrayModel { require_filled: false, items: Box::new(item) }),
            ),
            value,
        ),
{
    assert(advanced_verdict(AdvancedModel::Tuple(items), value) == match tuple_verdict(
        items,
        value,
    ) {
        Ok(_) => Ok::<(), AdvancedErrorModel>(()),
        Err(error) => Err(AdvancedErrorModel::Tuple(error)),
    });
    assert(advanced_verdict(AdvancedModel::Object(entries), value) == match object_verdict(
        entries,
        value,
    ) {
        Ok(_) => Ok::<(), AdvancedErrorModel>(()),
        Err(error) => Err(AdvancedErrorModel::Object(error)),
    });
    assert(advanced_verdict(
        AdvancedModel::Array(ArrayModel { require_filled: false, items: Box::new(item) }),
        value,
    ) == match array_verdict(false, item, value) {
        Ok(_) => Ok::<(), AdvancedErrorModel>(()),
        Err(error) => Err(AdvancedErrorModel::Array(error)),
    });
}

/// The label and the hint of a field play no part in validation: a field
/// validates as its schema.
pub proof fn lemma_field_validates_as_its_schema(field: FieldModel, value: JsonModel)
    ensures
        schema_verdict(SchemaModel::Field(field), value) == schema_verdict(
            *field.field_type,
            value,
        ),
{
}

/// The name that writes a basic matcher in a literal reads back as that
/// matcher: the names are all different.
pub proof fn lemma_basic_names_read_back(kind: BasicType)
    ensures
        basic_type_of(basic_literal_name(kind)) == Some(kind),
        schema_of(literal_of(SchemaModel::Basic(kind))) == Some(SchemaModel::Basic(kind)),
{
    reveal_strlit("any");
    assert("any"@.len() == 3 && "any"@[0] == 'a' && "any"@[1] == 'n');
    reveal_strlit("boolean");
    assert("boolean"@.len() == 7 && "boolean"@[0] == 'b' && "boolean"@[1] == 'o');
    reveal_strlit("string");
    assert("string"@.len() == 6 && "string"@[0] == 's' && "string"@[1] == 't');
    reveal_strlit("filledString");
    assert("filledString"@.len() == 12 && "filledString"@[0] == 'f' && "filledString"@[1] == 'i');
    reveal_strlit("number");
    assert("number"@.len() == 6 && "number"@[0] == 'n' && "number"@[1] == 'u');
    reveal_strlit("positiveNumber");
    assert("positiveNumber"@.len() == 14 && "positiveNumber"@[0] == 'p' && "positiveNumber"@[1] == 'o');
    reveal_strlit("negativeNumber");
    assert("negativeNumber"@.len() == 14 && "negativeNumber"@[0] == 'n' && "negativeNumber"@[1] == 'e');
    reveal_strlit("u8");
    assert("u8"@.len() == 2 && "u8"@[0] == 'u' && "u8"@[1] == '8');
    reveal_strlit("u16");
    assert("u16"@.len() == 3 && "u16"@[0] == 'u' && "u16"@[1] == '1');
    reveal_strlit("u32");
    assert("u32"@.len() == 3 && "u32"@[0] == 'u' && "u32"@[1] == '3');
    reveal_strlit("u64");
    assert("u64"@.len() == 3 && "u64"@[0] == 'u' && "u64"@[1] == '6');
    reveal_strlit("i8");
    assert("i8"@.len() == 2 && "i8"@[0] == 'i' && "i8"@[1] == '8');
    reveal_strlit("i16");
    assert("i16"@.len() == 3 && "i16"@[0] == 'i' && "i16"@[1] == '1');
    reveal_strlit("i32");
    assert("i32"@.len() == 3 && "i32"@[0] == 'i' && "i32"@[1] == '3');
    reveal_strlit("i64");
    assert("i64"@.len() == 3 && "i64"@[0] == 'i' && "i64"@[1] == '6');
    reveal_strlit("null");
    assert("null"@.len() == 4 && "null"@[0] == 'n' && "null"@[1] == 'u');
    reveal_strlit("object");
    assert("object"@.len() == 6 && "object"@[0] == 'o' && "object"@[1] == 'b');
    reveal_strlit("array");
    assert("array"@.len() == 5 && "array"@[0] == 'a' && "array"@[1] == 'r');
    reveal_strlit("uuid");
    assert("uuid"@.len() == 4 && "uuid"@[0] == 'u' && "uuid"@[1] == 'u');
    reveal_strlit("email");
}

/// An object schema looks at nothing but the values under the keys it
/// names: two objects that hold the same under each of these keys get the
/// same outcome, whatever else they hold.
pub proof fn lemma_object_check_ignores_other_keys(
    entries: Seq<(Seq<char>, SchemaModel)>,
    first: Seq<(Seq<char>, JsonModel)>,
    second: Seq<(Seq<char>, JsonModel)>,
    from: int,
)
    requires
        forall|i: int|
            0 <= i < entries.len() ==> member_lookup(first, #[trigger] entries[i].0)
                == member_lookup(second, entries[i].0),
    ensures
        object_verdict_from(entries, first, from) == object_verdict_from(entries, second, from),
        from == 0 ==> object_verdict(entries, JsonModel::Object(first)) == object_verdict(
            entries,
            JsonModel::Object(second),
        ),
    decreases entries.len() - from,
{
    if 0 <= from < entries.len() {
        lemma_object_check_ignores_other_keys(entries, first, second, from + 1);
    }
}

/// The items that an item schema is checked against from position `from`
/// on are all accepted exactly when the check of them succeeds.
pub proof fn lemma_items_accepted_one_by_one(items: SchemaModel, values: Seq<JsonModel>, from: int)
    requires
        0 <= from,
    ensures
        items_verdict_from(items, values, from) is Ok <==> forall|i: int|
            from <= i < values.len() ==> (#[trigger] schema_verdict(items, values[i])) is Ok,
    decreases values.len() - from,
{
    if from < values.len() {
        lemma_items_accepted_one_by_one(items, values, from + 1);
        let head = schema_verdict(items, values[from]);
        if head is Ok && items_verdict_from(items, values, from + 1) is Ok {
            assert forall|i: int| from <= i < values.len() implies (#[trigger] schema_verdict(
                items,
                values[i],
            )) is Ok by {}
        }
    }
}

/// An array matcher accepts exactly the arrays that are filled where that
/// is required and whose items the item schema accepts, every one of them.
pub proof fn lemma_array_accepts_all_or_nothing(
    require_filled: bool,
    items: SchemaModel,
    values: Seq<JsonModel>,
)
    ensures
        array_verdict(require_filled, items, JsonModel::Array(values)) is Ok <==> {
            &&& !(require_filled && values.len() == 0)
            &&& forall|i: int|
                0 <= i < values.len() ==> (#[trigger] schema_verdict(items, values[i])) is Ok
        },
{
    lemma_items_accepted_one_by_one(items, values, 0);
}

/// The positions of a tuple from `from` on accept their items, every one
/// of them, exactly when the check of them succeeds.
pub proof fn lemma_positions_accepted_one_by_one(
    items: Seq<SchemaModel>,
    values: Seq<JsonModel>,
    from: int,
)
    requires
        0 <= from,
        items.len() == values.len(),
    ensures
        tuple_verdict_from(items, values, from) is Ok <==> forall|i: int|
            from <= i < items.len() ==> (#[trigger] schema_verdict(items[i], values[i])) is Ok,
    decreases items.len() - from,
{
    if from < items.len() {
        lemma_positions_accepted_one_by_one(items, values, from + 1);
        let head = schema_verdict(items[from], values[from]);
        if head is Ok && tuple_verdict_from(items, values, from + 1) is Ok {
            assert forall|i: int| from <= i < items.len() implies (#[trigger] schema_verdict(
                items[i],
                values[i],
            )) is Ok by {}
        }
    }
}

/// A tuple accepts exactly the arrays of its own length whose items its
/// positions accept, each its own.
pub proof fn lemma_tuple_accepts_position_by_position(
    items: Seq<SchemaModel>,
    values: Seq<JsonModel>,
)
    ensures
        tuple_verdict(items, JsonModel::Array(values)) is Ok <==> {
            &&& values.len() == items.len()
            &&& forall|i: int|
                0 <= i < items.len() ==> (#[trigger] schema_verdict(items[i], values[i])) is Ok
        },
{
    if values.len() == items.len() {
        lemma_positions_accepted_one_by_one(items, values, 0);
    }
}

/// Validation fails fast: the error of a tuple is that of the first
/// position, in order, that rejects its item.
pub proof fn lemma_tuple_fails_at_the_first_rejection(
    items: Seq<SchemaModel>,
    values: Seq<JsonModel>,
    from: int,
    rejected: int,
)
    requires
        0 <= from <= rejected < items.len(),
        items.len() == values.len(),
        schema_verdict(items[rejected], values[rejected]) is Err,
        forall|i: int|
            from <= i < rejected ==> (#[trigger] schema_verdict(items[i], values[i])) is Ok,
    ensures
        tuple_verdict_from(items, values, from) == Err::<(), TupleErrorModel>(
            TupleErrorModel::Schema(
                Box::new(schema_verdict(items[rejected], values[rejected])->Err_0),
            ),
        ),
    decreases rejected - from,
{
    if from < rejected {
        lemma_tuple_fails_at_the_first_rejection(items, values, from + 1, rejected);
        assert(schema_verdict(items[from], values[from]) is Ok);
    }
}

} // verus!
