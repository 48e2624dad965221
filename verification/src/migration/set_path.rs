//! Putting a value at the place that a path points at.
use crate::json::{
    json_member_models,
    json_models,
    lemma_members_with_is_found,
    lemma_position_depends_on_keys,
    lemma_position_is_first,
    members_with,
    JsonModel,
    JsonValue,
};
use crate::migration::json_path::{
    child_at,
    child_count,
    lemma_step_is_a_child,
    lemma_with_same_child,
    resolve_from,
    step_into,
    step_position,
    with_child,
    JsonPath,
    JsonPathError,
    PathErrorModel,
};
use crate::migration::part::{
    begins_with,
    count_after_mark,
    index_of_text,
    parse_index,
    starts_with,
};
use vstd::prelude::*;

verus! {

/// Why a value could not be put at a path.
#[derive(Debug, PartialEq)]
pub enum SetPathError {
    /// The path to the place could not be followed.
    PathError(JsonPathError),
    /// An array has no item at the index to replace.
    CannotReplaceMissingIndex,
    EmptyPath,
    /// The place is in an array, and the last part is no index.
    NotAnIndex(String),
    CannotSetOnANullValue,
    CannotSetOnABoolean,
    CannotSetOnANumber,
    CannotSetOnAString,
}

/// The mathematical model of a [`SetPathError`].
pub enum SetErrorModel {
    PathError(PathErrorModel),
    CannotReplaceMissingIndex,
    EmptyPath,
    NotAnIndex(Seq<char>),
    CannotSetOnANullValue,
    CannotSetOnABoolean,
    CannotSetOnANumber,
    CannotSetOnAString,
}

impl View for SetPathError {
    type V = SetErrorModel;

    open spec fn view(&self) -> SetErrorModel {
        match *self {
            SetPathError::PathError(error) => SetErrorModel::PathError(error@),
            SetPathError::CannotReplaceMissingIndex => SetErrorModel::CannotReplaceMissingIndex,
            SetPathError::EmptyPath => SetErrorModel::EmptyPath,
            SetPathError::NotAnIndex(part) => SetErrorModel::NotAnIndex(part@),
            SetPathError::CannotSetOnANullValue => SetErrorModel::CannotSetOnANullValue,
            SetPathError::CannotSetOnABoolean => SetErrorModel::CannotSetOnABoolean,
            SetPathError::CannotSetOnANumber => SetErrorModel::CannotSetOnANumber,
            SetPathError::CannotSetOnAString => SetErrorModel::CannotSetOnAString,
        }
    }
}

impl From<JsonPathError> for SetPathError {
    /// A path that could not be followed, as a reason why nothing was set.
    fn from(value: JsonPathError) -> (made: Self) {
        SetPathError::PathError(value)
    }
}

impl vstd::std_specs::convert::FromSpecImpl<JsonPathError> for SetPathError {
    open spec fn obeys_from_spec() -> bool {
        true
    }

    open spec fn from_spec(value: JsonPathError) -> Self {
        SetPathError::PathError(value)
    }
}

/// A value after another was put into it under the last part of a path.
///
/// In an object the part is the key. In an array, a part that starts with
/// `<` adds the value at the end and one that starts with `>` adds it at
/// the start; any other part is the index of the item to replace, which
/// must be there. Nothing can be put into any other value.
pub open spec fn place(node: JsonModel, last: Seq<char>, value: JsonModel) -> Result<
    JsonModel,
    SetErrorModel,
> {
    match node {
        JsonModel::Null => Err(SetErrorModel::CannotSetOnANullValue),
        JsonModel::Bool(_) => Err(SetErrorModel::CannotSetOnABoolean),
        JsonModel::Number(_) => Err(SetErrorModel::CannotSetOnANumber),
        JsonModel::String(_) => Err(SetErrorModel::CannotSetOnAString),
        JsonModel::Array(items) => {
            if starts_with(last, '<') {
                Ok(JsonModel::Array(items.push(value)))
            } else if starts_with(last, '>') {
                Ok(JsonModel::Array(items.insert(0, value)))
            } else {
                match index_of_text(last) {
                    None => Err(SetErrorModel::NotAnIndex(last)),
                    Some(index) => if index < items.len() {
                        Ok(JsonModel::Array(items.update(index as int, value)))
                    } else {
                        Err(SetErrorModel::CannotReplaceMissingIndex)
                    },
                }
            }
        },
        JsonModel::Object(members) => Ok(JsonModel::Object(members_with(members, last, value))),
    }
}

/// A value after another was put at the place that the parts of a path
/// from part `from` on point at. Without parts the value itself is
/// replaced. The last part says where in its parent the value goes; the
/// parts before it lead to that parent and must all be there.
pub open spec fn set_from(node: JsonModel, parts: Seq<Seq<char>>, from: int, value: JsonModel)
    -> Result<JsonModel, SetErrorModel>
    decreases parts.len() - from,
{
    if from < 0 || from >= parts.len() {
        Ok(value)
    } else if from == parts.len() - 1 {
        place(node, parts[from], value)
    } else {
        match step_position(node, parts[from]) {
            Err(error) => Err(SetErrorModel::PathError(error)),
            Ok(position) => match set_from(child_at(node, position), parts, from + 1, value) {
                Err(error) => Err(error),
                Ok(child) => Ok(with_child(node, position, child)),
            },
        }
    }
}

/// What setting did to a value, against what the model says: on success the
/// value is the one the model gives, on failure it is unchanged.
pub open spec fn set_as(
    outcome: Result<(), SetPathError>,
    before: JsonModel,
    after: JsonModel,
    expected: Result<JsonModel, SetErrorModel>,
) -> bool {
    match outcome {
        Ok(_) => expected == Ok::<JsonModel, SetErrorModel>(after),
        Err(error) => expected == Err::<JsonModel, SetErrorModel>(error@) && after == before,
    }
}

/// Puts a value into another under the last part of a path.
pub fn place_in(node: &mut JsonValue, last: &String, value: JsonValue) -> (outcome: Result<
    (),
    SetPathError,
>)
    ensures
        set_as(outcome, old(node)@, final(node)@, place(old(node)@, last@, value@)),
{
    let found = node.position(last);
    match node {
        JsonValue::Null => Err(SetPathError::CannotSetOnANullValue),
        JsonValue::Bool(_) => Err(SetPathError::CannotSetOnABoolean),
        JsonValue::Number(_) => Err(SetPathError::CannotSetOnANumber),
        JsonValue::String(_) => Err(SetPathError::CannotSetOnAString),
        JsonValue::Array(items) => {
            let ghost before = items@;
            if begins_with(last.as_str(), '<') {
                items.push(value);
                proof {
                    assert(json_models(items@) =~= json_models(before).push(value@));
                }
                Ok(())
            } else if begins_with(last.as_str(), '>') {
                items.insert(0, value);
                proof {
                    assert(json_models(items@) =~= json_models(before).insert(0, value@));
                }
                Ok(())
            } else {
                match parse_index(last.as_str()) {
                    None => Err(SetPathError::NotAnIndex(last.clone())),
                    Some(index) => {
                        if index < items.len() {
                            items[index] = value;
                            proof {
                                assert(json_models(items@) =~= json_models(before).update(
                                    index as int,
                                    value@,
                                ));
                            }
                            Ok(())
                        } else {
                            Err(SetPathError::CannotReplaceMissingIndex)
                        }
                    },
                }
            }
        },
        JsonValue::Object(members) => {
            let ghost before = members@;
            match found {
                Some(position) => {
                    proof {
                        lemma_position_is_first(json_member_models(before), last@, 0);
                    }
                    members[position].1 = value;
                    proof {
                        assert(json_member_models(members@) =~= json_member_models(before).update(
                            position as int,
                            (last@, value@),
                        ));
                    }
                },
                None => {
                    members.push((last.clone(), value));
                    proof {
                        assert(json_member_models(members@) =~= json_member_models(before).push(
                            (last@, value@),
                        ));
                    }
                },
            }
            Ok(())
        },
    }
}

/// Puts a value at the place that the parts of a path from part `from` on
/// point at.
pub fn set_in(node: &mut JsonValue, path: &JsonPath, from: usize, value: JsonValue) -> (outcome:
    Result<(), SetPathError>)
    requires
        from <= path@.len(),
    ensures
        set_as(outcome, old(node)@, final(node)@, set_from(old(node)@, path@, from as int, value@)),
    decreases path@.len() - from,
{
    if from == path.len() {
        *node = value;
        return Ok(());
    }
    if from == path.len() - 1 {
        return place_in(node, path.part(from), value);
    }
    let position = match JsonPath::position(node, path.part(from)) {
        Ok(position) => position,
        Err(error) => {
            return Err(SetPathError::PathError(error));
        },
    };
    proof {
        lemma_with_same_child(node@, position as int);
    }
    set_in(JsonPath::child_mut(node, position), path, from + 1, value)
}

/// Values that a value can be put into at a path.
pub trait SetPath {
    /// Puts a value at the place that a path points at.
    fn set_path(&mut self, path: &JsonPath, value: JsonValue) -> (outcome: Result<
        (),
        SetPathError,
    >);
}

impl SetPath for JsonValue {
    /// Puts a value at the place that a path points at. Where that fails,
    /// nothing changes.
    fn set_path(&mut self, path: &JsonPath, value: JsonValue) -> (outcome: Result<
        (),
        SetPathError,
    >)
        ensures
            set_as(outcome, old(self)@, final(self)@, set_from(old(self)@, path@, 0, value@)),
    {
        set_in(self, path, 0, value)
    }
}

/// The part points at the place where a value that was put under it is
/// found again: it is a key or an index, or a mark without a count, or with
/// the count 1.
pub open spec fn points_at_what_it_sets(part: Seq<char>) -> bool {
    &&& starts_with(part, '<') ==> count_after_mark(part, '<') == 1
    &&& !starts_with(part, '<') && starts_with(part, '>') ==> count_after_mark(part, '>') == 1
}

/// A part leads to the same position in a value after one of its children
/// was changed.
pub proof fn lemma_step_after_change(
    node: JsonModel,
    part: Seq<char>,
    position: int,
    child: JsonModel,
)
    requires
        0 <= position < child_count(node),
    ensures
        step_position(with_child(node, position, child), part) == step_position(node, part),
        child_at(with_child(node, position, child), position) == child,
        child_count(with_child(node, position, child)) == child_count(node),
{
    match node {
        JsonModel::Object(members) => {
            lemma_position_depends_on_keys(
                members.update(position, (members[position].0, child)),
                members,
                part,
                0,
            );
        },
        _ => {},
    }
}

/// What was set is what is found: after a value was put at a path, the path
/// leads to that value, where its last part points at what it sets.
pub proof fn lemma_resolve_finds_what_was_set(
    node: JsonModel,
    parts: Seq<Seq<char>>,
    from: int,
    value: JsonModel,
)
    requires
        0 <= from <= parts.len(),
        set_from(node, parts, from, value) is Ok,
        parts.len() > 0 ==> points_at_what_it_sets(parts.last()),
    ensures
        resolve_from(parts, set_from(node, parts, from, value)->Ok_0, from) == Ok::<
            JsonModel,
            PathErrorModel,
        >(value),
    decreases parts.len() - from,
{
    let after = set_from(node, parts, from, value)->Ok_0;
    if from >= parts.len() {
    } else if from == parts.len() - 1 {
        let last = parts[from];
        match node {
            JsonModel::Array(items) => {
                if !starts_with(last, '<') && !starts_with(last, '>') {
                    assert(index_of_text(last) is Some);
                }
            },
            JsonModel::Object(members) => {
                lemma_members_with_is_found(members, last, value);
            },
            _ => {},
        }
        assert(step_into(after, last) == Ok::<JsonModel, PathErrorModel>(value));
    } else {
        let position = step_position(node, parts[from])->Ok_0;
        let child = child_at(node, position);
        lemma_step_is_a_child(node, parts[from]);
        lemma_resolve_finds_what_was_set(child, parts, from + 1, value);
        let changed = set_from(child, parts, from + 1, value)->Ok_0;
        lemma_step_after_change(node, parts[from], position, changed);
    }
}

} // verus!
