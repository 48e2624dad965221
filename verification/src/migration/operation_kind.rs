//! The kinds of change that a migration makes to a JSON value.
pub mod value_source;

use crate::json::{json_member_models, json_models, member_position, JsonModel, JsonValue};
use crate::migration::json_path::{
    child_at,
    lemma_with_same_child,
    resolve_from,
    step_position,
    with_child,
    JsonPath,
    JsonPathError,
    PathErrorModel,
};
use crate::migration::operation_kind::value_source::{
    source_value,
    SourceModel,
    ValueSource,
    ValueSourceError,
};
use crate::migration::part::{index_of_text, parse_index};
use crate::migration::set_path::{set_from, set_in, SetErrorModel, SetPathError};
use vstd::prelude::*;

verus! {

/// Why a change could not be made.
#[derive(Debug, PartialEq)]
pub enum OperationError {
    /// A path could not be followed.
    PathError(JsonPathError),
    /// A value could not be put at a path.
    SetError(SetPathError),
    /// A source gave no value.
    SourceError(ValueSourceError),
    /// An item of an array was to be deleted, and the last part of the path
    /// is no index.
    NotAnIndex(String),
    /// Nothing can be deleted from this value: it is no array and no object.
    CannotDeleteOn(JsonValue),
}

/// The mathematical model of an [`OperationError`].
pub enum OperationErrorModel {
    PathError(PathErrorModel),
    SetError(SetErrorModel),
    SourceError(PathErrorModel),
    NotAnIndex(Seq<char>),
    CannotDeleteOn(JsonModel),
}

impl View for OperationError {
    type V = OperationErrorModel;

    open spec fn view(&self) -> OperationErrorModel {
        match *self {
            OperationError::PathError(error) => OperationErrorModel::PathError(error@),
            OperationError::SetError(error) => OperationErrorModel::SetError(error@),
            OperationError::SourceError(error) => OperationErrorModel::SourceError(error@),
            OperationError::NotAnIndex(part) => OperationErrorModel::NotAnIndex(part@),
            OperationError::CannotDeleteOn(value) => OperationErrorModel::CannotDeleteOn(value@),
        }
    }
}

/// A kind of change to the value at a path.
#[derive(Debug, PartialEq)]
pub enum OperationKind {
    /// Removes the value.
    Delete,
    /// Puts a copy of the value at another path.
    Copy { new_path: JsonPath },
    /// Moves the value to another path.
    Rename { new_path: JsonPath },
    /// Puts a given value at the path, and then the value of a source.
    Assign { value: Option<JsonValue>, source: Option<ValueSource> },
}

/// The mathematical model of an [`OperationKind`].
pub enum OperationModel {
    Delete,
    Copy(Seq<Seq<char>>),
    Rename(Seq<Seq<char>>),
    Assign(Option<JsonModel>, Option<SourceModel>),
}

impl View for OperationKind {
    type V = OperationModel;

    open spec fn view(&self) -> OperationModel {
        match *self {
            OperationKind::Delete => OperationModel::Delete,
            OperationKind::Copy { new_path } => OperationModel::Copy(new_path@),
            OperationKind::Rename { new_path } => OperationModel::Rename(new_path@),
            OperationKind::Assign { value, source } => OperationModel::Assign(
                match value {
                    Some(value) => Some(value@),
                    None => None,
                },
                match source {
                    Some(source) => Some(source@),
                    None => None,
                },
            ),
        }
    }
}

/// What a change leaves behind: how it ended, and the value after it.
pub struct Applied {
    pub outcome: Result<(), OperationErrorModel>,
    pub value: JsonModel,
}

/// A value without the child that the last part of a path names: the item
/// of an array at that index, which must be there, or the first member of
/// an object with that key, if there is one. Nothing can be removed from
/// any other value.
pub open spec fn remove_child(node: JsonModel, last: Seq<char>) -> Result<
    JsonModel,
    OperationErrorModel,
> {
    match node {
        JsonModel::Array(items) => match index_of_text(last) {
            None => Err(OperationErrorModel::NotAnIndex(last)),
            Some(index) => if index < items.len() {
                Ok(JsonModel::Array(items.remove(index as int)))
            } else {
                Err(OperationErrorModel::PathError(PathErrorModel::IndexNotFound(index)))
            },
        },
        JsonModel::Object(members) => match member_position(members, last) {
            Some(position) => Ok(JsonModel::Object(members.remove(position))),
            None => Ok(node),
        },
        _ => Err(OperationErrorModel::CannotDeleteOn(node)),
    }
}

/// A value without what the parts of a path from part `from` on point at.
/// Without parts the value itself goes, and `null` is left.
pub open spec fn delete_from(node: JsonModel, parts: Seq<Seq<char>>, from: int) -> Result<
    JsonModel,
    OperationErrorModel,
>
    decreases parts.len() - from,
{
    if from < 0 || from >= parts.len() {
        Ok(JsonModel::Null)
    } else if from == parts.len() - 1 {
        remove_child(node, parts[from])
    } else {
        match step_position(node, parts[from]) {
            Err(error) => Err(OperationErrorModel::PathError(error)),
            Ok(position) => match delete_from(child_at(node, position), parts, from + 1) {
                Err(error) => Err(error),
                Ok(child) => Ok(with_child(node, position, child)),
            },
        }
    }
}

/// What deleting the value at a path leaves behind.
pub open spec fn delete_applied(path: Seq<Seq<char>>, working: JsonModel) -> Applied {
    match delete_from(working, path, 0) {
        Ok(value) => Applied { outcome: Ok(()), value },
        Err(error) => Applied { outcome: Err(error), value: working },
    }
}

/// What putting a value at a path leaves behind.
pub open spec fn set_applied(path: Seq<Seq<char>>, value: JsonModel, working: JsonModel) -> Applied {
    match set_from(working, path, 0, value) {
        Ok(value) => Applied { outcome: Ok(()), value },
        Err(error) => Applied { outcome: Err(OperationErrorModel::SetError(error)), value: working },
    }
}

/// What copying the value at a path to another path leaves behind.
pub open spec fn copy_applied(path: Seq<Seq<char>>, new_path: Seq<Seq<char>>, working: JsonModel)
    -> Applied {
    match resolve_from(path, working, 0) {
        Err(error) => Applied {
            outcome: Err(OperationErrorModel::PathError(error)),
            value: working,
        },
        Ok(value) => set_applied(new_path, value, working),
    }
}

/// What putting the value of a source at a path leaves behind.
pub open spec fn source_applied(path: Seq<Seq<char>>, source: SourceModel, working: JsonModel)
    -> Applied {
    match source_value(source, working) {
        Err(error) => Applied {
            outcome: Err(OperationErrorModel::SourceError(error)),
            value: working,
        },
        Ok(value) => set_applied(path, value, working),
    }
}

/// What a change to the value at a path leaves behind.
///
/// A rename is a copy and then a delete; a set puts the given value, if
/// there is one, and then the value of the source, if there is one. Where
/// the second step of either fails, what the first step did stays.
pub open spec fn applied(kind: OperationModel, path: Seq<Seq<char>>, working: JsonModel)
    -> Applied {
    match kind {
        OperationModel::Delete => delete_applied(path, working),
        OperationModel::Copy(new_path) => copy_applied(path, new_path, working),
        OperationModel::Rename(new_path) => {
            let copied = copy_applied(path, new_path, working);
            if copied.outcome is Ok {
                delete_applied(path, copied.value)
            } else {
                copied
            }
        },
        OperationModel::Assign(value, source) => {
            let first = match value {
                Some(value) => set_applied(path, value, working),
                None => Applied { outcome: Ok(()), value: working },
            };
            if first.outcome is Ok {
                match source {
                    Some(source) => source_applied(path, source, first.value),
                    None => first,
                }
            } else {
                first
            }
        },
    }
}

/// How a change ended and what it left, as a model.
pub open spec fn applied_model(outcome: Result<(), OperationError>, after: JsonModel) -> Applied {
    Applied {
        outcome: match outcome {
            Ok(_) => Ok(()),
            Err(error) => Err(error@),
        },
        value: after,
    }
}

/// Removes from a value the child that the last part of a path names.
pub fn remove_from(node: &mut JsonValue, last: &String) -> (outcome: Result<(), OperationError>)
    ensures
        match outcome {
            Ok(_) => remove_child(old(node)@, last@) == Ok::<JsonModel, OperationErrorModel>(
                final(node)@,
            ),
            Err(error) => remove_child(old(node)@, last@) == Err::<JsonModel, OperationErrorModel>(
                error@,
            ) && final(node)@ == old(node)@,
        },
{
    let found = node.position(last);
    let copy = match node {
        JsonValue::Array(_) => None,
        JsonValue::Object(_) => None,
        _ => Some(node.clone()),
    };
    match node {
        JsonValue::Array(items) => {
            let ghost before = items@;
            match parse_index(last.as_str()) {
                None => Err(OperationError::NotAnIndex(last.clone())),
                Some(index) => {
                    if index < items.len() {
                        let _ = items.remove(index);
                        proof {
                            assert(json_models(items@) =~= json_models(before).remove(
                                index as int,
                            ));
                        }
                        Ok(())
                    } else {
                        Err(OperationError::PathError(JsonPathError::IndexNotFound(index)))
                    }
                },
            }
        },
        JsonValue::Object(members) => {
            let ghost before = members@;
            match found {
                Some(position) => {
                    let _ = members.remove(position);
                    proof {
                        assert(json_member_models(members@) =~= json_member_models(before).remove(
                            position as int,
                        ));
                    }
                },
                None => {},
            }
            Ok(())
        },
        _ => match copy {
            Some(copy) => Err(OperationError::CannotDeleteOn(copy)),
            None => Ok(()),
        },
    }
}

/// Removes from a value what the parts of a path from part `from` on point
/// at.
pub fn delete_in(node: &mut JsonValue, path: &JsonPath, from: usize) -> (outcome: Result<
    (),
    OperationError,
>)
    requires
        from <= path@.len(),
    ensures
        match outcome {
            Ok(_) => delete_from(old(node)@, path@, from as int) == Ok::<
                JsonModel,
                OperationErrorModel,
            >(final(node)@),
            Err(error) => delete_from(old(node)@, path@, from as int) == Err::<
                JsonModel,
                OperationErrorModel,
            >(error@) && final(node)@ == old(node)@,
        },
    decreases path@.len() - from,
{
    if from == path.len() {
        *node = JsonValue::Null;
        return Ok(());
    }
    if from == path.len() - 1 {
        return remove_from(node, path.part(from));
    }
    let position = match JsonPath::position(node, path.part(from)) {
        Ok(position) => position,
        Err(error) => {
            return Err(OperationError::PathError(error));
        },
    };
    proof {
        lemma_with_same_child(node@, position as int);
    }
    delete_in(JsonPath::child_mut(node, position), path, from + 1)
}

impl OperationKind {
    /// Removes the value at a path.
    pub fn delete(path: &JsonPath, working_value: &mut JsonValue) -> (outcome: Result<
        (),
        OperationError,
    >)
        ensures
            applied_model(outcome, final(working_value)@) == delete_applied(
                path@,
                old(working_value)@,
            ),
    {
        delete_in(working_value, path, 0)
    }

    /// Puts a value at a path.
    pub fn put(path: &JsonPath, value: JsonValue, working_value: &mut JsonValue) -> (outcome:
        Result<(), OperationError>)
        ensures
            applied_model(outcome, final(working_value)@) == set_applied(
                path@,
                value@,
                old(working_value)@,
            ),
    {
        match set_in(working_value, path, 0, value) {
            Ok(_) => Ok(()),
            Err(error) => Err(OperationError::SetError(error)),
        }
    }

    /// Puts a copy of the value at a path at another path.
    pub fn copy(path: &JsonPath, new_path: &JsonPath, working_value: &mut JsonValue) -> (outcome:
        Result<(), OperationError>)
        ensures
            applied_model(outcome, final(working_value)@) == copy_applied(
                path@,
                new_path@,
                old(working_value)@,
            ),
    {
        let value = match path.resolve(working_value) {
            Ok(found) => found.clone(),
            Err(error) => {
                return Err(OperationError::PathError(error));
            },
        };
        Self::put(new_path, value, working_value)
    }

    /// Puts the value that a source gives at a path.
    pub fn put_source(path: &JsonPath, source: &ValueSource, working_value: &mut JsonValue) -> (outcome:
        Result<(), OperationError>)
        ensures
            applied_model(outcome, final(working_value)@) == source_applied(
                path@,
                source@,
                old(working_value)@,
            ),
    {
        let value = match source.resolve(working_value) {
            Ok(value) => value,
            Err(error) => {
                return Err(OperationError::SourceError(error));
            },
        };
        Self::put(path, value, working_value)
    }

    /// Makes this change to the value at a path.
    pub fn apply(&self, path: &JsonPath, working_value: &mut JsonValue) -> (outcome: Result<
        (),
        OperationError,
    >)
        ensures
            applied_model(outcome, final(working_value)@) == applied(
                self@,
                path@,
                old(working_value)@,
            ),
    {
        match self {
            OperationKind::Delete => Self::delete(path, working_value),
            OperationKind::Copy { new_path } => Self::copy(path, new_path, working_value),
            OperationKind::Rename { new_path } => {
                match Self::copy(path, new_path, working_value) {
                    Ok(_) => Self::delete(path, working_value),
                    Err(error) => Err(error),
                }
            },
            OperationKind::Assign { value, source } => {
                if let Some(value) = value {
                    match Self::put(path, value.clone(), working_value) {
                        Ok(_) => {},
                        Err(error) => {
                            return Err(error);
                        },
                    }
                }
                if let Some(source) = source {
                    Self::put_source(path, source, working_value)
                } else {
                    Ok(())
                }
            },
        }
    }

    /// The change that puts a given value.
    pub fn set_value(value: JsonValue) -> (kind: Self)
        ensures
            kind@ == OperationModel::Assign(Some(value@), None),
    {
        OperationKind::Assign { value: Some(value), source: None }
    }

    /// The change that puts the value of a source.
    pub fn set_source(source: ValueSource) -> (kind: Self)
        ensures
            kind@ == OperationModel::Assign(None, Some(source@)),
    {
        OperationKind::Assign { value: None, source: Some(source) }
    }
}

} // verus!
