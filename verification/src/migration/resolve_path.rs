//! Following a path that is given as text.
use crate::json::{JsonModel, JsonValue};
use crate::migration::json_path::{
    replaced_from,
    resolve_from,
    root_text,
    split_at_dots,
    JsonPath,
    JsonPathError,
    PathErrorModel,
};
use vstd::prelude::*;

verus! {

/// Why a path given as text could not be followed.
#[derive(Debug, PartialEq)]
pub enum PathResolveError {
    /// The text does not start at the root, `$`.
    NoRoot,
    /// An object has no such key.
    KeyNotFound(String),
    /// An array was reached, and the part is no index.
    NotAnIndex(String),
    /// An array has no item at this index.
    IndexNotFound(usize),
    CannotMatchOnANullValue,
    CannotMatchOnABoolean,
    CannotMatchOnANumber,
    CannotMatchOnAString,
    /// An array is empty and has no first item.
    NoFirstItem,
    /// An array is empty and has no last item.
    NoLastItem,
}

impl View for PathResolveError {
    type V = PathErrorModel;

    /// The model is that of a [`JsonPathError`]: a text without a root is a
    /// text that failed to parse.
    open spec fn view(&self) -> PathErrorModel {
        match *self {
            PathResolveError::NoRoot => PathErrorModel::FailedToParse,
            PathResolveError::KeyNotFound(key) => PathErrorModel::KeyNotFound(key@),
            PathResolveError::NotAnIndex(part) => PathErrorModel::NotAnIndex(part@),
            PathResolveError::IndexNotFound(index) => PathErrorModel::IndexNotFound(index),
            PathResolveError::CannotMatchOnANullValue => PathErrorModel::CannotMatchOnANullValue,
            PathResolveError::CannotMatchOnABoolean => PathErrorModel::CannotMatchOnABoolean,
            PathResolveError::CannotMatchOnANumber => PathErrorModel::CannotMatchOnANumber,
            PathResolveError::CannotMatchOnAString => PathErrorModel::CannotMatchOnAString,
            PathResolveError::NoFirstItem => PathErrorModel::NoFirstItem,
            PathResolveError::NoLastItem => PathErrorModel::NoLastItem,
        }
    }
}

impl From<JsonPathError> for PathResolveError {
    /// The same failure, said of a path given as text.
    fn from(value: JsonPathError) -> (made: Self)
        ensures
            made@ == value@,
    {
        match value {
            JsonPathError::FailedToParse => PathResolveError::NoRoot,
            JsonPathError::KeyNotFound(key) => PathResolveError::KeyNotFound(key),
            JsonPathError::NotAnIndex(part) => PathResolveError::NotAnIndex(part),
            JsonPathError::IndexNotFound(index) => PathResolveError::IndexNotFound(index),
            JsonPathError::CannotMatchOnANullValue => PathResolveError::CannotMatchOnANullValue,
            JsonPathError::CannotMatchOnABoolean => PathResolveError::CannotMatchOnABoolean,
            JsonPathError::CannotMatchOnANumber => PathResolveError::CannotMatchOnANumber,
            JsonPathError::CannotMatchOnAString => PathResolveError::CannotMatchOnAString,
            JsonPathError::NoFirstItem => PathResolveError::NoFirstItem,
            JsonPathError::NoLastItem => PathResolveError::NoLastItem,
        }
    }
}

impl vstd::std_specs::convert::FromSpecImpl<JsonPathError> for PathResolveError {
    open spec fn obeys_from_spec() -> bool {
        true
    }

    open spec fn from_spec(value: JsonPathError) -> Self {
        match value {
            JsonPathError::FailedToParse => PathResolveError::NoRoot,
            JsonPathError::KeyNotFound(key) => PathResolveError::KeyNotFound(key),
            JsonPathError::NotAnIndex(part) => PathResolveError::NotAnIndex(part),
            JsonPathError::IndexNotFound(index) => PathResolveError::IndexNotFound(index),
            JsonPathError::CannotMatchOnANullValue => PathResolveError::CannotMatchOnANullValue,
            JsonPathError::CannotMatchOnABoolean => PathResolveError::CannotMatchOnABoolean,
            JsonPathError::CannotMatchOnANumber => PathResolveError::CannotMatchOnANumber,
            JsonPathError::CannotMatchOnAString => PathResolveError::CannotMatchOnAString,
            JsonPathError::NoFirstItem => PathResolveError::NoFirstItem,
            JsonPathError::NoLastItem => PathResolveError::NoLastItem,
        }
    }
}

/// Where a path given as text leads from a value: the text is cut at its
/// dots, the first piece must be the root, and the other pieces are the
/// parts to follow.
pub open spec fn resolve_text(path: Seq<char>, value: JsonModel) -> Result<
    JsonModel,
    PathErrorModel,
> {
    let pieces = split_at_dots(path);
    if pieces[0] == root_text() {
        resolve_from(pieces.subrange(1, pieces.len() as int), value, 0)
    } else {
        Err(PathErrorModel::FailedToParse)
    }
}

/// Follows a path given as text from a value and gives the value it leads
/// to.
pub fn resolve_path<'a>(path: &str, value: &'a JsonValue) -> (found: Result<
    &'a JsonValue,
    PathResolveError,
>)
    ensures
        match found {
            Ok(reached) => resolve_text(path@, value@) == Ok::<JsonModel, PathErrorModel>(
                reached@,
            ),
            Err(error) => resolve_text(path@, value@) == Err::<JsonModel, PathErrorModel>(error@),
        },
{
    match JsonPath::from_str(path) {
        Ok(parsed) => match parsed.resolve(value) {
            Ok(reached) => Ok(reached),
            Err(error) => Err(PathResolveError::from(error)),
        },
        Err(_) => Err(PathResolveError::NoRoot),
    }
}

/// A value with another value at the place that a path given as text leads
/// to; the value itself where the path leads nowhere.
pub open spec fn replaced_text(path: Seq<char>, value: JsonModel, replacement: JsonModel)
    -> JsonModel {
    let pieces = split_at_dots(path);
    if pieces[0] == root_text() {
        replaced_from(value, pieces.subrange(1, pieces.len() as int), 0, replacement)
    } else {
        value
    }
}

/// Follows a path given as text from a value and gives the place it leads
/// to, to be changed there.
pub fn resolve_path_mut<'a>(path: &str, value: &'a mut JsonValue) -> (found: Result<
    &'a mut JsonValue,
    PathResolveError,
>)
    ensures
        match found {
            Ok(place) => {
                &&& resolve_text(path@, old(value)@) == Ok::<JsonModel, PathErrorModel>(place@)
                &&& final(value)@ == replaced_text(path@, old(value)@, final(place)@)
            },
            Err(error) => {
                &&& resolve_text(path@, old(value)@) == Err::<JsonModel, PathErrorModel>(error@)
                &&& final(value)@ == old(value)@
            },
        },
{
    match JsonPath::from_str(path) {
        Ok(parsed) => match parsed.resolve_mut(value) {
            Ok(place) => Ok(place),
            Err(error) => Err(PathResolveError::from(error)),
        },
        Err(_) => Err(PathResolveError::NoRoot),
    }
}

} // verus!
