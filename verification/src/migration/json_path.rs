//! Paths into a JSON value, written as `$`, a dot, and the parts of the
//! path with dots between them.
use crate::json::{
    json_member_models,
    json_models,
    lemma_member_models_of_update,
    lemma_position_is_first,
    lemma_models_of_update,
    member_position,
    JsonModel,
    JsonValue,
};
use crate::migration::part::{
    begins_with,
    count_after_mark,
    index_of_text,
    parse_count,
    parse_index,
    starts_with,
};
use vstd::prelude::*;
use vstd::string::*;

verus! {

/// Why a path could not be read or followed.
#[derive(Debug, PartialEq)]
pub enum JsonPathError {
    /// The text does not start at the root, `$`.
    FailedToParse,
    /// An object has no such key.
    KeyNotFound(String),
    /// An array was reached, and the part is no index.
    NotAnIndex(String),
    /// An array has no item at this index.
    IndexNotFound(usize),
    CannotMatchOnANullValue,
    CannotMatchOnABoolean,
    CannotMatchOnANumber,
    CannotMatchOnAString,
    /// An array is empty and has no first item.
    NoFirstItem,
    /// An array is empty and has no last item.
    NoLastItem,
}

/// The mathematical model of a [`JsonPathError`].
pub enum PathErrorModel {
    FailedToParse,
    KeyNotFound(Seq<char>),
    NotAnIndex(Seq<char>),
    IndexNotFound(usize),
    CannotMatchOnANullValue,
    CannotMatchOnABoolean,
    CannotMatchOnANumber,
    CannotMatchOnAString,
    NoFirstItem,
    NoLastItem,
}

impl View for JsonPathError {
    type V = PathErrorModel;

    open spec fn view(&self) -> PathErrorModel {
        match *self {
            JsonPathError::FailedToParse => PathErrorModel::FailedToParse,
            JsonPathError::KeyNotFound(key) => PathErrorModel::KeyNotFound(key@),
            JsonPathError::NotAnIndex(part) => PathErrorModel::NotAnIndex(part@),
            JsonPathError::IndexNotFound(index) => PathErrorModel::IndexNotFound(index),
            JsonPathError::CannotMatchOnANullValue => PathErrorModel::CannotMatchOnANullValue,
            JsonPathError::CannotMatchOnABoolean => PathErrorModel::CannotMatchOnABoolean,
            JsonPathError::CannotMatchOnANumber => PathErrorModel::CannotMatchOnANumber,
            JsonPathError::CannotMatchOnAString => PathErrorModel::CannotMatchOnAString,
            JsonPathError::NoFirstItem => PathErrorModel::NoFirstItem,
            JsonPathError::NoLastItem => PathErrorModel::NoLastItem,
        }
    }
}

/// The position in an array of a given length that a part points at: an
/// index; or `<` and a count, for an item counted from the end; or `>` and
/// a count, for an item counted from the start. A count of 1, or none, is
/// the item at that end.
pub open spec fn item_position(length: nat, part: Seq<char>) -> Result<int, PathErrorModel> {
    if starts_with(part, '<') {
        let count = count_after_mark(part, '<');
        if 1 <= count <= length {
            Ok(length - count)
        } else {
            Err(PathErrorModel::NoLastItem)
        }
    } else if starts_with(part, '>') {
        let count = count_after_mark(part, '>');
        if 1 <= count <= length {
            Ok(count - 1)
        } else {
            Err(PathErrorModel::NoFirstItem)
        }
    } else {
        match index_of_text(part) {
            None => Err(PathErrorModel::NotAnIndex(part)),
            Some(index) => if index < length {
                Ok(index as int)
            } else {
                Err(PathErrorModel::IndexNotFound(index))
            },
        }
    }
}

/// The position of the child that one part of a path leads to: an item of
/// an array, or the first member of an object with the part as its key. No
/// part leads on from any other value.
pub open spec fn step_position(value: JsonModel, part: Seq<char>) -> Result<int, PathErrorModel> {
    match value {
        JsonModel::Null => Err(PathErrorModel::CannotMatchOnANullValue),
        JsonModel::Bool(_) => Err(PathErrorModel::CannotMatchOnABoolean),
        JsonModel::Number(_) => Err(PathErrorModel::CannotMatchOnANumber),
        JsonModel::String(_) => Err(PathErrorModel::CannotMatchOnAString),
        JsonModel::Array(items) => item_position(items.len(), part),
        JsonModel::Object(members) => match member_position(members, part) {
            Some(position) => Ok(position),
            None => Err(PathErrorModel::KeyNotFound(part)),
        },
    }
}

/// The child of a value at a position: an item of an array, the value of a
/// member of an object.
pub open spec fn child_at(value: JsonModel, position: int) -> JsonModel {
    match value {
        JsonModel::Array(items) => items[position],
        JsonModel::Object(members) => members[position].1,
        _ => value,
    }
}

/// The number of children of a value.
pub open spec fn child_count(value: JsonModel) -> nat {
    match value {
        JsonModel::Array(items) => items.len(),
        JsonModel::Object(members) => members.len(),
        _ => 0,
    }
}

/// Where one part of a path leads from a value.
pub open spec fn step_into(value: JsonModel, part: Seq<char>) -> Result<JsonModel, PathErrorModel> {
    match step_position(value, part) {
        Ok(position) => Ok(child_at(value, position)),
        Err(error) => Err(error),
    }
}

/// Where the parts of a path from part `from` on lead from a value: the
/// value itself when no part is left, else where the rest leads from where
/// the next part leads. The first part that leads nowhere gives the error.
pub open spec fn resolve_from(parts: Seq<Seq<char>>, value: JsonModel, from: int) -> Result<
    JsonModel,
    PathErrorModel,
>
    decreases parts.len() - from,
{
    if from < 0 || from >= parts.len() {
        Ok(value)
    } else {
        match step_into(value, parts[from]) {
            Err(error) => Err(error),
            Ok(next) => resolve_from(parts, next, from + 1),
        }
    }
}

/// A value with another child at a position.
pub open spec fn with_child(value: JsonModel, position: int, child: JsonModel) -> JsonModel {
    match value {
        JsonModel::Array(items) => JsonModel::Array(items.update(position, child)),
        JsonModel::Object(members) => JsonModel::Object(
            members.update(position, (members[position].0, child)),
        ),
        _ => value,
    }
}

/// A value with another value at the place that the parts of a path from
/// part `from` on lead to; the value itself where they lead nowhere.
pub open spec fn replaced_from(
    value: JsonModel,
    parts: Seq<Seq<char>>,
    from: int,
    replacement: JsonModel,
) -> JsonModel
    decreases parts.len() - from,
{
    if from < 0 || from >= parts.len() {
        replacement
    } else {
        match step_position(value, parts[from]) {
            Ok(position) => with_child(
                value,
                position,
                replaced_from(child_at(value, position), parts, from + 1, replacement),
            ),
            Err(_) => value,
        }
    }
}

/// What following a path gave, against what the model says.
pub open spec fn found_as(
    found: Result<&JsonValue, JsonPathError>,
    expected: Result<JsonModel, PathErrorModel>,
) -> bool {
    match found {
        Ok(value) => expected == Ok::<JsonModel, PathErrorModel>(value@),
        Err(error) => expected == Err::<JsonModel, PathErrorModel>(error@),
    }
}

/// A path from the root of a JSON value: the keys and indices to follow, in
/// order. The empty path is the root.
#[derive(Debug, PartialEq)]
pub struct JsonPath {
    parts: Vec<String>,
}

/// The text of each part of a list, in order.
pub open spec fn part_texts(parts: Seq<String>) -> Seq<Seq<char>> {
    Seq::new(parts.len(), |i: int| parts[i]@)
}

/// The pieces that the dots cut a text into, from position `at` on, where
/// the piece being read began at `start`.
pub open spec fn split_from(text: Seq<char>, start: int, at: int) -> Seq<Seq<char>>
    decreases text.len() - at,
{
    if start < 0 || at < start || at >= text.len() {
        seq![text.subrange(start, text.len() as int)]
    } else if text[at] == '.' {
        seq![text.subrange(start, at)] + split_from(text, at + 1, at + 1)
    } else {
        split_from(text, start, at + 1)
    }
}

/// The pieces that the dots cut a text into. A text without a dot is one
/// piece, and so is the empty text.
pub open spec fn split_at_dots(text: Seq<char>) -> Seq<Seq<char>> {
    split_from(text, 0, 0)
}

/// The text of the root of a path.
pub open spec fn root_text() -> Seq<char> {
    seq!['$']
}

/// The text of a path up to its part `upto`: the root, and a dot before
/// each part.
pub open spec fn path_text(parts: Seq<Seq<char>>, upto: int) -> Seq<char>
    decreases upto,
{
    if upto <= 0 || upto > parts.len() {
        root_text()
    } else {
        path_text(parts, upto - 1) + seq!['.'] + parts[upto - 1]
    }
}

impl View for JsonPath {
    type V = Seq<Seq<char>>;

    closed spec fn view(&self) -> Seq<Seq<char>> {
        part_texts(self.parts@)
    }
}

impl Clone for JsonPath {
    fn clone(&self) -> (copy: Self)
        ensures
            copy@ == self@,
    {
        let mut parts: Vec<String> = Vec::new();
        let mut i: usize = 0;
        while i < self.parts.len()
            invariant
                i <= self.parts.len(),
                parts@.len() == i,
                forall|j: int| 0 <= j < i ==> parts@[j]@ == self.parts@[j]@,
            decreases self.parts.len() - i,
        {
            parts.push(self.parts[i].clone());
            i += 1;
        }
        JsonPath { parts }
    }
}

impl JsonPath {
    /// The path to the root.
    pub fn new() -> (path: Self)
        ensures
            path@ == Seq::<Seq<char>>::empty(),
    {
        JsonPath { parts: Vec::new() }
    }

    /// Adds a part at the end of the path.
    pub fn push(&mut self, part: &str)
        ensures
            final(self)@ == old(self)@.push(part@),
    {
        self.parts.push(part.to_owned());
    }

    /// Removes the last part of the path. The root stays the root.
    pub fn pop(&mut self)
        ensures
            old(self)@.len() == 0 ==> final(self)@ == old(self)@,
            old(self)@.len() > 0 ==> final(self)@ == old(self)@.drop_last(),
    {
        let _ = self.parts.pop();
        proof {
            if old(self)@.len() > 0 {
            } else {
            }
        }
    }

    /// A copy of the last part of the path; the root has none.
    pub fn clone_last(&self) -> (last: Option<String>)
        ensures
            self@.len() == 0 ==> last is None,
            self@.len() > 0 ==> last is Some && last->Some_0@ == self@.last(),
    {
        if self.parts.len() == 0 {
            None
        } else {
            Some(self.parts[self.parts.len() - 1].clone())
        }
    }

    /// Tells whether this is the path to the root.
    pub fn is_root(&self) -> (root: bool)
        ensures
            root == (self@.len() == 0),
    {
        self.parts.len() == 0
    }

    /// The path without its last part; the root has no parent.
    pub fn parent(&self) -> (parent: Option<Self>)
        ensures
            self@.len() == 0 ==> parent is None,
            self@.len() > 0 ==> parent is Some && parent->Some_0@ == self@.drop_last(),
    {
        if self.is_root() {
            return None;
        }
        let mut copy = self.clone();
        copy.pop();
        Some(copy)
    }

    /// The number of parts of the path.
    pub fn len(&self) -> (count: usize)
        ensures
            count == self@.len(),
    {
        self.parts.len()
    }

    /// The part at a position of the path.
    pub fn part(&self, index: usize) -> (part: &String)
        requires
            index < self@.len(),
        ensures
            part@ == self@[index as int],
    {
        &self.parts[index]
    }

    /// Finds the position of the child that one part of a path leads to.
    pub fn position(value: &JsonValue, part: &String) -> (found: Result<usize, JsonPathError>)
        ensures
            match found {
                Ok(position) => step_position(value@, part@) == Ok::<int, PathErrorModel>(
                    position as int,
                ) && position < child_count(value@),
                Err(error) => step_position(value@, part@) == Err::<int, PathErrorModel>(error@),
            },
    {
        match value {
            JsonValue::Null => Err(JsonPathError::CannotMatchOnANullValue),
            JsonValue::Bool(_) => Err(JsonPathError::CannotMatchOnABoolean),
            JsonValue::Number(_) => Err(JsonPathError::CannotMatchOnANumber),
            JsonValue::String(_) => Err(JsonPathError::CannotMatchOnAString),
            JsonValue::Array(items) => {
                if begins_with(part.as_str(), '<') {
                    let count = parse_count(part.as_str(), '<');
                    if 1 <= count && count <= items.len() {
                        Ok(items.len() - count)
                    } else {
                        Err(JsonPathError::NoLastItem)
                    }
                } else if begins_with(part.as_str(), '>') {
                    let count = parse_count(part.as_str(), '>');
                    if 1 <= count && count <= items.len() {
                        Ok(count - 1)
                    } else {
                        Err(JsonPathError::NoFirstItem)
                    }
                } else {
                    match parse_index(part.as_str()) {
                        None => Err(JsonPathError::NotAnIndex(part.clone())),
                        Some(index) => {
                            if index < items.len() {
                                Ok(index)
                            } else {
                                Err(JsonPathError::IndexNotFound(index))
                            }
                        },
                    }
                }
            },
            JsonValue::Object(_) => match value.position(part) {
                Some(position) => Ok(position),
                None => Err(JsonPathError::KeyNotFound(part.clone())),
            },
        }
    }

    /// Follows one part of a path from a value.
    pub fn step<'a>(value: &'a JsonValue, part: &String) -> (found: Result<
        &'a JsonValue,
        JsonPathError,
    >)
        ensures
            found_as(found, step_into(value@, part@)),
    {
        match Self::position(value, part) {
            Ok(position) => match value {
                JsonValue::Array(items) => Ok(&items[position]),
                JsonValue::Object(members) => Ok(&members[position].1),
                _ => Ok(value),
            },
            Err(error) => Err(error),
        }
    }

    /// Follows the path from a value and gives the value it leads to.
    pub fn resolve<'a>(&self, value: &'a JsonValue) -> (found: Result<&'a JsonValue, JsonPathError>)
        ensures
            found_as(found, resolve_from(self@, value@, 0)),
    {
        let mut current: &'a JsonValue = value;
        let mut i: usize = 0;
        while i < self.parts.len()
            invariant
                i <= self.parts.len(),
                resolve_from(self@, value@, 0) == resolve_from(self@, current@, i as int),
            decreases self.parts.len() - i,
        {
            match Self::step(current, &self.parts[i]) {
                Ok(next) => {
                    current = next;
                },
                Err(error) => {
                    return Err(error);
                },
            }
            i += 1;
        }
        Ok(current)
    }

    /// Gives the child of a value at a position, to be changed there.
    pub fn child_mut<'a>(value: &'a mut JsonValue, position: usize) -> (child: &'a mut JsonValue)
        requires
            position < child_count(old(value)@),
        ensures
            child@ == child_at(old(value)@, position as int),
            final(value)@ == with_child(old(value)@, position as int, final(child)@),
    {
        match value {
            JsonValue::Array(items) => {
                let ghost before = items@;
                let child = &mut items[position];
                proof {
                    lemma_models_of_update(before, position as int, *final(child));
                }
                child
            },
            JsonValue::Object(members) => {
                let ghost before = members@;
                let child = &mut members[position].1;
                proof {
                    lemma_member_models_of_update(
                        before,
                        position as int,
                        (before[position as int].0, *final(child)),
                    );
                }
                child
            },
            _ => value,
        }
    }

    /// Follows the parts of the path from part `from` on and gives the place
    /// they lead to, to be changed there.
    pub fn resolve_mut_from<'a>(&self, value: &'a mut JsonValue, from: usize) -> (found: Result<
        &'a mut JsonValue,
        JsonPathError,
    >)
        requires
            from <= self@.len(),
        ensures
            match found {
                Ok(place) => {
                    &&& resolve_from(self@, old(value)@, from as int) == Ok::<
                        JsonModel,
                        PathErrorModel,
                    >(place@)
                    &&& final(value)@ == replaced_from(
                        old(value)@,
                        self@,
                        from as int,
                        final(place)@,
                    )
                },
                Err(error) => {
                    &&& resolve_from(self@, old(value)@, from as int) == Err::<
                        JsonModel,
                        PathErrorModel,
                    >(error@)
                    &&& final(value)@ == old(value)@
                },
            },
        decreases self@.len() - from,
    {
        if from == self.parts.len() {
            return Ok(value);
        }
        let position = match Self::position(value, &self.parts[from]) {
            Ok(position) => position,
            Err(error) => {
                return Err(error);
            },
        };
        proof {
            lemma_with_same_child(value@, position as int);
        }
        self.resolve_mut_from(Self::child_mut(value, position), from + 1)
    }

    /// Follows the path from a value and gives the place it leads to, to be
    /// changed there.
    pub fn resolve_mut<'a>(&self, value: &'a mut JsonValue) -> (found: Result<
        &'a mut JsonValue,
        JsonPathError,
    >)
        ensures
            match found {
                Ok(place) => {
                    &&& resolve_from(self@, old(value)@, 0) == Ok::<JsonModel, PathErrorModel>(
                        place@,
                    )
                    &&& final(value)@ == replaced_from(old(value)@, self@, 0, final(place)@)
                },
                Err(error) => {
                    &&& resolve_from(self@, old(value)@, 0) == Err::<JsonModel, PathErrorModel>(
                        error@,
                    )
                    &&& final(value)@ == old(value)@
                },
            },
    {
        self.resolve_mut_from(value, 0)
    }

    /// Cuts a text into the pieces between its dots.
    pub fn split(text: &str) -> (pieces: Vec<String>)
        ensures
            part_texts(pieces@) == split_at_dots(text@),
    {
        let length = text.unicode_len();
        let mut pieces: Vec<String> = Vec::new();
        let mut start: usize = 0;
        let mut at: usize = 0;
        while at < length
            invariant
                length == text@.len(),
                start <= at <= length,
                split_at_dots(text@) == part_texts(pieces@) + split_from(
                    text@,
                    start as int,
                    at as int,
                ),
            decreases length - at,
        {
            if text.get_char(at) == '.' {
                let piece = text.substring_char(start, at);
                pieces.push(piece.to_owned());
                start = at + 1;
            }
            at += 1;
        }
        let piece = text.substring_char(start, length);
        pieces.push(piece.to_owned());
        pieces
    }

    /// Reads a path from its text: the root, `$`, and after it a dot before
    /// each part. A text that does not start with the root as a piece of
    /// its own is refused.
    pub fn from_str(text: &str) -> (parsed: Result<Self, JsonPathError>)
        ensures
            split_at_dots(text@)[0] == root_text() ==> parsed is Ok && parsed->Ok_0@
                == split_at_dots(text@).subrange(1, split_at_dots(text@).len() as int),
            split_at_dots(text@)[0] != root_text() ==> parsed == Err::<Self, JsonPathError>(
                JsonPathError::FailedToParse,
            ),
    {
        let mut pieces = Self::split(text);
        proof {
            lemma_split_is_not_empty(text@, 0, 0);
        }
        let ghost all = part_texts(pieces@);
        let first = pieces[0].as_str();
        if first.unicode_len() == 1 && first.get_char(0) == '$' {
            assert(all[0] =~= root_text());
            let _ = pieces.remove(0);
            Ok(JsonPath { parts: pieces })
        } else {
            Err(JsonPathError::FailedToParse)
        }
    }

    /// Writes the path as text: the root, and a dot before each part.
    pub fn to_string(&self) -> (text: String)
        ensures
            text@ == path_text(self@, self@.len() as int),
    {
        let mut text = String::new();
        text.append("$");
        proof {
            reveal_strlit("$");
            reveal_strlit(".");
        }
        let mut i: usize = 0;
        while i < self.parts.len()
            invariant
                i <= self.parts.len(),
                "."@ == seq!['.'],
                text@ == path_text(self@, i as int),
            decreases self.parts.len() - i,
        {
            text.append(".");
            text.append(self.parts[i].as_str());
            i += 1;
        }
        text
    }
}

impl From<Vec<String>> for JsonPath {
    /// The path with these parts, in this order.
    fn from(value: Vec<String>) -> (path: Self)
        ensures
            path@ == part_texts(value@),
    {
        JsonPath { parts: value }
    }
}

impl vstd::std_specs::convert::FromSpecImpl<Vec<String>> for JsonPath {
    open spec fn obeys_from_spec() -> bool {
        false
    }

    open spec fn from_spec(value: Vec<String>) -> Self {
        arbitrary()
    }
}

/// The text of each string slice of a list, in order.
pub open spec fn slice_texts(parts: Seq<&str>) -> Seq<Seq<char>> {
    Seq::new(parts.len(), |i: int| parts[i]@)
}

impl<const N: usize> From<[&str; N]> for JsonPath {
    /// The path with these parts, in this order.
    fn from(value: [&str; N]) -> (path: Self)
        ensures
            path@ == slice_texts(value@),
    {
        let mut parts: Vec<String> = Vec::new();
        let mut i: usize = 0;
        while i < N
            invariant
                i <= N,
                parts@.len() == i,
                forall|j: int| 0 <= j < i ==> parts@[j]@ == value@[j]@,
            decreases N - i,
        {
            parts.push(value[i].to_owned());
            i += 1;
        }
        JsonPath { parts }
    }
}

impl<const N: usize> vstd::std_specs::convert::FromSpecImpl<[&str; N]> for JsonPath {
    open spec fn obeys_from_spec() -> bool {
        false
    }

    open spec fn from_spec(value: [&str; N]) -> Self {
        arbitrary()
    }
}

/// The position that a part leads to is that of a child of the value.
pub proof fn lemma_step_is_a_child(value: JsonModel, part: Seq<char>)
    ensures
        step_position(value, part) matches Ok(position) ==> 0 <= position < child_count(value),
{
    match value {
        JsonModel::Object(members) => {
            lemma_position_is_first(members, part, 0);
        },
        _ => {},
    }
}

/// A value with one of its children put where it already is, is the value
/// itself.
pub proof fn lemma_with_same_child(value: JsonModel, position: int)
    requires
        0 <= position < child_count(value),
    ensures
        with_child(value, position, child_at(value, position)) == value,
{
    match value {
        JsonModel::Array(items) => {
            assert(items.update(position, items[position]) =~= items);
        },
        JsonModel::Object(members) => {
            assert(members.update(position, (members[position].0, members[position].1))
                =~= members);
        },
        _ => {},
    }
}

/// Cutting a text always gives at least one piece.
pub proof fn lemma_split_is_not_empty(text: Seq<char>, start: int, at: int)
    ensures
        split_from(text, start, at).len() > 0,
    decreases text.len() - at,
{
    if start < 0 || at < start || at >= text.len() {
    } else if text[at] == '.' {
    } else {
        lemma_split_is_not_empty(text, start, at + 1);
    }
}

} // verus!
