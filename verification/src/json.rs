//! The JSON data that the library works on.
//!
//! A [`JsonValue`] holds a JSON document as plain data. Its mathematical
//! model is a [`JsonModel`]: strings are sequences of characters, arrays are
//! sequences of models, and an object is the sequence of its members.
use vstd::prelude::*;

verus! {

/// The bit pattern of negative zero in IEEE 754 double precision: only the
/// sign bit is set.
pub const FLOAT_SIGN_BIT: u64 = 0x8000_0000_0000_0000;

/// The exponent bits of an IEEE 754 double. A magnitude at or above this
/// pattern is an infinity or a NaN.
pub const FLOAT_EXPONENT_BITS: u64 = 0x7FF0_0000_0000_0000;

/// A JSON number.
///
/// An integer is held exactly. Any other number is held as the bit pattern of
/// an IEEE 754 double, so that no precision is lost and no floating-point
/// arithmetic is needed to inspect it.
#[derive(Clone, Copy, Debug, PartialEq, Eq)]
pub enum JsonNumber {
    /// A non-negative integer.
    PosInt(u64),
    /// A negative integer.
    NegInt(i64),
    /// A number in floating-point form, as the bits of a double.
    Float(u64),
}

impl JsonNumber {
    /// A `NegInt` is negative and a `Float` is finite.
    pub open spec fn wf(self) -> bool {
        match self {
            JsonNumber::PosInt(_) => true,
            JsonNumber::NegInt(i) => i < 0,
            JsonNumber::Float(bits) => float_bits_finite(bits),
        }
    }

    /// The value of a number held as an integer; `None` for one in
    /// floating-point form, which never counts as integral.
    pub open spec fn integer(self) -> Option<int> {
        match self {
            JsonNumber::PosInt(n) => Some(n as int),
            JsonNumber::NegInt(i) => Some(i as int),
            JsonNumber::Float(_) => None,
        }
    }

    /// The number is strictly below zero.
    pub open spec fn is_negative(self) -> bool {
        match self {
            JsonNumber::PosInt(_) => false,
            JsonNumber::NegInt(i) => i < 0,
            JsonNumber::Float(bits) => bits > FLOAT_SIGN_BIT,
        }
    }

    /// The number is strictly above zero.
    pub open spec fn is_positive(self) -> bool {
        match self {
            JsonNumber::PosInt(n) => n > 0,
            JsonNumber::NegInt(i) => i > 0,
            JsonNumber::Float(bits) => 0 < bits < FLOAT_SIGN_BIT,
        }
    }

    /// Makes a number from the bits of a double. Infinities and NaNs are not
    /// JSON numbers.
    pub fn from_f64_bits(bits: u64) -> (number: Option<JsonNumber>)
        ensures
            number == (if float_bits_finite(bits) {
                Some(JsonNumber::Float(bits))
            } else {
                None
            }),
            number matches Some(n) ==> n.wf(),
    {
        let magnitude: u64 = if bits >= FLOAT_SIGN_BIT {
            bits - FLOAT_SIGN_BIT
        } else {
            bits
        };
        if magnitude < FLOAT_EXPONENT_BITS {
            Some(JsonNumber::Float(bits))
        } else {
            None
        }
    }

    /// Makes a number from a signed integer.
    pub fn from_i64(value: i64) -> (number: JsonNumber)
        ensures
            number.wf(),
            number.integer() == Some(value as int),
            number == (if value < 0 {
                JsonNumber::NegInt(value)
            } else {
                JsonNumber::PosInt(value as u64)
            }),
    {
        if value < 0 {
            JsonNumber::NegInt(value)
        } else {
            JsonNumber::PosInt(value as u64)
        }
    }

    /// Makes a number from an unsigned integer.
    pub fn from_u64(value: u64) -> (number: JsonNumber)
        ensures
            number == JsonNumber::PosInt(value),
            number.wf(),
    {
        JsonNumber::PosInt(value)
    }

    /// Tells whether the number is strictly below zero.
    pub fn below_zero(&self) -> (below: bool)
        ensures
            below == self.is_negative(),
    {
        match self {
            JsonNumber::PosInt(_) => false,
            JsonNumber::NegInt(i) => *i < 0,
            JsonNumber::Float(bits) => *bits > FLOAT_SIGN_BIT,
        }
    }

    /// Tells whether the number is strictly above zero.
    pub fn above_zero(&self) -> (above: bool)
        ensures
            above == self.is_positive(),
    {
        match self {
            JsonNumber::PosInt(n) => *n > 0,
            JsonNumber::NegInt(i) => *i > 0,
            JsonNumber::Float(bits) => 0 < *bits && *bits < FLOAT_SIGN_BIT,
        }
    }
}

/// The magnitude of a double, its bits without the sign, is below the
/// pattern of infinity.
pub open spec fn float_bits_finite(bits: u64) -> bool {
    if bits >= FLOAT_SIGN_BIT {
        bits - FLOAT_SIGN_BIT < FLOAT_EXPONENT_BITS
    } else {
        bits < FLOAT_EXPONENT_BITS
    }
}

/// A JSON value.
///
/// An object holds its members in order, each a key and a value, and a key
/// is looked up by its first occurrence. Nothing in the library needs the
/// keys of an object to differ; where they do ([`keys_distinct`]), putting a
/// value under a key keeps them so. Two values are equal when they hold the
/// same members in the same order.
#[derive(Debug, PartialEq)]
pub enum JsonValue {
    Null,
    Bool(bool),
    Number(JsonNumber),
    String(String),
    Array(Vec<JsonValue>),
    Object(Vec<(String, JsonValue)>),
}

/// The mathematical model of a [`JsonValue`].
pub enum JsonModel {
    Null,
    Bool(bool),
    Number(JsonNumber),
    String(Seq<char>),
    Array(Seq<JsonModel>),
    Object(Seq<(Seq<char>, JsonModel)>),
}

/// The model of each value of a list, in order.
pub open spec fn json_models(values: Seq<JsonValue>) -> Seq<JsonModel>
    decreases values, 0int,
{
    Seq::new(
        values.len(),
        |i: int|
            if 0 <= i < values.len() {
                json_model(values[i])
            } else {
                JsonModel::Null
            },
    )
}

/// The model of each member of an object, in order.
pub open spec fn json_member_models(members: Seq<(String, JsonValue)>) -> Seq<
    (Seq<char>, JsonModel),
>
    decreases members, 0int,
{
    Seq::new(
        members.len(),
        |i: int|
            if 0 <= i < members.len() {
                (members[i].0@, json_model(members[i].1))
            } else {
                (Seq::empty(), JsonModel::Null)
            },
    )
}

/// The model of a value.
pub open spec fn json_model(value: JsonValue) -> JsonModel
    decreases value, 1int,
{
    match value {
        JsonValue::Null => JsonModel::Null,
        JsonValue::Bool(b) => JsonModel::Bool(b),
        JsonValue::Number(n) => JsonModel::Number(n),
        JsonValue::String(s) => JsonModel::String(s@),
        JsonValue::Array(items) => JsonModel::Array(json_models(items@)),
        JsonValue::Object(members) => JsonModel::Object(json_member_models(members@)),
    }
}

/// The models of a list with another value at a position are the models of
/// the list with the model of that value at the position.
pub proof fn lemma_models_of_update(values: Seq<JsonValue>, position: int, value: JsonValue)
    requires
        0 <= position < values.len(),
    ensures
        json_models(values.update(position, value)) == json_models(values).update(
            position,
            value@,
        ),
{
}

/// The models of members with another member at a position are the models
/// of the members with the model of that member there.
pub proof fn lemma_member_models_of_update(
    members: Seq<(String, JsonValue)>,
    position: int,
    member: (String, JsonValue),
)
    requires
        0 <= position < members.len(),
    ensures
        json_member_models(members.update(position, member)) == json_member_models(
            members,
        ).update(position, (member.0@, member.1@)),
{
}

impl View for JsonValue {
    type V = JsonModel;

    open spec fn view(&self) -> JsonModel {
        json_model(*self)
    }
}

/// Where a scan of the members from position `from` on finds `key`: the
/// position of the first member there with this key.
pub open spec fn member_position_from<T>(members: Seq<(Seq<char>, T)>, key: Seq<char>, from: int)
    -> Option<int>
    decreases members.len() - from,
{
    if from < 0 || from >= members.len() {
        None
    } else if members[from].0 == key {
        Some(from)
    } else {
        member_position_from(members, key, from + 1)
    }
}

/// The position of the first member with this key.
pub open spec fn member_position<T>(members: Seq<(Seq<char>, T)>, key: Seq<char>) -> Option<int> {
    member_position_from(members, key, 0)
}

/// No key occurs twice among the members.
pub open spec fn keys_distinct<T>(members: Seq<(Seq<char>, T)>) -> bool {
    forall|i: int, j: int| 0 <= i < j < members.len() ==> members[i].0 != members[j].0
}

/// The members after a value was put under a key: in the place of the first
/// member with that key, or at the end where there is none.
pub open spec fn members_with<T>(members: Seq<(Seq<char>, T)>, key: Seq<char>, value: T) -> Seq<
    (Seq<char>, T),
> {
    match member_position(members, key) {
        Some(position) => members.update(position, (key, value)),
        None => members.push((key, value)),
    }
}

/// The value that a lookup of `key` gives in the members of an object: that
/// of the first member with this key.
pub open spec fn member_lookup(members: Seq<(Seq<char>, JsonModel)>, key: Seq<char>) -> Option<
    JsonModel,
> {
    match member_position(members, key) {
        Some(position) => Some(members[position].1),
        None => None,
    }
}

/// A position that a scan finds is the position of a member with the key,
/// and no member before it, from where the scan began, has the key.
pub proof fn lemma_position_is_first<T>(members: Seq<(Seq<char>, T)>, key: Seq<char>, from: int)
    requires
        0 <= from,
    ensures
        match member_position_from(members, key, from) {
            Some(position) => {
                &&& from <= position < members.len()
                &&& members[position].0 == key
                &&& forall|i: int| from <= i < position ==> members[i].0 != key
            },
            None => forall|i: int| from <= i < members.len() ==> members[i].0 != key,
        },
    decreases members.len() - from,
{
    if from >= members.len() {
    } else if members[from].0 == key {
    } else {
        lemma_position_is_first(members, key, from + 1);
    }
}

/// After a value was put under a key, it is the value found under that
/// key.
pub proof fn lemma_members_with_is_found<T>(members: Seq<(Seq<char>, T)>, key: Seq<char>, value: T)
    ensures
        member_position(members_with(members, key, value), key) matches Some(position)
            && members_with(members, key, value)[position].1 == value,
{
    let after = members_with(members, key, value);
    lemma_position_is_first(members, key, 0);
    lemma_position_is_first(after, key, 0);
    match member_position(members, key) {
        Some(position) => {
            assert(after[position].0 == key);
        },
        None => {
            assert(after[members.len() as int].0 == key);
        },
    }
}

/// Putting a value under a key keeps the keys distinct.
pub proof fn lemma_members_with_keeps_keys_distinct<T>(
    members: Seq<(Seq<char>, T)>,
    key: Seq<char>,
    value: T,
)
    requires
        keys_distinct(members),
    ensures
        keys_distinct(members_with(members, key, value)),
{
    lemma_position_is_first(members, key, 0);
}

/// The position of a key depends on the keys alone: members with the same
/// keys in the same order have it at the same position.
pub proof fn lemma_position_depends_on_keys<T>(
    first: Seq<(Seq<char>, T)>,
    second: Seq<(Seq<char>, T)>,
    key: Seq<char>,
    from: int,
)
    requires
        first.len() == second.len(),
        forall|i: int| 0 <= i < first.len() ==> first[i].0 == second[i].0,
    ensures
        member_position_from(first, key, from) == member_position_from(second, key, from),
    decreases first.len() - from,
{
    if 0 <= from < first.len() {
        lemma_position_depends_on_keys(first, second, key, from + 1);
    }
}

/// What a lookup finds is the value of one of the members, and so smaller
/// than the members as a whole.
pub proof fn lemma_lookup_finds_a_member(members: Seq<(Seq<char>, JsonModel)>, key: Seq<char>)
    ensures
        member_lookup(members, key) matches Some(value) ==> decreases_to!(members => value),
{
    lemma_position_is_first(members, key, 0);
}

impl Clone for JsonValue {
    /// A deep copy: the copy has the model of what was copied.
    #[verifier::loop_isolation(false)]
    fn clone(&self) -> (copy: Self)
        ensures
            copy@ == self@,
        decreases self,
    {
        match self {
            JsonValue::Null => JsonValue::Null,
            JsonValue::Bool(b) => JsonValue::Bool(*b),
            JsonValue::Number(n) => JsonValue::Number(*n),
            JsonValue::String(s) => JsonValue::String(s.clone()),
            JsonValue::Array(items) => {
                let mut copies: Vec<JsonValue> = Vec::new();
                let mut i: usize = 0;
                while i < items.len()
                    invariant
                        i <= items.len(),
                        copies@.len() == i,
                        forall|j: int| 0 <= j < i ==> copies@[j]@ == items@[j]@,
                    decreases items.len() - i,
                {
                    copies.push(items[i].clone());
                    i += 1;
                }
                proof {
                    assert(json_models(copies@) =~= json_models(items@));
                }
                JsonValue::Array(copies)
            },
            JsonValue::Object(members) => {
                let mut copies: Vec<(String, JsonValue)> = Vec::new();
                let mut i: usize = 0;
                while i < members.len()
                    invariant
                        i <= members.len(),
                        copies@.len() == i,
                        forall|j: int|
                            0 <= j < i ==> copies@[j].0@ == members@[j].0@ && copies@[j].1@
                                == members@[j].1@,
                    decreases members.len() - i,
                {
                    let key = members[i].0.clone();
                    let value = members[i].1.clone();
                    copies.push((key, value));
                    i += 1;
                }
                proof {
                    assert(json_member_models(copies@) =~= json_member_models(members@));
                }
                JsonValue::Object(copies)
            },
        }
    }
}

impl JsonValue {
    /// The position of the first member with a key in an object. Anything
    /// but an object has no members.
    pub fn position(&self, key: &String) -> (found: Option<usize>)
        ensures
            match self@ {
                JsonModel::Object(members) => match found {
                    Some(position) => member_position(members, key@) == Some(position as int)
                        && position < members.len(),
                    None => member_position(members, key@) is None,
                },
                _ => found is None,
            },
    {
        match self {
            JsonValue::Object(members) => {
                let ghost models = json_member_models(members@);
                let mut i: usize = 0;
                while i < members.len()
                    invariant
                        i <= members.len(),
                        models == json_member_models(members@),
                        self@ == JsonModel::Object(models),
                        member_position(models, key@) == member_position_from(
                            models,
                            key@,
                            i as int,
                        ),
                    decreases members.len() - i,
                {
                    if members[i].0 == *key {
                        return Some(i);
                    }
                    i += 1;
                }
                None
            },
            _ => None,
        }
    }

    /// Looks a key up in an object: the value of the first member with that
    /// key. Anything but an object has no members.
    pub fn get(&self, key: &String) -> (found: Option<&JsonValue>)
        ensures
            match self@ {
                JsonModel::Object(members) => match found {
                    Some(value) => member_lookup(members, key@) == Some(value@),
                    None => member_lookup(members, key@) is None,
                },
                _ => found is None,
            },
            found matches Some(value) ==> decreases_to!(self => value),
    {
        match self {
            JsonValue::Object(members) => match self.position(key) {
                Some(position) => Some(&members[position].1),
                None => None,
            },
            _ => None,
        }
    }
}

} // verus!
