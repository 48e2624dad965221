//! Matchers without configuration: each checks the kind of a JSON value, and
//! a few check a range or a text format on top of that.
use crate::json::{JsonModel, JsonNumber, JsonValue};
use crate::schema_type::model::outcome_model;
use std::str::FromStr;
use vstd::prelude::*;
use vstd::string::*;

verus! {

/// Why a value did not match a [`BasicType`].
#[derive(Debug, Clone, PartialEq)]
pub enum BasicTypeValidationError {
    /// A filled string was expected and the string is empty.
    EmptyString,
    /// The number is below zero.
    NotAPositiveNumber(JsonNumber),
    /// The number is above zero.
    NotANegativeNumber(JsonNumber),
    NotAU8(JsonNumber),
    NotAU16(JsonNumber),
    NotAU32(JsonNumber),
    NotAU64(JsonNumber),
    NotAI8(JsonNumber),
    NotAI16(JsonNumber),
    NotAI32(JsonNumber),
    NotAI64(JsonNumber),
    /// The value is of another kind than the matcher expects: the matcher and
    /// the value.
    IncorrectType(BasicType, JsonValue),
    /// The string is not a UUID.
    IncorrectUuid(String),
    /// The string is not an email address.
    IncorrectEmail(String),
}

/// The mathematical model of a [`BasicTypeValidationError`].
pub enum BasicErrorModel {
    EmptyString,
    NotAPositiveNumber(JsonNumber),
    NotANegativeNumber(JsonNumber),
    NotAU8(JsonNumber),
    NotAU16(JsonNumber),
    NotAU32(JsonNumber),
    NotAU64(JsonNumber),
    NotAI8(JsonNumber),
    NotAI16(JsonNumber),
    NotAI32(JsonNumber),
    NotAI64(JsonNumber),
    IncorrectType(BasicType, JsonModel),
    IncorrectUuid(Seq<char>),
    IncorrectEmail(Seq<char>),
}

impl View for BasicTypeValidationError {
    type V = BasicErrorModel;

    open spec fn view(&self) -> BasicErrorModel {
        match *self {
            BasicTypeValidationError::EmptyString => BasicErrorModel::EmptyString,
            BasicTypeValidationError::NotAPositiveNumber(n) => BasicErrorModel::NotAPositiveNumber(n),
            BasicTypeValidationError::NotANegativeNumber(n) => BasicErrorModel::NotANegativeNumber(n),
            BasicTypeValidationError::NotAU8(n) => BasicErrorModel::NotAU8(n),
            BasicTypeValidationError::NotAU16(n) => BasicErrorModel::NotAU16(n),
            BasicTypeValidationError::NotAU32(n) => BasicErrorModel::NotAU32(n),
            BasicTypeValidationError::NotAU64(n) => BasicErrorModel::NotAU64(n),
            BasicTypeValidationError::NotAI8(n) => BasicErrorModel::NotAI8(n),
            BasicTypeValidationError::NotAI16(n) => BasicErrorModel::NotAI16(n),
            BasicTypeValidationError::NotAI32(n) => BasicErrorModel::NotAI32(n),
            BasicTypeValidationError::NotAI64(n) => BasicErrorModel::NotAI64(n),
            BasicTypeValidationError::IncorrectType(kind, value) => BasicErrorModel::IncorrectType(
                kind,
                value@,
            ),
            BasicTypeValidationError::IncorrectUuid(text) => BasicErrorModel::IncorrectUuid(text@),
            BasicTypeValidationError::IncorrectEmail(text) => BasicErrorModel::IncorrectEmail(
                text@,
            ),
        }
    }
}

/// A matcher without configuration.
#[derive(Debug, Clone, Copy, PartialEq, Eq)]
pub enum BasicType {
    /// Matches any value.
    Any,
    /// Matches `true` and `false`.
    Boolean,
    /// Matches any string, the empty one too.
    String,
    /// Matches any string that is not empty.
    FilledString,
    /// Matches any number.
    Number,
    /// Matches any number that is not below zero.
    PositiveNumber,
    /// Matches any number that is not above zero.
    NegativeNumber,
    /// Matches an integer from 0 to 255.
    U8,
    /// Matches an integer from 0 to 65535.
    U16,
    /// Matches an integer from 0 to 4294967295.
    U32,
    /// Matches an integer from 0 to 2^64 - 1.
    U64,
    /// Matches an integer from -128 to 127.
    I8,
    /// Matches an integer from -32768 to 32767.
    I16,
    /// Matches an integer from -2^31 to 2^31 - 1.
    I32,
    /// Matches an integer from -2^63 to 2^63 - 1.
    I64,
    /// Matches `null`.
    Null,
    /// Matches any object, whatever its keys.
    Object,
    /// Matches any array, whatever its items.
    Array,
    /// Matches a string that parses as a UUID.
    Uuid,
    /// Matches a string that is a valid email address.
    Email,
}

/// A UUID of the `uuid` crate. Nothing is known of what it holds.
#[verifier::external_type_specification]
#[verifier::external_body]
pub struct ExUuid(uuid::Uuid);

/// The error of the `uuid` crate's parser. Nothing is known of what it
/// holds.
#[verifier::external_type_specification]
#[verifier::external_body]
pub struct ExUuidError(uuid::Error);

/// Whether `uuid::Uuid::from_str` accepts this text.
pub uninterp spec fn uuid_text_parses(text: Seq<char>) -> bool;

/// Whether `serde_email::is_valid_email` accepts this text.
pub uninterp spec fn email_text_is_valid(text: Seq<char>) -> bool;

/// Calls `uuid::Uuid::from_str`, the parser of the `uuid` crate. The parser
/// reads nothing but the text, so whether it gives a UUID or an error is
/// the same for the same text; which texts it accepts is not stated here,
/// nor which UUID or error it gives.
#[verifier::external_body]
fn parse_uuid(text: &str) -> (parsed: Result<uuid::Uuid, uuid::Error>)
    ensures
        parsed is Ok == uuid_text_parses(text@),
{
    uuid::Uuid::from_str(text)
}

/// Calls `serde_email::is_valid_email`, which parses the text as an email
/// address with the `email_address` crate's default options. The answer
/// depends on the text alone; what it accepts is not stated here.
#[verifier::external_body]
fn email_is_valid(text: &str) -> (valid: bool)
    ensures
        valid == email_text_is_valid(text@),
{
    serde_email::is_valid_email(text)
}

/// The number is held as an integer and lies between `low` and `high`.
pub open spec fn integer_within(number: JsonNumber, low: int, high: int) -> bool {
    match number.integer() {
        Some(value) => low <= value <= high,
        None => false,
    }
}

/// The error that a number matcher gives for a number it rejects.
pub open spec fn number_error(kind: BasicType, number: JsonNumber) -> BasicErrorModel {
    match kind {
        BasicType::PositiveNumber => BasicErrorModel::NotAPositiveNumber(number),
        BasicType::NegativeNumber => BasicErrorModel::NotANegativeNumber(number),
        BasicType::U8 => BasicErrorModel::NotAU8(number),
        BasicType::U16 => BasicErrorModel::NotAU16(number),
        BasicType::U32 => BasicErrorModel::NotAU32(number),
        BasicType::U64 => BasicErrorModel::NotAU64(number),
        BasicType::I8 => BasicErrorModel::NotAI8(number),
        BasicType::I16 => BasicErrorModel::NotAI16(number),
        BasicType::I32 => BasicErrorModel::NotAI32(number),
        _ => BasicErrorModel::NotAI64(number),
    }
}

/// Whether a number matcher accepts a number. Zero is neither below nor
/// above zero, so both sign matchers accept it. The integer matchers accept
/// integers of their range; a number in floating-point form is never one.
pub open spec fn number_accepted(kind: BasicType, number: JsonNumber) -> bool {
    match kind {
        BasicType::PositiveNumber => !number.is_negative(),
        BasicType::NegativeNumber => !number.is_positive(),
        BasicType::U8 => integer_within(number, 0, 0xFF),
        BasicType::U16 => integer_within(number, 0, 0xFFFF),
        BasicType::U32 => integer_within(number, 0, 0xFFFF_FFFF),
        BasicType::U64 => integer_within(number, 0, 0xFFFF_FFFF_FFFF_FFFF),
        BasicType::I8 => integer_within(number, -0x80, 0x7F),
        BasicType::I16 => integer_within(number, -0x8000, 0x7FFF),
        BasicType::I32 => integer_within(number, -0x8000_0000, 0x7FFF_FFFF),
        _ => integer_within(number, -0x8000_0000_0000_0000, 0x7FFF_FFFF_FFFF_FFFF),
    }
}

/// What a number matcher says of a number.
pub open spec fn number_verdict(kind: BasicType, number: JsonNumber) -> Result<
    (),
    BasicErrorModel,
> {
    if number_accepted(kind, number) {
        Ok(())
    } else {
        Err(number_error(kind, number))
    }
}

/// What the UUID matcher says of a string, given whether the text parses.
pub open spec fn uuid_verdict(text: Seq<char>, parses: bool) -> Result<(), BasicErrorModel> {
    if parses {
        Ok(())
    } else {
        Err(BasicErrorModel::IncorrectUuid(text))
    }
}

/// What the email matcher says of a string, given whether the text is a
/// valid address.
pub open spec fn email_verdict(text: Seq<char>, valid: bool) -> Result<(), BasicErrorModel> {
    if valid {
        Ok(())
    } else {
        Err(BasicErrorModel::IncorrectEmail(text))
    }
}

/// What a basic matcher says of a value.
pub open spec fn basic_verdict(kind: BasicType, value: JsonModel) -> Result<(), BasicErrorModel> {
    match kind {
        BasicType::Any => Ok(()),
        BasicType::Null => match value {
            JsonModel::Null => Ok(()),
            _ => Err(BasicErrorModel::IncorrectType(kind, value)),
        },
        BasicType::Boolean => match value {
            JsonModel::Bool(_) => Ok(()),
            _ => Err(BasicErrorModel::IncorrectType(kind, value)),
        },
        BasicType::Number => match value {
            JsonModel::Number(_) => Ok(()),
            _ => Err(BasicErrorModel::IncorrectType(kind, value)),
        },
        BasicType::String => match value {
            JsonModel::String(_) => Ok(()),
            _ => Err(BasicErrorModel::IncorrectType(kind, value)),
        },
        BasicType::FilledString => match value {
            JsonModel::String(text) => if text.len() == 0 {
                Err(BasicErrorModel::EmptyString)
            } else {
                Ok(())
            },
            _ => Err(BasicErrorModel::IncorrectType(kind, value)),
        },
        BasicType::Array => match value {
            JsonModel::Array(_) => Ok(()),
            _ => Err(BasicErrorModel::IncorrectType(kind, value)),
        },
        BasicType::Object => match value {
            JsonModel::Object(_) => Ok(()),
            _ => Err(BasicErrorModel::IncorrectType(kind, value)),
        },
        BasicType::Uuid => match value {
            JsonModel::String(text) => uuid_verdict(text, uuid_text_parses(text)),
            _ => Err(BasicErrorModel::IncorrectType(kind, value)),
        },
        BasicType::Email => match value {
            JsonModel::String(text) => email_verdict(text, email_text_is_valid(text)),
            _ => Err(BasicErrorModel::IncorrectType(kind, value)),
        },
        _ => match value {
            JsonModel::Number(number) => number_verdict(kind, number),
            _ => Err(BasicErrorModel::IncorrectType(kind, value)),
        },
    }
}

/// The name of a basic matcher in a description.
pub open spec fn basic_type_name(kind: BasicType) -> Seq<char> {
    match kind {
        BasicType::Any => "any"@,
        BasicType::String => "string"@,
        BasicType::FilledString => "filled string"@,
        BasicType::Number => "number"@,
        BasicType::Null => "null"@,
        BasicType::Object => "object"@,
        BasicType::Array => "array"@,
        BasicType::Uuid => "uuid"@,
        BasicType::Email => "email"@,
        BasicType::Boolean => "boolean"@,
        BasicType::PositiveNumber => "positive number"@,
        BasicType::NegativeNumber => "negative number"@,
        BasicType::U8 => "u8"@,
        BasicType::U16 => "u16"@,
        BasicType::U32 => "u32"@,
        BasicType::U64 => "u64"@,
        BasicType::I8 => "i8"@,
        BasicType::I16 => "i16"@,
        BasicType::I32 => "i32"@,
        BasicType::I64 => "i64"@,
    }
}

impl BasicType {
    /// The matcher checks a number beyond its kind: its sign or its range.
    pub open spec fn checks_number(self) -> bool {
        match self {
            BasicType::PositiveNumber
            | BasicType::NegativeNumber
            | BasicType::U8
            | BasicType::U16
            | BasicType::U32
            | BasicType::U64
            | BasicType::I8
            | BasicType::I16
            | BasicType::I32
            | BasicType::I64 => true,
            _ => false,
        }
    }

    /// Tells whether the number is an integer between `low` and `high`.
    fn within(number: &JsonNumber, low: i64, high: u64) -> (inside: bool)
        requires
            low <= 0,
        ensures
            inside == integer_within(*number, low as int, high as int),
    {
        match number {
            JsonNumber::PosInt(value) => *value <= high,
            JsonNumber::NegInt(value) => low <= *value && (*value < 0 || *value as u64 <= high),
            JsonNumber::Float(_) => false,
        }
    }

    /// The error of this matcher for a number that it rejects.
    fn reject_number(&self, number: &JsonNumber) -> (error: BasicTypeValidationError)
        ensures
            error@ == number_error(*self, *number),
    {
        match self {
            BasicType::PositiveNumber => BasicTypeValidationError::NotAPositiveNumber(*number),
            BasicType::NegativeNumber => BasicTypeValidationError::NotANegativeNumber(*number),
            BasicType::U8 => BasicTypeValidationError::NotAU8(*number),
            BasicType::U16 => BasicTypeValidationError::NotAU16(*number),
            BasicType::U32 => BasicTypeValidationError::NotAU32(*number),
            BasicType::U64 => BasicTypeValidationError::NotAU64(*number),
            BasicType::I8 => BasicTypeValidationError::NotAI8(*number),
            BasicType::I16 => BasicTypeValidationError::NotAI16(*number),
            BasicType::I32 => BasicTypeValidationError::NotAI32(*number),
            _ => BasicTypeValidationError::NotAI64(*number),
        }
    }

    /// Checks the sign or the range of a number.
    ///
    /// Only the matchers that check a number beyond its kind have an answer
    /// here.
    pub fn validate_number(&self, number: &JsonNumber) -> (outcome: Result<
        (),
        BasicTypeValidationError,
    >)
        requires
            self.checks_number(),
        ensures
            outcome_model(outcome) == number_verdict(*self, *number),
    {
        let accepted = match self {
            BasicType::PositiveNumber => !number.below_zero(),
            BasicType::NegativeNumber => !number.above_zero(),
            BasicType::U8 => Self::within(number, 0, 0xFF),
            BasicType::U16 => Self::within(number, 0, 0xFFFF),
            BasicType::U32 => Self::within(number, 0, 0xFFFF_FFFF),
            BasicType::U64 => Self::within(number, 0, 0xFFFF_FFFF_FFFF_FFFF),
            BasicType::I8 => Self::within(number, -0x80, 0x7F),
            BasicType::I16 => Self::within(number, -0x8000, 0x7FFF),
            BasicType::I32 => Self::within(number, -0x8000_0000, 0x7FFF_FFFF),
            _ => Self::within(number, -0x8000_0000_0000_0000, 0x7FFF_FFFF_FFFF_FFFF),
        };
        if accepted {
            Ok(())
        } else {
            Err(self.reject_number(number))
        }
    }

    /// The outcome of the UUID matcher on a string, once it is known whether
    /// the text parses as a UUID.
    pub fn uuid_outcome(text: &String, parses: bool) -> (outcome: Result<
        (),
        BasicTypeValidationError,
    >)
        ensures
            outcome_model(outcome) == uuid_verdict(text@, parses),
    {
        if parses {
            Ok(())
        } else {
            Err(BasicTypeValidationError::IncorrectUuid(text.clone()))
        }
    }

    /// The outcome of the email matcher on a string, once it is known
    /// whether the text is a valid address.
    pub fn email_outcome(text: &String, valid: bool) -> (outcome: Result<
        (),
        BasicTypeValidationError,
    >)
        ensures
            outcome_model(outcome) == email_verdict(text@, valid),
    {
        if valid {
            Ok(())
        } else {
            Err(BasicTypeValidationError::IncorrectEmail(text.clone()))
        }
    }

    /// The error for a value of another kind than this matcher expects.
    fn incorrect_type(&self, value: &JsonValue) -> (outcome: Result<(), BasicTypeValidationError>)
        ensures
            outcome_model(outcome) == Err::<(), BasicErrorModel>(
                BasicErrorModel::IncorrectType(*self, value@),
            ),
    {
        Err(BasicTypeValidationError::IncorrectType(*self, value.clone()))
    }

    /// Checks a value against this matcher.
    pub fn validate(&self, value: &JsonValue) -> (outcome: Result<(), BasicTypeValidationError>)
        ensures
            outcome_model(outcome) == basic_verdict(*self, value@),
    {
        match self {
            BasicType::Any => Ok(()),
            BasicType::Null => match value {
                JsonValue::Null => Ok(()),
                _ => self.incorrect_type(value),
            },
            BasicType::Boolean => match value {
                JsonValue::Bool(_) => Ok(()),
                _ => self.incorrect_type(value),
            },
            BasicType::Number => match value {
                JsonValue::Number(_) => Ok(()),
                _ => self.incorrect_type(value),
            },
            BasicType::String => match value {
                JsonValue::String(_) => Ok(()),
                _ => self.incorrect_type(value),
            },
            BasicType::FilledString => match value {
                JsonValue::String(text) => {
                    if text.as_str().is_empty() {
                        Err(BasicTypeValidationError::EmptyString)
                    } else {
                        Ok(())
                    }
                },
                _ => self.incorrect_type(value),
            },
            BasicType::Array => match value {
                JsonValue::Array(_) => Ok(()),
                _ => self.incorrect_type(value),
            },
            BasicType::Object => match value {
                JsonValue::Object(_) => Ok(()),
                _ => self.incorrect_type(value),
            },
            BasicType::Uuid => match value {
                JsonValue::String(text) => {
                    let parses = match parse_uuid(text.as_str()) {
                        Ok(_) => true,
                        Err(_) => false,
                    };
                    Self::uuid_outcome(text, parses)
                },
                _ => self.incorrect_type(value),
            },
            BasicType::Email => match value {
                JsonValue::String(text) => {
                    let valid = email_is_valid(text.as_str());
                    Self::email_outcome(text, valid)
                },
                _ => self.incorrect_type(value),
            },
            _ => match value {
                JsonValue::Number(number) => self.validate_number(number),
                _ => self.incorrect_type(value),
            },
        }
    }

    /// The name of this matcher in a description.
    pub fn to_string(&self) -> (text: String)
        ensures
            text@ == basic_type_name(*self),
    {
        let name = match self {
            BasicType::Any => "any",
            BasicType::String => "string",
            BasicType::FilledString => "filled string",
            BasicType::Number => "number",
            BasicType::Null => "null",
            BasicType::Object => "object",
            BasicType::Array => "array",
            BasicType::Uuid => "uuid",
            BasicType::Email => "email",
            BasicType::Boolean => "boolean",
            BasicType::PositiveNumber => "positive number",
            BasicType::NegativeNumber => "negative number",
            BasicType::U8 => "u8",
            BasicType::U16 => "u16",
            BasicType::U32 => "u32",
            BasicType::U64 => "u64",
            BasicType::I8 => "i8",
            BasicType::I16 => "i16",
            BasicType::I32 => "i32",
            BasicType::I64 => "i64",
        };
        name.to_owned()
    }
}

} // verus!
