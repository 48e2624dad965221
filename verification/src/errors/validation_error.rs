//! Why a field validator rejected a value.
use vstd::prelude::*;

verus! {

/// Why a field validator rejected a value.
#[derive(Debug, PartialEq)]
pub enum ValidationError {
    NotAnObject,
    MissingKeyInObject(String),
    NotAString,
    /// A filled string was expected and the string is empty.
    StringNotFilled,
    /// The string is too short: the least length, then the length found.
    StringNotMinLength(usize, usize),
    /// The string is too long: the greatest length, then the length found.
    StringExceedsMaxLength(usize, usize),
    /// A validator written elsewhere rejected the value: its message.
    Custom(String),
}

/// The mathematical model of a [`ValidationError`].
pub enum ValidationErrorModel {
    NotAnObject,
    MissingKeyInObject(Seq<char>),
    NotAString,
    StringNotFilled,
    StringNotMinLength(usize, usize),
    StringExceedsMaxLength(usize, usize),
    Custom(Seq<char>),
}

impl View for ValidationError {
    type V = ValidationErrorModel;

    open spec fn view(&self) -> ValidationErrorModel {
        match *self {
            ValidationError::NotAnObject => ValidationErrorModel::NotAnObject,
            ValidationError::MissingKeyInObject(key) => ValidationErrorModel::MissingKeyInObject(
                key@,
            ),
            ValidationError::NotAString => ValidationErrorModel::NotAString,
            ValidationError::StringNotFilled => ValidationErrorModel::StringNotFilled,
            ValidationError::StringNotMinLength(least, found) => {
                ValidationErrorModel::StringNotMinLength(least, found)
            },
            ValidationError::StringExceedsMaxLength(greatest, found) => {
                ValidationErrorModel::StringExceedsMaxLength(greatest, found)
            },
            ValidationError::Custom(message) => ValidationErrorModel::Custom(message@),
        }
    }
}

impl ValidationError {
    /// The error of a validator written elsewhere, with its message.
    pub fn new_custom(message: String) -> (error: Self)
        ensures
            error@ == ValidationErrorModel::Custom(message@),
    {
        ValidationError::Custom(message)
    }
}

} // verus!
