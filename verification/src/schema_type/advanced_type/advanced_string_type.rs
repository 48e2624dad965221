//! A string matcher with a configurable length.
use crate::json::JsonValue;
use crate::schema_type::model::string_verdict;
use vstd::prelude::*;
use vstd::string::*;

verus! {

/// Why a value did not match an [`AdvancedStringType`].
#[derive(Debug, Clone, Copy, PartialEq, Eq)]
pub enum StringValidationError {
    /// The value is not a string.
    NotAString,
    /// The string is empty, and a filled one is required.
    RequireFilled,
    /// The string is longer than the maximum.
    StringTooLong,
    /// The string is shorter than the minimum.
    StringTooShort,
}

/// A string matcher. Lengths are counted in bytes of UTF-8.
#[derive(Debug, Clone, Copy, PartialEq, Eq)]
pub struct AdvancedStringType {
    /// The string may not be empty.
    pub require_filled: bool,
    /// The least length that is accepted, if there is one.
    pub min_length: Option<usize>,
    /// The greatest length that is accepted, if there is one.
    pub max_length: Option<usize>,
}

/// How a string matcher is described.
pub open spec fn string_type_description(config: AdvancedStringType) -> Seq<char> {
    if config.require_filled {
        "filled string"@
    } else {
        "string"@
    }
}

impl Default for AdvancedStringType {
    /// A filled string of any length.
    fn default() -> (config: Self)
        ensures
            config == (AdvancedStringType {
                require_filled: true,
                min_length: None,
                max_length: None,
            }),
    {
        AdvancedStringType { require_filled: true, min_length: None, max_length: None }
    }
}

impl AdvancedStringType {
    /// Checks a value against this matcher.
    pub fn validate(&self, value: &JsonValue) -> (outcome: Result<(), StringValidationError>)
        ensures
            outcome == string_verdict(*self, value@),
    {
        match value {
            JsonValue::String(text) => {
                let text = text.as_str();
                if text.is_empty() && self.require_filled {
                    return Err(StringValidationError::RequireFilled);
                }
                if let Some(max_length) = self.max_length {
                    if text.len() > max_length {
                        return Err(StringValidationError::StringTooLong);
                    }
                }
                if let Some(min_length) = self.min_length {
                    if text.len() < min_length {
                        return Err(StringValidationError::StringTooShort);
                    }
                }
                Ok(())
            },
            _ => Err(StringValidationError::NotAString),
        }
    }

    /// Describes this matcher.
    pub fn to_string(&self) -> (text: String)
        ensures
            text@ == string_type_description(*self),
    {
        if self.require_filled {
            "filled string".to_owned()
        } else {
            "string".to_owned()
        }
    }
}

} // verus!
