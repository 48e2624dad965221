//! Errors of the field validators.
pub mod validation_error;
