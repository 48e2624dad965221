//! Validators for single fields of a form.
pub mod string_field;
