//! What the matchers have in common.
pub mod validator;
