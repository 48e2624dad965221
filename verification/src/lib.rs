//! A declarative schema engine for JSON values.
//!
//! A schema is a tree of matchers ([`schema_type::SchemaType`]). It is data:
//! it is read from and written as a JSON literal
//! ([`schema_type::literal`]). A candidate value ([`json::JsonValue`]) is
//! checked against a schema by walking both in lockstep; the first check
//! that fails ends the walk, and the error that comes back follows the way
//! through the schema to that check.
//!
//! What validation returns is stated once, over the mathematical models of
//! schema and value ([`schema_type::model`]), and every `validate` is proved
//! to return just that. So validation is a function of the schema and the
//! candidate; [`laws`] holds this and other laws that follow.
//!
//! [`migration`] addresses places inside a JSON value by path and changes
//! the value there. It knows nothing of schemas.
pub mod errors;
pub mod field;
pub mod json;
pub mod laws;
pub mod migration;
pub mod schema;
pub mod schema_type;
pub mod traits;

pub use traits::validator::Validator;
