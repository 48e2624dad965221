//! Addressing a place inside a JSON value, and changing the value there.
pub mod json_path;
pub mod operation;
pub mod operation_kind;
pub mod part;
pub mod resolve_path;
pub mod set_path;
