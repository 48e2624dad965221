//! A change together with the path it is made at.
use crate::json::JsonValue;
use crate::migration::json_path::JsonPath;
use crate::migration::operation_kind::{applied, applied_model, OperationError, OperationKind};
use vstd::prelude::*;

verus! {

/// One step of a migration: a kind of change and the path of the value to
/// change.
#[derive(Debug, PartialEq)]
pub struct Operation {
    pub target: JsonPath,
    pub op: OperationKind,
}

impl Operation {
    /// The step that makes a change at a path.
    pub fn new(target_path: JsonPath, kind: OperationKind) -> (operation: Self)
        ensures
            operation.target == target_path,
            operation.op == kind,
    {
        Self { target: target_path, op: kind }
    }

    /// Makes the change of this step to a value.
    pub fn apply(&self, working_value: &mut JsonValue) -> (outcome: Result<(), OperationError>)
        ensures
            applied_model(outcome, final(working_value)@) == applied(
                self.op@,
                self.target@,
                old(working_value)@,
            ),
    {
        self.op.apply(&self.target, working_value)
    }
}

} // verus!
