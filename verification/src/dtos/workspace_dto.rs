//! Payloads of the workspace endpoints.
use vstd::prelude::*;
use crate::validation::{
    failure, length_within, outcome, outcome_view, unless, FieldErrorModel, ValidationErrors,
};

verus! {

/// The body of a request that creates a workspace.
#[derive(Debug, Clone)]
pub struct CreateWorkspacePayload {
    pub name: String,
}

/// The body of a request that renames a workspace.
#[derive(Debug, Clone)]
pub struct UpdateWorkspacePayload {
    pub name: String,
}

/// The failed check of a workspace name: 2 to 100 characters.
pub open spec fn workspace_name_failures(name: Seq<char>) -> Seq<FieldErrorModel> {
    unless(
        length_within(name.len(), Some(2), Some(100)),
        failure("name"@, "length"@, "Workspace name must be between 2 and 100 characters"@),
    )
}

/// Runs the workspace name check.
fn validate_workspace_name(name: &String) -> (r: Result<(), ValidationErrors>)
    ensures
        outcome_view(r) == outcome(workspace_name_failures(name@)),
        r is Ok <==> 2 <= name@.len() <= 100,
{
    let mut errors = ValidationErrors::new();
    errors.check_length(
        "name",
        name.as_str(),
        Some(2),
        Some(100),
        "Workspace name must be between 2 and 100 characters",
    );
    assert(errors@ =~= workspace_name_failures(name@));
    errors.into_result()
}

impl CreateWorkspacePayload {
    /// The checks that fail on this payload.
    pub open spec fn failures(&self) -> Seq<FieldErrorModel> {
        workspace_name_failures(self.name@)
    }

    /// Validates the payload: it passes exactly when the name has 2 to 100 characters.
    pub fn validate(&self) -> (r: Result<(), ValidationErrors>)
        ensures
            outcome_view(r) == outcome(self.failures()),
            r is Ok <==> 2 <= self.name@.len() <= 100,
    {
        validate_workspace_name(&self.name)
    }
}

impl UpdateWorkspacePayload {
    /// The checks that fail on this payload.
    pub open spec fn failures(&self) -> Seq<FieldErrorModel> {
        workspace_name_failures(self.name@)
    }

    /// Validates the payload: it passes exactly when the name has 2 to 100 characters.
    pub fn validate(&self) -> (r: Result<(), ValidationErrors>)
        ensures
            outcome_view(r) == outcome(self.failures()),
            r is Ok <==> 2 <= self.name@.len() <= 100,
    {
        validate_workspace_name(&self.name)
    }
}

} // verus!
