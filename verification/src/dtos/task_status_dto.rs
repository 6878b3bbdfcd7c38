//! Payloads of the task status endpoints.
use vstd::prelude::*;
use crate::validation::{
    failure, length_within, outcome, outcome_view, unless, FieldErrorModel, ValidationErrors,
};

verus! {

/// The body of a request that creates a task status of a project.
#[derive(Debug, Clone)]
pub struct CreateTaskStatusPayload {
    pub name: String,
}

/// The body of a request that renames a task status; an absent name stays as it is.
#[derive(Debug, Clone)]
pub struct UpdateTaskStatusPayload {
    pub name: Option<String>,
}

/// The failed check of a task status name: 2 to 50 characters.
pub open spec fn task_status_name_failures(name: Seq<char>) -> Seq<FieldErrorModel> {
    unless(
        length_within(name.len(), Some(2), Some(50)),
        failure("name"@, "length"@, "Name must be between 2 and 50 characters"@),
    )
}

impl CreateTaskStatusPayload {
    /// The checks that fail on this payload.
    pub open spec fn failures(&self) -> Seq<FieldErrorModel> {
        task_status_name_failures(self.name@)
    }

    /// Validates the payload: it passes exactly when the name has 2 to 50 characters.
    pub fn validate(&self) -> (r: Result<(), ValidationErrors>)
        ensures
            outcome_view(r) == outcome(self.failures()),
            r is Ok <==> 2 <= self.name@.len() <= 50,
    {
        let mut errors = ValidationErrors::new();
        errors.check_length(
            "name",
            self.name.as_str(),
            Some(2),
            Some(50),
            "Name must be between 2 and 50 characters",
        );
        assert(errors@ =~= self.failures());
        errors.into_result()
    }
}

impl UpdateTaskStatusPayload {
    /// The checks that fail on this payload: the name, if given.
    pub open spec fn failures(&self) -> Seq<FieldErrorModel> {
        match self.name {
            Some(n) => task_status_name_failures(n@),
            None => Seq::empty(),
        }
    }

    /// Validates the payload: it passes exactly when the name, if given, has 2
    /// to 50 characters.
    pub fn validate(&self) -> (r: Result<(), ValidationErrors>)
        ensures
            outcome_view(r) == outcome(self.failures()),
            r is Ok <==> (self.name matches Some(n) ==> 2 <= n@.len() <= 50),
    {
        let mut errors = ValidationErrors::new();
        errors.check_optional_length(
            "name",
            &self.name,
            Some(2),
            Some(50),
            "Name must be between 2 and 50 characters",
        );
        assert(errors@ =~= self.failures());
        errors.into_result()
    }
}

} // verus!
