//! Payloads of the project endpoints.
use vstd::prelude::*;
use crate::validation::{
    failure, length_within, outcome, outcome_view, unless, FieldErrorModel, ValidationErrors,
};

verus! {

/// The body of a request that creates a project.
#[derive(Debug, Clone)]
pub struct CreateProjectPayload {
    pub workspace_id: u128,
    pub name: String,
    pub description: Option<String>,
}

/// The body of a request that changes a project; absent fields stay as they are.
#[derive(Debug, Clone)]
pub struct UpdateProjectPayload {
    pub name: Option<String>,
    pub description: Option<String>,
}

/// The failed check of a project name: 2 to 100 characters.
pub open spec fn project_name_failures(name: Seq<char>) -> Seq<FieldErrorModel> {
    unless(
        length_within(name.len(), Some(2), Some(100)),
        failure("name"@, "length"@, "Project name must be between 2 and 100 characters"@),
    )
}

/// The failed check of a project description: at most 500 characters.
pub open spec fn project_description_failures(description: Seq<char>) -> Seq<FieldErrorModel> {
    unless(
        length_within(description.len(), None, Some(500)),
        failure("description"@, "length"@, "Description must be less than 500 characters"@),
    )
}

impl CreateProjectPayload {
    /// The checks that fail on this payload: the name, then the description if given.
    pub open spec fn failures(&self) -> Seq<FieldErrorModel> {
        project_name_failures(self.name@) + match self.description {
            Some(d) => project_description_failures(d@),
            None => Seq::empty(),
        }
    }

    /// Validates the payload: it passes exactly when the name has 2 to 100
    /// characters and the description, if given, at most 500.
    pub fn validate(&self) -> (r: Result<(), ValidationErrors>)
        ensures
            outcome_view(r) == outcome(self.failures()),
            r is Ok <==> (2 <= self.name@.len() <= 100 && (self.description matches Some(d)
                ==> d@.len() <= 500)),
    {
        let mut errors = ValidationErrors::new();
        errors.check_length(
            "name",
            self.name.as_str(),
            Some(2),
            Some(100),
            "Project name must be between 2 and 100 characters",
        );
        errors.check_optional_length(
            "description",
            &self.description,
            None,
            Some(500),
            "Description must be less than 500 characters",
        );
        assert(errors@ =~= self.failures());
        errors.into_result()
    }
}

impl UpdateProjectPayload {
    /// The checks that fail on this payload: the name if given, then the description if given.
    pub open spec fn failures(&self) -> Seq<FieldErrorModel> {
        (match self.name {
            Some(n) => project_name_failures(n@),
            None => Seq::empty(),
        }) + (match self.description {
            Some(d) => project_description_failures(d@),
            None => Seq::empty(),
        })
    }

    /// Validates the payload: it passes exactly when the name, if given, has 2 to
    /// 100 characters and the description, if given, at most 500.
    pub fn validate(&self) -> (r: Result<(), ValidationErrors>)
        ensures
            outcome_view(r) == outcome(self.failures()),
            r is Ok <==> ((self.name matches Some(n) ==> 2 <= n@.len() <= 100) && (
            self.description matches Some(d) ==> d@.len() <= 500)),
    {
        let mut errors = ValidationErrors::new();
        errors.check_optional_length(
            "name",
            &self.name,
            Some(2),
            Some(100),
            "Project name must be between 2 and 100 characters",
        );
        errors.check_optional_length(
            "description",
            &self.description,
            None,
            Some(500),
            "Description must be less than 500 characters",
        );
        assert(errors@ =~= self.failures());
        errors.into_result()
    }
}

} // verus!
