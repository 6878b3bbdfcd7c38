//! Payloads of the authentication endpoints.
use vstd::prelude::*;
use crate::validation::{
    email_accepted, failure, length_within, outcome, outcome_view, unless, FieldErrorModel,
    ValidationErrors,
};

verus! {

/// The body of a registration request.
#[derive(Debug, Clone)]
pub struct RegisterUserDto {
    pub name: String,
    pub email: String,
    pub password: String,
    pub confirm_password: String,
}

/// The body of a login request.
#[derive(Debug, Clone)]
pub struct LoginUserDto {
    pub email: String,
    pub password: String,
}

/// The failed checks of an e-mail field: non-empty, then a valid address.
pub open spec fn email_failures(email: Seq<char>) -> Seq<FieldErrorModel> {
    unless(
        length_within(email.len(), Some(1), None),
        failure("email"@, "length"@, "Email cannot be empty"@),
    ) + unless(email_accepted(email), failure("email"@, "email"@, "Invalid email format"@))
}

/// The failed check of a password field: 6 to 12 characters.
pub open spec fn password_failures(password: Seq<char>) -> Seq<FieldErrorModel> {
    unless(
        length_within(password.len(), Some(6), Some(12)),
        failure("password"@, "length"@, "Password must be between 6 and 12 characters"@),
    )
}

impl RegisterUserDto {
    /// The checks that fail on this payload, in order: a non-empty name, a non-empty
    /// and valid e-mail, a password of 6 to 12 characters, a matching confirmation.
    pub open spec fn failures(&self) -> Seq<FieldErrorModel> {
        unless(
            length_within(self.name@.len(), Some(1), None),
            failure("name"@, "length"@, "Name cannot be empty"@),
        ) + email_failures(self.email@) + password_failures(self.password@) + unless(
            self.confirm_password@ == self.password@,
            failure("confirm_password"@, "must_match"@, "Passwords do not match"@),
        )
    }

    /// Validates the payload: it passes exactly when the name and e-mail are
    /// non-empty, the e-mail is a valid address, the password has 6 to 12 characters
    /// and the confirmation equals it. An e-mail without `@` is refused.
    pub fn validate(&self) -> (r: Result<(), ValidationErrors>)
        ensures
            outcome_view(r) == outcome(self.failures()),
            !self.email@.contains('@') ==> r is Err,
            r is Ok <==> (self.name@.len() >= 1 && self.email@.len() >= 1 && email_accepted(
                self.email@,
            ) && 6 <= self.password@.len() <= 12 && self.confirm_password@ == self.password@),
    {
        let mut errors = ValidationErrors::new();
        errors.check_length("name", self.name.as_str(), Some(1), None, "Name cannot be empty");
        errors.check_length("email", self.email.as_str(), Some(1), None, "Email cannot be empty");
        errors.check_email("email", self.email.as_str(), "Invalid email format");
        errors.check_length(
            "password",
            self.password.as_str(),
            Some(6),
            Some(12),
            "Password must be between 6 and 12 characters",
        );
        errors.check_must_match(
            "confirm_password",
            self.confirm_password.as_str(),
            self.password.as_str(),
            "Passwords do not match",
        );
        assert(errors@ =~= self.failures());
        assert(!self.email@.contains('@') ==> self.failures().len() > 0);
        errors.into_result()
    }
}

impl LoginUserDto {
    /// The checks that fail on this payload, in order: a non-empty and valid e-mail,
    /// a password of 6 to 12 characters.
    pub open spec fn failures(&self) -> Seq<FieldErrorModel> {
        email_failures(self.email@) + password_failures(self.password@)
    }

    /// Validates the payload: it passes exactly when the e-mail is non-empty and a
    /// valid address and the password has 6 to 12 characters. An e-mail without `@`
    /// is refused.
    pub fn validate(&self) -> (r: Result<(), ValidationErrors>)
        ensures
            outcome_view(r) == outcome(self.failures()),
            !self.email@.contains('@') ==> r is Err,
            r is Ok <==> (self.email@.len() >= 1 && email_accepted(self.email@) && 6
                <= self.password@.len() <= 12),
    {
        let mut errors = ValidationErrors::new();
        errors.check_length("email", self.email.as_str(), Some(1), None, "Email cannot be empty");
        errors.check_email("email", self.email.as_str(), "Invalid email format");
        errors.check_length(
            "password",
            self.password.as_str(),
            Some(6),
            Some(12),
            "Password must be between 6 and 12 characters",
        );
        assert(errors@ =~= self.failures());
        assert(!self.email@.contains('@') ==> self.failures().len() > 0);
        errors.into_result()
    }
}

} // verus!
