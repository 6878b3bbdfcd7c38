//! What each request handler decides.
//!
//! A handler alternates database round trips with decisions. Each handler here is
//! a step function: it is called first with its `Start` event, and then with the
//! outcome of each operation it asked for, until it finishes with an answer. The
//! caller performs the operations; the step function decides what comes next.
use vstd::prelude::*;
use crate::api_error::ApiError;
use crate::response::ApiResponse;
use crate::validation::{error_report, format_validation_errors, ValidationErrors};

pub mod auth;
pub mod projects;
pub mod task_catalog;
pub mod tasks;
pub mod workspaces;

verus! {

/// A database round trip that failed, whatever the cause.
#[derive(Debug, Clone, Copy, PartialEq, Eq, Structural)]
pub struct DbFailure;

/// What a handler does next.
#[derive(Debug)]
pub enum Next<Q, A> {
    /// Perform this operation and hand its outcome back.
    Run(Q),
    /// Finish the request with this answer.
    Finish(A),
}

/// The answer of a handler: a success body (sent as JSON with HTTP status 200),
/// or an error (sent with the error's own status).
pub type Reply<T> = Result<ApiResponse<T>, ApiError>;

/// The handler finishes with a success body with this code, message and data.
pub open spec fn finishes_ok<Q, T>(n: Next<Q, Reply<T>>, code: u16, message: Seq<char>, data: Option<T>) -> bool {
    n matches Next::Finish(Ok(resp)) && resp.success && resp.status_code == code
        && resp.message@ == message && resp.data == data
}

/// The handler finishes with an error of this status and message.
pub open spec fn finishes_err<Q, T>(n: Next<Q, Reply<T>>, status: u16, message: Seq<char>) -> bool {
    n matches Next::Finish(Err(e)) && e.spec_status() == status && e.spec_message() == message
}

/// The handler finishes with the answer to a payload that failed its checks:
/// a bad request that lists them.
pub open spec fn finishes_invalid<Q, T>(n: Next<Q, Reply<T>>, failures: Seq<crate::validation::FieldErrorModel>) -> bool {
    finishes_err(n, 400, error_report(failures))
}

/// The view of an optional string.
pub open spec fn opt_text(o: Option<String>) -> Option<Seq<char>> {
    match o {
        Some(s) => Some(s@),
        None => None,
    }
}

/// A copy of an optional string.
pub fn copy_opt_text(o: &Option<String>) -> (r: Option<String>)
    ensures
        opt_text(r) == opt_text(*o),
{
    match o {
        Some(s) => Some(s.clone()),
        None => None,
    }
}

/// Finish with a success body.
pub fn finish_ok<Q, T>(code: u16, message: &str, data: Option<T>) -> (n: Next<Q, Reply<T>>)
    ensures
        finishes_ok(n, code, message@, data),
{
    Next::Finish(Ok(ApiResponse::new(true, code, String::from_str(message), data)))
}

/// Finish with an internal server error.
pub fn finish_internal<Q, T>(message: &str) -> (n: Next<Q, Reply<T>>)
    ensures
        finishes_err(n, 500, message@),
{
    Next::Finish(Err(ApiError::InternalServerError(String::from_str(message))))
}

/// Finish with a not-found error.
pub fn finish_not_found<Q, T>(message: &str) -> (n: Next<Q, Reply<T>>)
    ensures
        finishes_err(n, 404, message@),
{
    Next::Finish(Err(ApiError::NotFound(String::from_str(message))))
}

/// Finish with a forbidden error.
pub fn finish_forbidden<Q, T>(message: &str) -> (n: Next<Q, Reply<T>>)
    ensures
        finishes_err(n, 403, message@),
{
    Next::Finish(Err(ApiError::Forbidden(String::from_str(message))))
}

/// Finish with the bad request that lists a payload's failed checks.
pub fn finish_invalid<Q, T>(errors: &ValidationErrors) -> (n: Next<Q, Reply<T>>)
    ensures
        finishes_invalid(n, errors@),
{
    Next::Finish(Err(ApiError::BadRequest(format_validation_errors(errors))))
}

} // verus!
