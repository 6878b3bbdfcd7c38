//! The errors a request can end in, and the HTTP answer each is given.
use vstd::prelude::*;

verus! {

/// An error answer, with the message the client is shown.
#[derive(Debug, Clone)]
pub enum ApiError {
    Unauthorized(String),
    NotFound(String),
    BadRequest(String),
    InternalServerError(String),
    Conflict(String),
    Forbidden(String),
}

/// The body of an error answer: `success` is false and `status_code` repeats the
/// HTTP status. (On the wire it also carries `"data": null`.)
#[derive(Debug, Clone)]
pub struct ApiErrorResponse {
    pub success: bool,
    pub status_code: u16,
    pub message: String,
}

impl ApiError {
    /// The HTTP status of the error.
    pub open spec fn spec_status(&self) -> u16 {
        match self {
            ApiError::Unauthorized(_) => 401,
            ApiError::NotFound(_) => 404,
            ApiError::BadRequest(_) => 400,
            ApiError::InternalServerError(_) => 500,
            ApiError::Conflict(_) => 409,
            ApiError::Forbidden(_) => 403,
        }
    }

    /// The message of the error.
    pub open spec fn spec_message(&self) -> Seq<char> {
        match self {
            ApiError::Unauthorized(m) => m@,
            ApiError::NotFound(m) => m@,
            ApiError::BadRequest(m) => m@,
            ApiError::InternalServerError(m) => m@,
            ApiError::Conflict(m) => m@,
            ApiError::Forbidden(m) => m@,
        }
    }

    /// The HTTP status of the error: 401, 404, 400, 500, 409 or 403.
    pub fn status_code(&self) -> (r: u16)
        ensures
            r == self.spec_status(),
    {
        match self {
            ApiError::Unauthorized(_) => 401,
            ApiError::NotFound(_) => 404,
            ApiError::BadRequest(_) => 400,
            ApiError::InternalServerError(_) => 500,
            ApiError::Conflict(_) => 409,
            ApiError::Forbidden(_) => 403,
        }
    }

    /// The answer the error is sent as: its status, and a body with `success`
    /// false, the same status code and the error's message.
    pub fn into_response_body(self) -> (r: ApiErrorResponse)
        ensures
            !r.success,
            r.status_code == self.spec_status(),
            r.message@ == self.spec_message(),
            400 <= r.status_code < 600,
    {
        let status_code: u16 = self.status_code();
        let message = match self {
            ApiError::Unauthorized(m) => m,
            ApiError::NotFound(m) => m,
            ApiError::BadRequest(m) => m,
            ApiError::InternalServerError(m) => m,
            ApiError::Conflict(m) => m,
            ApiError::Forbidden(m) => m,
        };
        ApiErrorResponse { success: false, status_code, message }
    }
}

} // verus!
