//! The uniform success answer of the service.
use vstd::prelude::*;

verus! {

/// An answer: whether it reports success, a status code, a message and,
/// optionally, data. (On the wire `data` is left out where it is `None`.)
#[derive(Debug, Clone)]
pub struct ApiResponse<T> {
    pub success: bool,
    pub status_code: u16,
    pub message: String,
    pub data: Option<T>,
}

/// Whether a number is a valid HTTP status code (100 to 999), as `StatusCode::from_u16` accepts it.
pub open spec fn valid_status(code: u16) -> bool {
    100 <= code <= 999
}

/// The HTTP status an answer is sent with: its own code where that is valid, else 200.
pub open spec fn sent_status(code: u16) -> u16 {
    if valid_status(code) {
        code
    } else {
        200
    }
}

impl<T> ApiResponse<T> {
    /// An answer with the given fields.
    pub fn new(success: bool, status_code: u16, message: String, data: Option<T>) -> (r: Self)
        ensures
            r.success == success,
            r.status_code == status_code,
            r.message@ == message@,
            r.data == data,
    {
        ApiResponse { success, status_code, message, data }
    }

    /// The answer as it is sent on its own: the HTTP status is the answer's code
    /// where that is a valid status, else 200; the body repeats that status and
    /// reports success, with the message and data unchanged.
    pub fn into_response_parts(self) -> (r: (u16, ApiResponse<T>))
        ensures
            r.0 == sent_status(self.status_code),
            r.1.success,
            r.1.status_code == r.0,
            r.1.message@ == self.message@,
            r.1.data == self.data,
    {
        let status: u16 = if 100 <= self.status_code && self.status_code <= 999 {
            self.status_code
        } else {
            200
        };
        (status, ApiResponse { success: true, status_code: status, message: self.message, data: self.data })
    }
}

} // verus!
