//! The result envelope of one request: either a success value or an error
//! message, each rendered with its own flag and mapped to its own status
//! code by the network layer.

use vstd::prelude::*;

verus! {

/// The envelope of a successful response.
pub struct SuccessResponse<T> {
    pub success: bool,
    pub data: T,
}

/// The envelope of a failed response.
pub struct ErrorResponse {
    pub success: bool,
    pub error: String,
}

/// The outcome of one request: a success value or an error message.
pub enum ApiResponse<T> {
    Success(T),
    Error(String),
}

impl<T> ApiResponse<T> {
    /// The status code this outcome maps to: 200 for a success, 400 for an
    /// error.
    pub fn status_code(&self) -> (r: u16)
        ensures
            self is Success ==> r == 200,
            self is Error ==> r == 400,
    {
        match self {
            ApiResponse::Success(_) => 200,
            ApiResponse::Error(_) => 400,
        }
    }
}

/// Wraps a success value in its envelope; the flag is always set.
pub fn json_success<T>(data: T) -> (r: SuccessResponse<T>)
    ensures
        r.success == true,
        r.data == data,
{
    SuccessResponse { success: true, data }
}

/// Wraps an error message in its envelope; the flag is always cleared.
pub fn json_error(msg: &str) -> (r: ErrorResponse)
    ensures
        r.success == false,
        r.error@ == msg@,
{
    ErrorResponse { success: false, error: msg.to_owned() }
}

} // verus!
