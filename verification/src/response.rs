//! The response envelope every endpoint uses: either a payload with its
//! HTTP status, or an error status with a message.

use vstd::prelude::*;

verus! {

/// A handler's result: a payload or an error message, each with the HTTP
/// status code it travels under.
#[derive(Debug)]
pub enum ApiResponse<T> {
    /// A successful response carrying `data`.
    Success { status: u16, data: T },
    /// A failed response carrying a client-facing message.
    Failure { status: u16, message: String },
}

impl<T> ApiResponse<T> {
    /// Wraps a payload as a `200 OK` response.
    pub fn make_ok(data: T) -> (r: Self)
        ensures
            (r == ApiResponse::Success { status: crate::STATUS_OK, data }),
    {
        ApiResponse::Success { status: crate::STATUS_OK, data }
    }
}

} // verus!
