//! Building error responses.

use vstd::prelude::*;

use crate::response::ApiResponse;

verus! {

/// Wraps a message as an error response under the given status code.
pub fn build<T>(status: u16, message: &str) -> (r: ApiResponse<T>)
    ensures
        r matches ApiResponse::Failure { status: s, message: m } && s == status && m@ == message@,
{
    ApiResponse::Failure { status, message: message.to_owned() }
}

} // verus!
