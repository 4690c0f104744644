//! The error answer of a request: an HTTP status code and a message.

use vstd::prelude::*;

verus! {

pub const BAD_REQUEST: u16 = 400;
pub const UNAUTHORIZED: u16 = 401;
pub const FORBIDDEN: u16 = 403;
pub const NOT_FOUND: u16 = 404;
pub const CONFLICT: u16 = 409;
pub const INTERNAL_SERVER_ERROR: u16 = 500;

/// A refused request: the status it is answered with and the message text.
#[derive(Debug)]
pub struct ApiError {
    pub status: u16,
    pub message: String,
}

/// `e` is the error with this status and message.
pub open spec fn is_error(e: ApiError, status: u16, message: Seq<char>) -> bool {
    e.status == status && e.message@ == message
}

/// An error with the given status and message.
pub fn api_error(status: u16, message: &str) -> (e: ApiError)
    ensures
        is_error(e, status, message@),
{
    ApiError { status, message: message.to_owned() }
}

} // verus!
