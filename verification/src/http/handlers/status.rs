//! The status codes that the handlers answer with.

use vstd::prelude::*;

verus! {

/// The request was served.
pub const OK: u16 = 200;

/// The answer stands elsewhere.
pub const FOUND: u16 = 302;

/// The answer stands elsewhere for now; the request is to be repeated
/// there as it was sent.
pub const TEMPORARY_REDIRECT: u16 = 307;

/// The request cannot be served as it was sent.
pub const BAD_REQUEST: u16 = 400;

/// The request is refused.
pub const FORBIDDEN: u16 = 403;

/// What was asked for does not exist.
pub const NOT_FOUND: u16 = 404;

/// The request does not fit the state of the server.
pub const CONFLICT: u16 = 409;

/// The server failed.
pub const INTERNAL_SERVER_ERROR: u16 = 500;

} // verus!
