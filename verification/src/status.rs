//! The HTTP status codes that the service answers with.

use vstd::prelude::*;

verus! {

/// A resource was created.
pub const CREATED: u16 = 201;

/// The request was carried out and the answer has no body.
pub const NO_CONTENT: u16 = 204;

/// Credentials are missing or wrong.
pub const UNAUTHORIZED: u16 = 401;

/// No resource is served at the address.
pub const NOT_FOUND: u16 = 404;

/// The request is at odds with what the service holds.
pub const CONFLICT: u16 = 409;

/// The service itself failed or is not configured.
pub const INTERNAL_SERVER_ERROR: u16 = 500;

} // verus!
