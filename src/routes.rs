//! HTTP replies of the service and the handlers' decisions.
use vstd::prelude::*;

pub mod container;
pub mod health;

verus! {

/// HTTP status code of a successful request.
pub const OK: u16 = 200;

/// HTTP status code of an unmatched route.
pub const NOT_FOUND: u16 = 404;

/// HTTP status code of a failure inside the service.
pub const INTERNAL_SERVER_ERROR: u16 = 500;

/// HTTP status code given while the container daemon cannot be used.
pub const SERVICE_UNAVAILABLE: u16 = 503;

/// A reply whose body is already framed: a status code and the body text.
pub struct Reply {
    pub status: u16,
    pub body: String,
}

/// The reply to any request that no route matches.
pub fn handler_404() -> (r: Reply)
    ensures
        r.status == NOT_FOUND,
        r.body@ == "nothing to see here"@,
{
    Reply { status: NOT_FOUND, body: String::from_str("nothing to see here") }
}

} // verus!
