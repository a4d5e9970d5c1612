//! Request ids: each request gets a random UUID in the `x-request-id` header,
//! and is logged under that header's text.
use vstd::prelude::*;

verus! {

pub const X_REQUEST_ID: &'static str = "x-request-id";

/// Text logged for a request without an id header.
pub const UNKNOWN_MISSING: &'static str = "unknown-m";

/// Text logged for a request whose id header is not visible ASCII.
pub const UNKNOWN_FAILED: &'static str = "unknown-f";

/// Makes the request ids (random version 4 UUIDs).
#[derive(Clone, Copy, Debug, Default)]
pub struct GenericRequestId;

/// The id a request is logged under, from its `x-request-id` header: `None`
/// when the header is missing, `Some(None)` when its value is not visible
/// ASCII.
pub fn get_req_id(header: Option<Option<&str>>) -> (r: String)
    ensures
        r@ == (match header {
            None => UNKNOWN_MISSING@,
            Some(None) => UNKNOWN_FAILED@,
            Some(Some(v)) => v@,
        }),
{
    match header {
        None => String::from_str(UNKNOWN_MISSING),
        Some(None) => String::from_str(UNKNOWN_FAILED),
        Some(Some(v)) => String::from_str(v),
    }
}

} // verus!
