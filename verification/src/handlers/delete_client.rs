//! Deleting a wallet client.
use crate::handlers::{bare_client_id, strip_did_prefix};
use vstd::prelude::*;

verus! {

/// The id of the client a delete request names (without `did:key:`); it is
/// both the client that is deleted and the one the request's token must be for.
pub fn client_to_delete(id: &str) -> (r: String)
    ensures
        r@ == bare_client_id(id@),
{
    strip_did_prefix(id)
}

} // verus!
