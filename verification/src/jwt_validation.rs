//! Claims of the HS256 tokens that authenticate tenant requests.
use vstd::prelude::*;

verus! {

/// The claims the service reads from a token: its subject.
#[derive(Debug, Clone, PartialEq, Eq)]
pub struct Claims {
    pub sub: String,
}

} // verus!
