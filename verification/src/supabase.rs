//! Claims of the tokens that the GoTrue (Supabase) service issues.
use vstd::prelude::*;

verus! {

/// The subject, audience and role of a GoTrue token.
#[derive(Debug, Clone, PartialEq, Eq)]
pub struct GoTrueClaims {
    pub sub: String,
    pub aud: String,
    pub role: String,
}

} // verus!
