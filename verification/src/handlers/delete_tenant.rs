//! Deleting a tenant (multi-tenant deployments).
use vstd::prelude::*;

verus! {

/// The answer of a successful deletion.
#[derive(Debug)]
pub struct DeleteTenantResponse {
    pub success: bool,
}

} // verus!
