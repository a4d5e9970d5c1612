//! Registering a tenant (multi-tenant deployments).
use crate::stores::tenant::TenantUpdateParams;
use vstd::prelude::*;

verus! {

/// The request body: the project id that becomes the tenant id.
#[derive(Debug, Clone)]
pub struct TenantRegisterBody {
    pub id: String,
}

/// The answer: the tenant's URL.
#[derive(Debug)]
pub struct TenantRegisterResponse {
    /// The generated tenant url for the specified project id.
    pub url: String,
}

/// The URL of tenant `id` under the service's public URL.
pub open spec fn tenant_url(public_url: Seq<char>, id: Seq<char>) -> Seq<char> {
    public_url + "/"@ + id
}

/// Builds `{public_url}/{id}`.
pub fn tenant_url_of(public_url: &str, id: &str) -> (r: String)
    ensures
        r@ == tenant_url(public_url@, id@),
{
    let mut r = crate::text::concat(public_url, "/");
    r.append(id);
    r
}

impl TenantRegisterBody {
    /// The store parameters for creating the tenant.
    pub fn into_params(self) -> (p: TenantUpdateParams)
        ensures
            p.id == self.id,
    {
        TenantUpdateParams { id: self.id }
    }
}

impl TenantRegisterResponse {
    /// The answer for a created tenant.
    pub fn for_tenant(public_url: &str, tenant_id: &str) -> (r: TenantRegisterResponse)
        ensures
            r.url@ == tenant_url(public_url@, tenant_id@),
    {
        TenantRegisterResponse { url: tenant_url_of(public_url, tenant_id) }
    }
}

} // verus!
