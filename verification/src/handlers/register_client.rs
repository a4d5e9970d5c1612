//! Registering a wallet client's device token with a tenant.
use crate::error::Error;
use crate::handlers::{bare_client_id, strip_did_prefix};
use crate::providers::ProviderKind;
use crate::stores::client::Client;
use crate::stores::tenant::Tenant;
use vstd::prelude::*;

verus! {

/// The registration request: the client's id, its push type and device token.
#[derive(Debug, Clone)]
pub struct RegisterBody {
    pub client_id: String,
    /// The provider name (the `type` field of the request).
    pub push_type: String,
    pub token: String,
}

/// Refuses an unauthenticated request: a failed check stands, and a check
/// that did not match the client is `InvalidAuthentication`.
pub fn require_authenticated(check: Result<bool, Error>) -> (res: Result<(), Error>)
    ensures
        check == Ok::<bool, Error>(true) ==> res is Ok,
        check == Ok::<bool, Error>(false) ==> (res matches Err(Error::InvalidAuthentication)),
        check is Err ==> res == Err::<(), Error>(check->Err_0),
{
    match check {
        Ok(true) => Ok(()),
        Ok(false) => Err(Error::InvalidAuthentication),
        Err(e) => Err(e),
    }
}

/// Checks a registration against the tenant it is for: the push type must be
/// one the tenant enables (else `ProviderNotAvailable` with its name), and the
/// token must not be empty (else `EmptyField("token")`).
pub fn check_registration(push_type: ProviderKind, tenant: &Tenant, token: &str) -> (res: Result<(), Error>)
    ensures
        !tenant.provider_kinds().contains(push_type) ==> (res matches Err(Error::ProviderNotAvailable(p))
            && p@ == push_type.name()),
        tenant.provider_kinds().contains(push_type) && token@.len() == 0 ==> (res matches Err(
            Error::EmptyField(f)) && f@ == "token"@),
        tenant.provider_kinds().contains(push_type) && token@.len() != 0 ==> res is Ok,
{
    let supported = tenant.providers();
    let mut i: usize = 0;
    let mut found = false;
    while i < supported.len()
        invariant
            supported@ == tenant.provider_kinds(),
            i <= supported.len(),
            found == (exists|j: int| 0 <= j < i && supported@[j] == push_type),
        decreases supported.len() - i,
    {
        if supported[i] == push_type {
            found = true;
        }
        i = i + 1;
    }
    if !found {
        return Err(Error::ProviderNotAvailable(String::from_str(push_type.as_str())));
    }
    if token.is_empty() {
        return Err(Error::EmptyField(String::from_str("token")));
    }
    Ok(())
}

impl RegisterBody {
    /// The id under which the client is stored: its id without `did:key:`.
    pub fn stored_client_id(&self) -> (id: String)
        ensures
            id@ == bare_client_id(self.client_id@),
    {
        strip_did_prefix(self.client_id.as_str())
    }

    /// The client record to store for tenant `tenant_id`.
    pub fn into_client(self, tenant_id: String, push_type: ProviderKind) -> (c: Client)
        ensures
            c.tenant_id == tenant_id,
            c.push_type == push_type,
            c.token == self.token,
            !c.always_raw,
    {
        Client { tenant_id, push_type, token: self.token, always_raw: false }
    }
}

} // verus!
