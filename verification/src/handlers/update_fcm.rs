//! Updating a tenant's legacy FCM API key from a multipart form.
use crate::error::Error;
use crate::stores::tenant::TenantFcmUpdateParams;
use crate::text::{str_eq, str_to_lowercase, unicode_lowercase};
use vstd::prelude::*;

verus! {

/// The fields read from an FCM update form.
pub struct FcmUpdateBody {
    api_key: String,
    /// Used to ensure that at least one value has changed.
    value_changed_: bool,
}

impl FcmUpdateBody {
    pub closed spec fn key(&self) -> String {
        self.api_key
    }

    pub closed spec fn changed(&self) -> bool {
        self.value_changed_
    }

    /// A form with no fields read yet.
    pub fn new() -> (b: FcmUpdateBody)
        ensures
            !b.changed(),
            b.key()@ == Seq::<char>::empty(),
    {
        FcmUpdateBody { api_key: String::new(), value_changed_: false }
    }

    /// Reads one form part: a part named `api_key` (in any case) sets the key.
    pub fn read_field(&mut self, name: &str, data: String)
        ensures
            unicode_lowercase(name@) == "api_key"@ ==> final(self).key() == data && final(self).changed(),
            unicode_lowercase(name@) != "api_key"@ ==> *final(self) == *old(self),
    {
        let lower = str_to_lowercase(name);
        if str_eq(lower.as_str(), "api_key") {
            self.api_key = data;
            self.value_changed_ = true;
        }
    }

    /// The update asked for; a form without an `api_key` part is
    /// `InvalidMultipartBody`.
    pub fn into_params(self) -> (res: Result<TenantFcmUpdateParams, Error>)
        ensures
            self.changed() ==> (res matches Ok(p) && p.fcm_api_key == self.key()),
            !self.changed() ==> (res matches Err(Error::InvalidMultipartBody)),
    {
        if !self.value_changed_ {
            return Err(Error::InvalidMultipartBody);
        }
        Ok(TenantFcmUpdateParams { fcm_api_key: self.api_key })
    }
}

/// The outcome of the dry-run send made with a new key: only an
/// `Unauthorized` answer rejects the key, as `BadFcmApiKey`.
pub fn fcm_key_check(unauthorized: bool) -> (res: Result<(), Error>)
    ensures
        unauthorized ==> (res matches Err(Error::BadFcmApiKey)),
        !unauthorized ==> res is Ok,
{
    if unauthorized {
        Err(Error::BadFcmApiKey)
    } else {
        Ok(())
    }
}

/// The answer of a successful FCM update.
#[derive(Debug)]
pub struct UpdateTenantFcmResponse {
    pub success: bool,
}

} // verus!
