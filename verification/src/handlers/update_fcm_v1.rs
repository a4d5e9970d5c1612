//! Updating a tenant's FCM v1 service account credentials from a multipart form.
use crate::error::Error;
use crate::stores::tenant::TenantFcmV1UpdateParams;
use crate::text::{str_eq, str_to_lowercase, unicode_lowercase};
use vstd::prelude::*;

verus! {

/// The fields read from an FCM v1 update form.
pub struct FcmV1UpdateBody {
    credentials: String,
    /// Used to ensure that at least one value has changed.
    value_changed_: bool,
}

impl FcmV1UpdateBody {
    pub closed spec fn credentials(&self) -> String {
        self.credentials
    }

    pub closed spec fn changed(&self) -> bool {
        self.value_changed_
    }

    /// A form with no fields read yet.
    pub fn new() -> (b: FcmV1UpdateBody)
        ensures
            !b.changed(),
            b.credentials()@ == Seq::<char>::empty(),
    {
        FcmV1UpdateBody { credentials: String::new(), value_changed_: false }
    }

    /// Reads one form part: a part named `credentials` (in any case) sets the credentials.
    pub fn read_field(&mut self, name: &str, data: String)
        ensures
            unicode_lowercase(name@) == "credentials"@ ==> final(self).credentials() == data && final(self).changed(),
            unicode_lowercase(name@) != "credentials"@ ==> *final(self) == *old(self),
    {
        let lower = str_to_lowercase(name);
        if str_eq(lower.as_str(), "credentials") {
            self.credentials = data;
            self.value_changed_ = true;
        }
    }

    /// The update asked for; a form without a `credentials` part is
    /// `InvalidMultipartBody`.
    pub fn into_params(self) -> (res: Result<TenantFcmV1UpdateParams, Error>)
        ensures
            self.changed() ==> (res matches Ok(p) && p.fcm_v1_credentials == self.credentials()),
            !self.changed() ==> (res matches Err(Error::InvalidMultipartBody)),
    {
        if !self.value_changed_ {
            return Err(Error::InvalidMultipartBody);
        }
        Ok(TenantFcmV1UpdateParams { fcm_v1_credentials: self.credentials })
    }
}

/// The outcome of checking new credentials: credentials that are not a
/// service account key are `FcmV1InvalidServiceAccountKey` with the parse
/// error's text; a key the FCM client rejects is `BadFcmV1Credentials`.
pub fn fcm_v1_credentials_check(parse_error: Option<String>, accepted: bool) -> (res: Result<(), Error>)
    ensures
        match parse_error {
            Some(m) => res matches Err(Error::FcmV1InvalidServiceAccountKey(e)) && e == m,
            None => if accepted { res is Ok } else { res matches Err(Error::BadFcmV1Credentials) },
        },
{
    match parse_error {
        Some(m) => Err(Error::FcmV1InvalidServiceAccountKey(m)),
        None => if accepted {
            Ok(())
        } else {
            Err(Error::BadFcmV1Credentials)
        },
    }
}

/// The answer of a successful FCM v1 update.
#[derive(Debug)]
pub struct UpdateTenantFcmV1Response {
    pub success: bool,
}

} // verus!
