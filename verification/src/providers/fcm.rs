//! The legacy FCM provider, authenticated by a server API key.
use vstd::prelude::*;

verus! {

/// Sends notifications through FCM with one API key. The HTTP client that
/// does the sending belongs to the service, which makes a new one for each
/// provider value.
pub struct FcmProvider {
    api_key: String,
}

impl FcmProvider {
    pub fn new(api_key: String) -> (p: FcmProvider)
        ensures
            p.api_key() == api_key,
    {
        FcmProvider { api_key }
    }

    pub closed spec fn api_key(&self) -> String {
        self.api_key
    }

    /// The API key the provider sends with.
    pub fn key(&self) -> (k: &String)
        ensures
            *k == self.api_key(),
    {
        &self.api_key
    }

    /// A provider with the same key.
    pub fn duplicate(&self) -> (p: FcmProvider)
        ensures
            p.api_key() == self.api_key(),
    {
        FcmProvider { api_key: self.api_key.clone() }
    }

    /// Replaces this provider's key by `source`'s.
    pub fn clone_from(&mut self, source: &FcmProvider)
        ensures
            final(self).api_key() == source.api_key(),
    {
        self.api_key = source.api_key.clone();
    }

    /// Two providers are equal when their API keys are.
    pub fn same_key(&self, other: &FcmProvider) -> (r: bool)
        ensures
            r == (self.api_key()@ == other.api_key()@),
    {
        self.api_key == other.api_key
    }
}

} // verus!
