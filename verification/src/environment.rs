//! Settings of a deployment that takes its providers either from one tenant
//! database or directly from the environment.
use crate::error::Error;
use crate::providers::ProviderKind;
use vstd::prelude::*;

verus! {

/// Settings read from the environment.
#[derive(Debug, Clone, PartialEq, Eq)]
pub struct Config {
    pub port: u16,
    pub log_level: String,
    pub log_level_otel: String,
    pub disable_header: bool,
    pub relay_url: String,
    pub validate_signatures: bool,
    pub database_url: String,
    pub tenant_database_url: Option<String>,
    pub default_tenant_id: String,
    /// Internal flag that disables logging; never read from the environment.
    pub is_test: bool,
    // Telemetry
    pub otel_exporter_otlp_endpoint: Option<String>,
    pub telemetry_prometheus_port: Option<u16>,
    // APNS
    pub apns_certificate: Option<String>,
    pub apns_certificate_password: Option<String>,
    pub apns_topic: Option<String>,
    // FCM
    pub fcm_api_key: Option<String>,
}

pub open spec fn no_source_message() -> Seq<char> {
    "no tenant database url provided and no provider keys found"@
}

pub open spec fn both_sources_message() -> Seq<char> {
    "tenant database and providers keys found in config"@
}

impl Config {
    /// The providers configured directly, in order: both APNS endpoints
    /// (sandbox first) when a certificate and its password are set, FCM when an
    /// API key is set, and the no-op provider when there is no tenant database.
    pub open spec fn provider_kinds(&self) -> Seq<ProviderKind> {
        (if self.apns_certificate is Some && self.apns_certificate_password is Some {
            seq![ProviderKind::ApnsSandbox, ProviderKind::Apns]
        } else {
            Seq::empty()
        }) + (if self.fcm_api_key is Some {
            seq![ProviderKind::Fcm]
        } else {
            Seq::empty()
        }) + (if self.tenant_database_url is None {
            seq![ProviderKind::Noop]
        } else {
            Seq::empty()
        })
    }

    /// Exactly one source of providers is configured: a tenant database, or
    /// providers set directly. Neither, or both, is `InvalidConfiguration`.
    pub fn is_valid(&self) -> (res: Result<(), Error>)
        ensures
            self.tenant_database_url is None && self.provider_kinds().len() == 0 ==> (res matches Err(
                Error::InvalidConfiguration(m)) && m@ == no_source_message()),
            self.tenant_database_url is Some && self.provider_kinds().len() != 0 ==> (res matches Err(
                Error::InvalidConfiguration(m)) && m@ == both_sources_message()),
            (self.tenant_database_url is None) == (self.provider_kinds().len() != 0) ==> res is Ok,
    {
        if self.tenant_database_url.is_none() && self.single_tenant_supported_providers().len() == 0 {
            return Err(Error::InvalidConfiguration(String::from_str(
                "no tenant database url provided and no provider keys found",
            )));
        }
        if self.single_tenant_supported_providers().len() != 0 && self.tenant_database_url.is_some() {
            return Err(Error::InvalidConfiguration(String::from_str(
                "tenant database and providers keys found in config",
            )));
        }
        Ok(())
    }

    pub fn single_tenant_supported_providers(&self) -> (r: Vec<ProviderKind>)
        ensures
            r@ == self.provider_kinds(),
    {
        let mut supported: Vec<ProviderKind> = Vec::new();
        if self.apns_certificate.is_some() && self.apns_certificate_password.is_some() {
            supported.push(ProviderKind::ApnsSandbox);
            supported.push(ProviderKind::Apns);
        }
        if self.fcm_api_key.is_some() {
            supported.push(ProviderKind::Fcm);
        }
        if self.tenant_database_url.is_none() {
            supported.push(ProviderKind::Noop);
        }
        assert(supported@ =~= self.provider_kinds());
        supported
    }
}

/// Without a tenant database the no-op provider is always offered, so such a
/// configuration is never refused for having no provider at all.
pub proof fn lemma_no_database_has_a_provider(c: Config)
    requires
        c.tenant_database_url is None,
    ensures
        c.provider_kinds().len() != 0,
        c.provider_kinds().contains(ProviderKind::Noop),
{
    let k = c.provider_kinds();
    assert(k[k.len() - 1] == ProviderKind::Noop);
}

pub fn default_relay_url() -> (r: String)
    ensures
        r@ == "https://relay.walletconnect.com"@,
{
    String::from_str("https://relay.walletconnect.com")
}

pub fn default_tenant_id() -> (r: String)
    ensures
        r@ == "0000-0000-0000-0000"@,
{
    String::from_str("0000-0000-0000-0000")
}

} // verus!
