//! The service's configuration and its checks.
use crate::error::Error;
use crate::providers::ProviderKind;
use crate::stores::tenant::ApnsType;
use crate::text::str_eq;
use vstd::prelude::*;

verus! {

/// Settings read from the environment.
#[derive(Debug, Clone, PartialEq, Eq)]
pub struct Config {
    pub port: u16,
    pub public_url: String,
    pub log_level: String,
    pub log_level_otel: String,
    pub disable_header: bool,
    pub relay_public_key: String,
    pub validate_signatures: bool,
    pub database_url: String,
    /// Internal flag that disables logging; never read from the environment.
    pub is_test: bool,
    // CORS
    pub cors_allowed_origins: Vec<String>,
    // Telemetry
    pub otel_exporter_otlp_endpoint: Option<String>,
    pub telemetry_prometheus_port: Option<u16>,
    // APNS
    pub apns_type: Option<ApnsType>,
    pub apns_topic: Option<String>,
    pub apns_certificate: Option<String>,
    pub apns_certificate_password: Option<String>,
    pub apns_pkcs8_pem: Option<String>,
    pub apns_key_id: Option<String>,
    pub apns_team_id: Option<String>,
    // FCM
    pub fcm_api_key: Option<String>,
    /// FCM v1 service account credentials, carried into the default tenant.
    pub fcm_v1_credentials: Option<String>,
    // Multi-tenancy
    /// The tenants' database; set exactly in a multi-tenant deployment.
    pub tenant_database_url: Option<String>,
}

pub open spec fn apns_certificate_incomplete_message() -> Seq<char> {
    "APNS_TYPE of Certificate requires specific variables, please check the documentation."@
}

pub open spec fn relay_key_empty_message() -> Seq<char> {
    "`RELAY_PUBLIC_KEY` cannot be empty"@
}

pub open spec fn shared_database_message() -> Seq<char> {
    "`TENANT_DATABASE_URL` is equal to `DATABASE_URL`, this is not allowed"@
}

impl Config {
    /// The APNS settings are incomplete for the configured APNS type.
    pub open spec fn apns_incomplete(&self) -> bool {
        match self.apns_type {
            Some(ApnsType::Certificate) => !(self.apns_topic is Some && self.apns_certificate is Some
                && self.apns_certificate_password is Some),
            Some(ApnsType::Token) => !(self.apns_topic is Some && self.apns_pkcs8_pem is Some
                && self.apns_key_id is Some && self.apns_team_id is Some),
            None => false,
        }
    }

    /// `res` is what `get_apns_type` answers for this configuration.
    pub open spec fn apns_checked_as(&self, res: Result<ApnsType, Error>) -> bool {
        &&& self.apns_incomplete() ==> (res matches Err(Error::InvalidConfiguration(m))
            && m@ == apns_certificate_incomplete_message())
        &&& !self.apns_incomplete() ==> (res matches Err(Error::NoApnsConfigured))
    }

    /// `res` is what `is_valid` answers for this configuration.
    pub open spec fn validated_as(&self, res: Result<(), Error>) -> bool {
        &&& self.shares_database() ==> (res matches Err(Error::InvalidConfiguration(m))
            && m@ == shared_database_message())
        &&& !self.shares_database() && self.apns_incomplete() ==> (res matches Err(
            Error::InvalidConfiguration(m)) && m@ == apns_certificate_incomplete_message())
        &&& !self.shares_database() && !self.apns_incomplete() && self.relay_public_key@.len() == 0 ==> (
            res matches Err(Error::InvalidConfiguration(m)) && m@ == relay_key_empty_message())
        &&& !self.shares_database() && !self.apns_incomplete() && self.relay_public_key@.len() != 0
            ==> res is Ok
    }

    /// Checks the APNS settings. Incomplete settings for the configured type
    /// are `InvalidConfiguration`; in every other case the answer is
    /// `NoApnsConfigured` (complete settings are checked, not reported back).
    pub fn get_apns_type(&self) -> (res: Result<ApnsType, Error>)
        ensures
            self.apns_checked_as(res),
    {
        if let Some(apns_type) = &self.apns_type {
            let complete = match apns_type {
                ApnsType::Certificate => self.apns_topic.is_some() && self.apns_certificate.is_some()
                    && self.apns_certificate_password.is_some(),
                ApnsType::Token => self.apns_topic.is_some() && self.apns_pkcs8_pem.is_some()
                    && self.apns_key_id.is_some() && self.apns_team_id.is_some(),
            };
            if !complete {
                return Err(Error::InvalidConfiguration(String::from_str(
                    "APNS_TYPE of Certificate requires specific variables, please check the documentation.",
                )));
            }
        }
        Err(Error::NoApnsConfigured)
    }

    /// The tenants' database is the service's own database (a multi-tenant
    /// deployment configured to share one database).
    pub open spec fn shares_database(&self) -> bool {
        self.tenant_database_url matches Some(u) && u@ == self.database_url@
    }

    /// The configuration is usable: in a multi-tenant deployment the tenants'
    /// database is a database of its own, APNS settings are not incomplete,
    /// and the relay's public key is set. The first of these that fails is
    /// the error.
    pub fn is_valid(&self) -> (res: Result<(), Error>)
        ensures
            self.validated_as(res),
    {
        if let Some(tenant_database_url) = &self.tenant_database_url {
            if str_eq(tenant_database_url.as_str(), self.database_url.as_str()) {
                return Err(Error::InvalidConfiguration(String::from_str(
                    "`TENANT_DATABASE_URL` is equal to `DATABASE_URL`, this is not allowed",
                )));
            }
        }
        match self.get_apns_type() {
            Ok(_) => {},
            Err(Error::NoApnsConfigured) => {},
            Err(e) => return Err(e),
        }
        if self.relay_public_key.as_str().is_empty() {
            return Err(Error::InvalidConfiguration(String::from_str("`RELAY_PUBLIC_KEY` cannot be empty")));
        }
        Ok(())
    }

    /// The providers a single-tenant deployment offers, in order: both APNS
    /// endpoints when `get_apns_type` succeeds (as written it never does), FCM
    /// when an API key is set, and the no-op provider.
    pub open spec fn supported_provider_kinds(&self) -> Seq<ProviderKind> {
        (if self.fcm_api_key is Some {
            seq![ProviderKind::Fcm]
        } else {
            Seq::empty()
        }) + seq![ProviderKind::Noop]
    }

    pub fn single_tenant_supported_providers(&self) -> (r: Vec<ProviderKind>)
        ensures
            r@ == self.supported_provider_kinds(),
    {
        let mut supported: Vec<ProviderKind> = Vec::new();
        if self.get_apns_type().is_ok() {
            supported.push(ProviderKind::Apns);
            supported.push(ProviderKind::ApnsSandbox);
        }
        if self.fcm_api_key.is_some() {
            supported.push(ProviderKind::Fcm);
        }
        supported.push(ProviderKind::Noop);
        assert(supported@ =~= self.supported_provider_kinds());
        supported
    }
}

pub fn default_port() -> (r: u16)
    ensures
        r == 3000,
{
    3000
}

pub fn default_log_level() -> (r: String)
    ensures
        r@ == "info,echo-server=info"@,
{
    String::from_str("info,echo-server=info")
}

pub fn default_log_level_otel() -> (r: String)
    ensures
        r@ == "info,echo-server=trace"@,
{
    String::from_str("info,echo-server=trace")
}

pub fn default_disable_header() -> (r: bool)
    ensures
        !r,
{
    false
}

pub fn default_validate_signatures() -> (r: bool)
    ensures
        r,
{
    true
}

pub fn default_is_test() -> (r: bool)
    ensures
        !r,
{
    false
}

pub fn default_cors_allowed_origins() -> (r: Vec<String>)
    ensures
        r@.len() == 1,
        r@[0]@ == "*"@,
{
    vec![String::from_str("*")]
}

/// The APNS settings of each type need their own fields and no others: token
/// settings are complete with a topic, a PKCS #8 key, a key id and a team id,
/// certificate settings with a topic, a certificate and its password, and no
/// APNS type needs nothing. Complete (or absent) settings are reported as
/// `NoApnsConfigured`, incomplete ones as the documented configuration error;
/// no configuration is reported as having APNS.
pub proof fn lemma_apns_settings_checked_by_type(c: Config, res: Result<ApnsType, Error>)
    requires
        c.apns_checked_as(res),
    ensures
        res is Err,
        c.apns_type is None ==> (res matches Err(Error::NoApnsConfigured)),
        c.apns_type == Some(ApnsType::Token) ==> ((res matches Err(Error::NoApnsConfigured)) <==> (c.apns_topic is Some
            && c.apns_pkcs8_pem is Some && c.apns_key_id is Some && c.apns_team_id is Some)),
        c.apns_type == Some(ApnsType::Certificate) ==> ((res matches Err(Error::NoApnsConfigured)) <==> (
            c.apns_topic is Some && c.apns_certificate is Some && c.apns_certificate_password is Some)),
        !(res matches Err(Error::NoApnsConfigured)) ==> (res matches Err(Error::InvalidConfiguration(m)) && m@
            == "APNS_TYPE of Certificate requires specific variables, please check the documentation."@),
{
}

/// A configuration is usable exactly when it does not point the tenants'
/// database at the service's own database, its APNS settings are complete for
/// their type (a topic, key, key id and team id for tokens; a topic,
/// certificate and password for certificates), and the relay's public key is
/// set.
pub proof fn lemma_valid_configuration(c: Config, res: Result<(), Error>)
    requires
        c.validated_as(res),
    ensures
        res is Ok <==> {
            &&& !(c.tenant_database_url matches Some(u) && u@ == c.database_url@)
            &&& c.apns_type == Some(ApnsType::Token) ==> c.apns_topic is Some && c.apns_pkcs8_pem is Some
                && c.apns_key_id is Some && c.apns_team_id is Some
            &&& c.apns_type == Some(ApnsType::Certificate) ==> c.apns_topic is Some && c.apns_certificate is Some
                && c.apns_certificate_password is Some
            &&& c.relay_public_key@.len() > 0
        },
        res is Err ==> (res matches Err(Error::InvalidConfiguration(_))),
{
}

} // verus!
