//! Tenants: the push credentials of one project, and which providers they enable.
use crate::codec::{base64_decode_str, base64_standard_decode};
use crate::config::Config;
use crate::error::Error;
use crate::providers::ProviderKind;
use crate::text::{
    all_ascii, ascii_lower, lemma_ascii_lower_idempotent, str_eq, str_to_lowercase, unicode_lowercase,
};
use vstd::prelude::*;
use vstd::utf8::encode_utf8;

verus! {

pub const APNS_TYPE_CERTIFICATE: &'static str = "certificate";
pub const APNS_TYPE_TOKEN: &'static str = "token";

/// Id of the one tenant of a single-tenant deployment.
pub const DEFAULT_TENANT_ID: &'static str = "0000-0000-0000-0000";

/// How a tenant authenticates with APNS.
#[derive(Debug, Copy, Clone, PartialEq, Eq, Structural)]
pub enum ApnsType {
    Certificate,
    Token,
}

impl ApnsType {
    pub open spec fn name(self) -> Seq<char> {
        match self {
            ApnsType::Certificate => APNS_TYPE_CERTIFICATE@,
            ApnsType::Token => APNS_TYPE_TOKEN@,
        }
    }

    /// The type whose name is `s` (already folded to lower case).
    pub open spec fn from_name(s: Seq<char>) -> Option<ApnsType> {
        if s == APNS_TYPE_CERTIFICATE@ {
            Some(ApnsType::Certificate)
        } else if s == APNS_TYPE_TOKEN@ {
            Some(ApnsType::Token)
        } else {
            None
        }
    }

    pub fn as_str(&self) -> (s: &'static str)
        ensures
            s@ == self.name(),
    {
        match self {
            ApnsType::Certificate => APNS_TYPE_CERTIFICATE,
            ApnsType::Token => APNS_TYPE_TOKEN,
        }
    }

    /// Reads an APNS type name, ignoring case; an unknown name is
    /// `InvalidApnsType` with the name as given.
    pub fn try_from(value: &str) -> (res: Result<ApnsType, Error>)
        ensures
            match ApnsType::from_name(unicode_lowercase(value@)) {
                Some(t) => res == Ok::<ApnsType, Error>(t),
                None => res matches Err(Error::InvalidApnsType(v)) && v@ == value@,
            },
            all_ascii(value@) ==> match ApnsType::from_name(ascii_lower(value@)) {
                Some(t) => res == Ok::<ApnsType, Error>(t),
                None => res is Err,
            },
    {
        let lower = str_to_lowercase(value);
        if str_eq(lower.as_str(), APNS_TYPE_CERTIFICATE) {
            Ok(ApnsType::Certificate)
        } else if str_eq(lower.as_str(), APNS_TYPE_TOKEN) {
            Ok(ApnsType::Token)
        } else {
            Err(Error::InvalidApnsType(String::from_str(value)))
        }
    }
}

/// An APNS type's name reads back as that type.
pub proof fn lemma_apns_type_name_round_trip(t: ApnsType)
    ensures
        all_ascii(t.name()),
        ascii_lower(t.name()) == t.name(),
        ApnsType::from_name(t.name()) == Some(t),
{
    reveal_strlit("certificate");
    reveal_strlit("token");
    assert(ascii_lower(t.name()) =~= t.name());
    assert(APNS_TYPE_CERTIFICATE@.len() == 11 && APNS_TYPE_TOKEN@.len() == 5);
}


/// Reading an APNS type ignores ASCII case: for ASCII text, its lower-case form
/// is ASCII and reads as the text itself does, and any spelling of a type's
/// name in any case reads as that type.
pub proof fn lemma_apns_type_ignores_case(s: Seq<char>, t: ApnsType)
    requires
        all_ascii(s),
    ensures
        all_ascii(ascii_lower(s)),
        ApnsType::from_name(ascii_lower(ascii_lower(s))) == ApnsType::from_name(ascii_lower(s)),
        ascii_lower(s) == t.name() ==> ApnsType::from_name(ascii_lower(s)) == Some(t),
{
    lemma_ascii_lower_idempotent(s);
    lemma_apns_type_name_round_trip(t);
}

/// A tenant: its id, provider credentials and suspension state. Times are
/// Unix timestamps in microseconds.
#[derive(Debug, Clone, PartialEq, Eq)]
pub struct Tenant {
    pub id: String,
    pub fcm_api_key: Option<String>,
    pub fcm_v1_credentials: Option<String>,
    pub apns_type: Option<ApnsType>,
    pub apns_topic: Option<String>,
    // Certificate based
    pub apns_certificate: Option<String>,
    pub apns_certificate_password: Option<String>,
    // Token based
    pub apns_pkcs8_pem: Option<String>,
    pub apns_key_id: Option<String>,
    pub apns_team_id: Option<String>,
    // Suspension
    pub suspended: bool,
    pub suspended_reason: Option<String>,
    pub created_at: i64,
    pub updated_at: i64,
}

#[derive(Debug, Eq, PartialEq, Clone)]
pub struct TenantUpdateParams {
    pub id: String,
}

#[derive(Debug, Eq, PartialEq, Clone)]
pub struct TenantFcmUpdateParams {
    pub fcm_api_key: String,
}

#[derive(Debug, Eq, PartialEq, Clone)]
pub struct TenantFcmV1UpdateParams {
    pub fcm_v1_credentials: String,
}

/// New APNS credentials for a tenant.
#[derive(Clone, Debug)]
pub enum TenantApnsUpdateAuth {
    Certificate { apns_certificate: String, apns_certificate_password: String },
    Token { apns_pkcs8_pem: String, apns_key_id: String, apns_team_id: String },
}

impl TenantApnsUpdateAuth {
    /// An equal copy of these credentials.
    pub fn copy(&self) -> (r: TenantApnsUpdateAuth)
        ensures
            r == *self,
    {
        match self {
            TenantApnsUpdateAuth::Certificate { apns_certificate, apns_certificate_password } => {
                TenantApnsUpdateAuth::Certificate {
                    apns_certificate: apns_certificate.clone(),
                    apns_certificate_password: apns_certificate_password.clone(),
                }
            },
            TenantApnsUpdateAuth::Token { apns_pkcs8_pem, apns_key_id, apns_team_id } => {
                TenantApnsUpdateAuth::Token {
                    apns_pkcs8_pem: apns_pkcs8_pem.clone(),
                    apns_key_id: apns_key_id.clone(),
                    apns_team_id: apns_team_id.clone(),
                }
            },
        }
    }
}

#[derive(Debug, Eq, PartialEq, Clone)]
pub struct TenantApnsUpdateParams {
    pub apns_topic: String,
}

/// What is needed to build a tenant's provider of one kind. The certificate and
/// key are already decoded from the base64 text the tenant stores.
pub enum ProviderSetup {
    ApnsCertificate { certificate: Vec<u8>, password: String, sandbox: bool, topic: String },
    ApnsToken { pkcs8_pem: Vec<u8>, key_id: String, team_id: String, sandbox: bool, topic: String },
    FcmV1 { credentials: String },
    Fcm { api_key: String },
    Noop,
}

fn clone_opt(o: &Option<String>) -> (r: Option<String>)
    ensures
        r == *o,
{
    match o {
        Some(s) => Some(s.clone()),
        None => None,
    }
}

impl Tenant {
    /// The APNS type, when the fields it needs are all present.
    pub open spec fn apns_kind(&self) -> Option<ApnsType> {
        match self.apns_type {
            Some(ApnsType::Certificate) => if self.apns_topic is Some && self.apns_certificate is Some
                && self.apns_certificate_password is Some {
                Some(ApnsType::Certificate)
            } else {
                None
            },
            Some(ApnsType::Token) => if self.apns_topic is Some && self.apns_pkcs8_pem is Some
                && self.apns_key_id is Some && self.apns_team_id is Some {
                Some(ApnsType::Token)
            } else {
                None
            },
            None => None,
        }
    }

    /// The providers this tenant can send through, in order: both APNS
    /// endpoints when APNS is complete, FCM when a key or v1 credentials are
    /// set, and the no-op provider.
    pub open spec fn provider_kinds(&self) -> Seq<ProviderKind> {
        (if self.apns_kind() is Some {
            seq![ProviderKind::Apns, ProviderKind::ApnsSandbox]
        } else {
            Seq::empty()
        }) + (if self.fcm_api_key is Some || self.fcm_v1_credentials is Some {
            seq![ProviderKind::Fcm]
        } else {
            Seq::empty()
        }) + seq![ProviderKind::Noop]
    }

    pub fn get_apns_type(&self) -> (r: Option<ApnsType>)
        ensures
            r == self.apns_kind(),
    {
        match &self.apns_type {
            Some(ApnsType::Certificate) => {
                if self.apns_topic.is_some() && self.apns_certificate.is_some()
                    && self.apns_certificate_password.is_some() {
                    Some(ApnsType::Certificate)
                } else {
                    None
                }
            },
            Some(ApnsType::Token) => {
                if self.apns_topic.is_some() && self.apns_pkcs8_pem.is_some() && self.apns_key_id.is_some()
                    && self.apns_team_id.is_some() {
                    Some(ApnsType::Token)
                } else {
                    None
                }
            },
            None => None,
        }
    }

    pub fn providers(&self) -> (r: Vec<ProviderKind>)
        ensures
            r@ == self.provider_kinds(),
    {
        let mut supported: Vec<ProviderKind> = Vec::new();
        if self.get_apns_type().is_some() {
            supported.push(ProviderKind::Apns);
            supported.push(ProviderKind::ApnsSandbox);
        }
        if self.fcm_api_key.is_some() || self.fcm_v1_credentials.is_some() {
            supported.push(ProviderKind::Fcm);
        }
        supported.push(ProviderKind::Noop);
        assert(supported@ =~= self.provider_kinds());
        supported
    }

    /// What `provider` gives for `kind`: the setup of that provider from the
    /// tenant's credentials, or why there is none.
    pub open spec fn provider_result(&self, kind: ProviderKind, res: Result<ProviderSetup, Error>) -> bool {
        &&& !self.provider_kinds().contains(kind) ==> (res matches Err(Error::ProviderNotAvailable(p))
                && p@ == kind.name())
        &&& self.provider_kinds().contains(kind) ==> match kind {
                ProviderKind::Apns | ProviderKind::ApnsSandbox => match self.apns_kind() {
                    Some(ApnsType::Certificate) => match base64_standard_decode(
                        encode_utf8(self.apns_certificate->0@)) {
                        Some(cert) => res matches Ok(ProviderSetup::ApnsCertificate {
                            certificate, password, sandbox, topic }) && certificate@ == cert
                            && password == self.apns_certificate_password->0
                            && sandbox == (kind == ProviderKind::ApnsSandbox)
                            && topic == self.apns_topic->0,
                        None => res matches Err(Error::Base64Decode(_)),
                    },
                    Some(ApnsType::Token) => match base64_standard_decode(
                        encode_utf8(self.apns_pkcs8_pem->0@)) {
                        Some(pem) => res matches Ok(ProviderSetup::ApnsToken {
                            pkcs8_pem, key_id, team_id, sandbox, topic }) && pkcs8_pem@ == pem
                            && key_id == self.apns_key_id->0 && team_id == self.apns_team_id->0
                            && sandbox == (kind == ProviderKind::ApnsSandbox)
                            && topic == self.apns_topic->0,
                        None => res matches Err(Error::Base64Decode(_)),
                    },
                    None => false,
                },
                ProviderKind::Fcm => match self.fcm_v1_credentials {
                    Some(c) => res matches Ok(ProviderSetup::FcmV1 { credentials }) && credentials == c,
                    None => res matches Ok(ProviderSetup::Fcm { api_key })
                        && api_key == self.fcm_api_key->0,
                },
                ProviderKind::Noop => res matches Ok(ProviderSetup::Noop),
            }
    }

    /// What is needed to build this tenant's provider of `kind`. A kind the
    /// tenant does not enable is `ProviderNotAvailable` with its name; an APNS
    /// certificate or key that is not valid base64 is `Base64Decode`. The
    /// sandbox endpoint is chosen for `ApnsSandbox`, FCM v1 credentials are
    /// preferred over a legacy FCM key.
    pub fn provider(&self, kind: &ProviderKind) -> (res: Result<ProviderSetup, Error>)
        ensures
            self.provider_result(*kind, res),
    {
        let supported = self.providers();
        let mut i: usize = 0;
        let mut found = false;
        while i < supported.len()
            invariant
                supported@ == self.provider_kinds(),
                i <= supported.len(),
                found == (exists|j: int| 0 <= j < i && supported@[j] == *kind),
            decreases supported.len() - i,
        {
            if supported[i] == *kind {
                found = true;
            }
            i = i + 1;
        }
        if !found {
            return Err(Error::ProviderNotAvailable(String::from_str(kind.as_str())));
        }
        assert(self.provider_kinds().contains(*kind));
        match kind {
            ProviderKind::ApnsSandbox | ProviderKind::Apns => {
                let sandbox = match kind {
                    ProviderKind::ApnsSandbox => true,
                    _ => false,
                };
                match self.get_apns_type() {
                    Some(ApnsType::Certificate) => match (
                        &self.apns_certificate,
                        &self.apns_certificate_password,
                        &self.apns_topic,
                    ) {
                        (Some(certificate), Some(password), Some(topic)) => {
                            let decoded = match base64_decode_str(certificate.as_str()) {
                                Ok(v) => v,
                                Err(e) => return Err(Error::Base64Decode(e.to_string())),
                            };
                            Ok(ProviderSetup::ApnsCertificate {
                                certificate: decoded,
                                password: password.clone(),
                                sandbox,
                                topic: topic.clone(),
                            })
                        },
                        _ => Err(Error::ProviderNotAvailable(String::from_str(kind.as_str()))),
                    },
                    Some(ApnsType::Token) => match (
                        &self.apns_topic,
                        &self.apns_pkcs8_pem,
                        &self.apns_key_id,
                        &self.apns_team_id,
                    ) {
                        (Some(topic), Some(pkcs8_pem), Some(key_id), Some(team_id)) => {
                            let decoded = match base64_decode_str(pkcs8_pem.as_str()) {
                                Ok(v) => v,
                                Err(e) => return Err(Error::Base64Decode(e.to_string())),
                            };
                            Ok(ProviderSetup::ApnsToken {
                                pkcs8_pem: decoded,
                                key_id: key_id.clone(),
                                team_id: team_id.clone(),
                                sandbox,
                                topic: topic.clone(),
                            })
                        },
                        _ => Err(Error::ProviderNotAvailable(String::from_str(kind.as_str()))),
                    },
                    None => Err(Error::ProviderNotAvailable(String::from_str(kind.as_str()))),
                }
            },
            ProviderKind::Fcm => match &self.fcm_v1_credentials {
                Some(fcm_v1_credentials) => Ok(ProviderSetup::FcmV1 { credentials: fcm_v1_credentials.clone() }),
                None => match &self.fcm_api_key {
                    Some(api_key) => Ok(ProviderSetup::Fcm { api_key: api_key.clone() }),
                    None => Err(Error::ProviderNotAvailable(String::from_str(kind.as_str()))),
                },
            },
            ProviderKind::Noop => Ok(ProviderSetup::Noop),
        }
    }

    /// An equal copy of this tenant.
    pub fn copy(&self) -> (t: Tenant)
        ensures
            t == *self,
    {
        Tenant {
            id: self.id.clone(),
            fcm_api_key: clone_opt(&self.fcm_api_key),
            fcm_v1_credentials: clone_opt(&self.fcm_v1_credentials),
            apns_type: self.apns_type,
            apns_topic: clone_opt(&self.apns_topic),
            apns_certificate: clone_opt(&self.apns_certificate),
            apns_certificate_password: clone_opt(&self.apns_certificate_password),
            apns_pkcs8_pem: clone_opt(&self.apns_pkcs8_pem),
            apns_key_id: clone_opt(&self.apns_key_id),
            apns_team_id: clone_opt(&self.apns_team_id),
            suspended: self.suspended,
            suspended_reason: clone_opt(&self.suspended_reason),
            created_at: self.created_at,
            updated_at: self.updated_at,
        }
    }
}

/// The tenant store of a single-tenant deployment: its one tenant is made from
/// the configuration.
pub struct DefaultTenantStore(Tenant);

/// The tenant with id `id` that a single-tenant deployment derives from its
/// configuration.
pub open spec fn default_tenant(config: Config, id: String) -> Tenant {
    Tenant {
        id,
        fcm_api_key: config.fcm_api_key,
        fcm_v1_credentials: config.fcm_v1_credentials,
        apns_type: config.apns_type,
        apns_topic: config.apns_topic,
        apns_certificate: config.apns_certificate,
        apns_certificate_password: config.apns_certificate_password,
        apns_pkcs8_pem: config.apns_pkcs8_pem,
        apns_key_id: config.apns_key_id,
        apns_team_id: config.apns_team_id,
        suspended: false,
        suspended_reason: None,
        created_at: 0,
        updated_at: 0,
    }
}

impl DefaultTenantStore {
    pub fn new(config: &Config) -> (res: Result<DefaultTenantStore, Error>)
        ensures
            res matches Ok(store) && store.tenant().id@ == DEFAULT_TENANT_ID@
                && store.tenant() == default_tenant(*config, store.tenant().id),
    {
        Ok(DefaultTenantStore(Tenant {
            id: String::from_str(DEFAULT_TENANT_ID),
            fcm_api_key: clone_opt(&config.fcm_api_key),
            fcm_v1_credentials: clone_opt(&config.fcm_v1_credentials),
            apns_type: config.apns_type,
            apns_topic: clone_opt(&config.apns_topic),
            apns_certificate: clone_opt(&config.apns_certificate),
            apns_certificate_password: clone_opt(&config.apns_certificate_password),
            apns_pkcs8_pem: clone_opt(&config.apns_pkcs8_pem),
            apns_key_id: clone_opt(&config.apns_key_id),
            apns_team_id: clone_opt(&config.apns_team_id),
            suspended: false,
            suspended_reason: None,
            created_at: 0,
            updated_at: 0,
        }))
    }

    pub closed spec fn tenant(&self) -> Tenant {
        self.0
    }

    /// The one tenant, whatever id is asked for.
    pub fn get_tenant(&self, _id: &str) -> (t: Tenant)
        ensures
            t == self.tenant(),
    {
        self.0.copy()
    }
}


/// A certificate or key that an APNS update form recorded (as base64 text that
/// decodes back to the uploaded bytes) reaches the APNS client as exactly the
/// uploaded bytes.
pub proof fn lemma_uploaded_apns_credentials_round_trip(
    t: Tenant,
    kind: ProviderKind,
    uploaded: Seq<u8>,
    res: Result<ProviderSetup, Error>,
)
    requires
        kind == ProviderKind::Apns || kind == ProviderKind::ApnsSandbox,
        t.apns_kind() is Some,
        t.apns_kind() == Some(ApnsType::Certificate) ==> base64_standard_decode(
            encode_utf8(t.apns_certificate->0@),
        ) == Some(uploaded),
        t.apns_kind() == Some(ApnsType::Token) ==> base64_standard_decode(
            encode_utf8(t.apns_pkcs8_pem->0@),
        ) == Some(uploaded),
        t.provider_result(kind, res),
    ensures
        match res {
            Ok(ProviderSetup::ApnsCertificate { certificate, .. }) => certificate@ == uploaded,
            Ok(ProviderSetup::ApnsToken { pkcs8_pem, .. }) => pkcs8_pem@ == uploaded,
            _ => false,
        },
{
    assert(t.provider_kinds().contains(kind)) by {
        let k = t.provider_kinds();
        if kind == ProviderKind::Apns {
            assert(k[0] == ProviderKind::Apns);
        } else {
            assert(k[1] == ProviderKind::ApnsSandbox);
        }
    }
}


/// A tenant's provider of some kind is refused as not available exactly when
/// the kind is not among the providers the tenant lists.
pub proof fn lemma_provider_available_iff_listed(t: Tenant, kind: ProviderKind, res: Result<ProviderSetup, Error>)
    requires
        t.provider_result(kind, res),
    ensures
        (res matches Err(Error::ProviderNotAvailable(_))) <==> !t.provider_kinds().contains(kind),
{
    if t.provider_kinds().contains(kind) && t.apns_kind() is None {
        let k = t.provider_kinds();
        let i = choose|i: int| 0 <= i < k.len() && k[i] == kind;
        assert(kind != ProviderKind::Apns && kind != ProviderKind::ApnsSandbox);
    }
}

/// The setup a tenant gives for a client's kind is built from the tenant's own
/// settings for that kind. An APNS setup is for the production endpoint when
/// the client registered as `Apns` and for the sandbox endpoint when it
/// registered as `ApnsSandbox`, and carries the tenant's topic and the
/// credentials of the tenant's APNS type; complete APNS settings whose key or
/// certificate decodes always give it. An FCM setup uses the FCM v1
/// credentials when they are set and the legacy key otherwise. The no-op
/// provider is always given. A kind with no settings behind it is refused as
/// not available, with its name.
pub proof fn lemma_provider_setup_follows_kind(t: Tenant, kind: ProviderKind, res: Result<ProviderSetup, Error>)
    requires
        t.provider_result(kind, res),
    ensures
        res matches Ok(ProviderSetup::ApnsToken { sandbox, key_id, team_id, topic, .. }) ==> {
            &&& kind == ProviderKind::Apns || kind == ProviderKind::ApnsSandbox
            &&& sandbox == (kind == ProviderKind::ApnsSandbox)
            &&& t.apns_type == Some(ApnsType::Token)
            &&& t.apns_key_id == Some(key_id)
            &&& t.apns_team_id == Some(team_id)
            &&& t.apns_topic == Some(topic)
        },
        res matches Ok(ProviderSetup::ApnsCertificate { sandbox, password, topic, .. }) ==> {
            &&& kind == ProviderKind::Apns || kind == ProviderKind::ApnsSandbox
            &&& sandbox == (kind == ProviderKind::ApnsSandbox)
            &&& t.apns_type == Some(ApnsType::Certificate)
            &&& t.apns_certificate_password == Some(password)
            &&& t.apns_topic == Some(topic)
        },
        res matches Ok(ProviderSetup::FcmV1 { credentials }) ==> kind == ProviderKind::Fcm
            && t.fcm_v1_credentials == Some(credentials),
        res matches Ok(ProviderSetup::Fcm { api_key }) ==> kind == ProviderKind::Fcm && t.fcm_v1_credentials is None
            && t.fcm_api_key == Some(api_key),
        res matches Ok(ProviderSetup::Noop) ==> kind == ProviderKind::Noop,
        kind == ProviderKind::Noop ==> res matches Ok(ProviderSetup::Noop),
        (kind == ProviderKind::Apns || kind == ProviderKind::ApnsSandbox) && t.apns_type == Some(ApnsType::Token)
            && t.apns_topic is Some && t.apns_pkcs8_pem is Some && t.apns_key_id is Some && t.apns_team_id is Some
            && base64_standard_decode(encode_utf8(t.apns_pkcs8_pem->0@)) is Some ==> (res matches Ok(
            ProviderSetup::ApnsToken { sandbox, pkcs8_pem, .. }) && sandbox == (kind == ProviderKind::ApnsSandbox)
            && Some(pkcs8_pem@) == base64_standard_decode(encode_utf8(t.apns_pkcs8_pem->0@))),
        (kind == ProviderKind::Apns || kind == ProviderKind::ApnsSandbox) && t.apns_type == Some(
            ApnsType::Certificate) && t.apns_topic is Some && t.apns_certificate is Some
            && t.apns_certificate_password is Some && base64_standard_decode(encode_utf8(t.apns_certificate->0@))
            is Some ==> (res matches Ok(ProviderSetup::ApnsCertificate { sandbox, certificate, .. }) && sandbox == (
            kind == ProviderKind::ApnsSandbox) && Some(certificate@) == base64_standard_decode(
            encode_utf8(t.apns_certificate->0@))),
        (kind == ProviderKind::Apns || kind == ProviderKind::ApnsSandbox) && t.apns_type == Some(ApnsType::Token)
            && t.apns_topic is Some && t.apns_pkcs8_pem is Some && t.apns_key_id is Some && t.apns_team_id is Some
            && base64_standard_decode(encode_utf8(t.apns_pkcs8_pem->0@)) is None ==> (res matches Err(
            Error::Base64Decode(_))),
        (kind == ProviderKind::Apns || kind == ProviderKind::ApnsSandbox) && t.apns_type == Some(
            ApnsType::Certificate) && t.apns_topic is Some && t.apns_certificate is Some
            && t.apns_certificate_password is Some && base64_standard_decode(encode_utf8(t.apns_certificate->0@))
            is None ==> (res matches Err(Error::Base64Decode(_))),
        (kind == ProviderKind::Apns || kind == ProviderKind::ApnsSandbox) && t.apns_type == Some(ApnsType::Token)
            && !(t.apns_topic is Some && t.apns_pkcs8_pem is Some && t.apns_key_id is Some && t.apns_team_id is Some)
            ==> (res matches Err(Error::ProviderNotAvailable(p)) && p@ == kind.name()),
        (kind == ProviderKind::Apns || kind == ProviderKind::ApnsSandbox) && t.apns_type == Some(
            ApnsType::Certificate) && !(t.apns_topic is Some && t.apns_certificate is Some
            && t.apns_certificate_password is Some) ==> (res matches Err(Error::ProviderNotAvailable(p)) && p@
            == kind.name()),
        kind == ProviderKind::Fcm && (t.fcm_api_key is Some || t.fcm_v1_credentials is Some) ==> res is Ok,
        (kind == ProviderKind::Apns || kind == ProviderKind::ApnsSandbox) && t.apns_type is None ==> (res matches Err(
            Error::ProviderNotAvailable(p)) && p@ == kind.name()),
        kind == ProviderKind::Fcm && t.fcm_api_key is None && t.fcm_v1_credentials is None ==> (res matches Err(
            Error::ProviderNotAvailable(p)) && p@ == kind.name()),
{
    let kinds = t.provider_kinds();
    assert(kinds.last() == ProviderKind::Noop);
    assert(kinds.contains(ProviderKind::Noop));
    if t.apns_kind() is Some {
        assert(kinds[0] == ProviderKind::Apns && kinds[1] == ProviderKind::ApnsSandbox);
        assert(kinds.contains(ProviderKind::Apns) && kinds.contains(ProviderKind::ApnsSandbox));
    } else {
        assert(!kinds.contains(ProviderKind::Apns) && !kinds.contains(ProviderKind::ApnsSandbox)) by {
            assert forall|i: int| 0 <= i < kinds.len() implies kinds[i] != ProviderKind::Apns && kinds[i]
                != ProviderKind::ApnsSandbox by {}
        }
    }
    if t.fcm_api_key is Some || t.fcm_v1_credentials is Some {
        let j = kinds.len() - 2;
        assert(kinds[j] == ProviderKind::Fcm);
        assert(kinds.contains(ProviderKind::Fcm));
    } else {
        assert(!kinds.contains(ProviderKind::Fcm)) by {
            assert forall|i: int| 0 <= i < kinds.len() implies kinds[i] != ProviderKind::Fcm by {}
        }
    }
}

} // verus!
