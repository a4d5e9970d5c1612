//! Updating a tenant's APNS settings from a multipart form.
use crate::codec::{base64_encode_bytes, base64_standard_decode, base64_standard_encode};
use vstd::utf8::encode_utf8;
use crate::error::Error;
use crate::stores::tenant::{Tenant, TenantApnsUpdateAuth, TenantApnsUpdateParams};
use crate::text::{str_eq, str_to_lowercase, unicode_lowercase};
use vstd::prelude::*;

verus! {

/// The APNS fields of an update form. The certificate and the PKCS #8 key are
/// kept as the standard base64 text of the uploaded bytes.
pub struct ApnsUpdateBody {
    pub apns_topic: Option<String>,
    pub apns_certificate: Option<String>,
    pub apns_certificate_password: Option<String>,
    pub apns_pkcs8_pem: Option<String>,
    pub apns_key_id: Option<String>,
    pub apns_team_id: Option<String>,
}

/// The changes an update form asks for.
#[derive(Clone, Debug)]
pub struct ApnsSqlUpdate {
    pub topic: Option<String>,
    pub auth: Option<TenantApnsUpdateAuth>,
}

/// The fields an APNS update form may carry.
#[derive(Clone, Copy, Debug, PartialEq, Eq, Structural)]
pub enum ApnsFormField {
    Topic,
    Certificate,
    CertificatePassword,
    Pkcs8Pem,
    KeyId,
    TeamId,
    /// Any other name; such fields are ignored.
    Unknown,
}

impl ApnsFormField {
    /// Whether the field's content is uploaded bytes (read as bytes and stored
    /// base64 encoded) rather than text.
    pub open spec fn is_file(self) -> bool {
        self == ApnsFormField::Certificate || self == ApnsFormField::Pkcs8Pem
    }

    pub fn takes_bytes(&self) -> (r: bool)
        ensures
            r == self.is_file(),
    {
        match self {
            ApnsFormField::Certificate | ApnsFormField::Pkcs8Pem => true,
            _ => false,
        }
    }
}

/// The form field named `s` (already folded to lower case).
pub open spec fn apns_field_named(s: Seq<char>) -> ApnsFormField {
    if s == "apns_topic"@ {
        ApnsFormField::Topic
    } else if s == "apns_certificate"@ {
        ApnsFormField::Certificate
    } else if s == "apns_certificate_password"@ {
        ApnsFormField::CertificatePassword
    } else if s == "apns_pkcs8_pem"@ {
        ApnsFormField::Pkcs8Pem
    } else if s == "apns_key_id"@ {
        ApnsFormField::KeyId
    } else if s == "apns_team_id"@ {
        ApnsFormField::TeamId
    } else {
        ApnsFormField::Unknown
    }
}

/// Which field a form part is, by its name in any case.
pub fn apns_form_field(name: &str) -> (f: ApnsFormField)
    ensures
        f == apns_field_named(unicode_lowercase(name@)),
{
    let lower = str_to_lowercase(name);
    let l = lower.as_str();
    if str_eq(l, "apns_topic") {
        ApnsFormField::Topic
    } else if str_eq(l, "apns_certificate") {
        ApnsFormField::Certificate
    } else if str_eq(l, "apns_certificate_password") {
        ApnsFormField::CertificatePassword
    } else if str_eq(l, "apns_pkcs8_pem") {
        ApnsFormField::Pkcs8Pem
    } else if str_eq(l, "apns_key_id") {
        ApnsFormField::KeyId
    } else if str_eq(l, "apns_team_id") {
        ApnsFormField::TeamId
    } else {
        ApnsFormField::Unknown
    }
}

impl ApnsUpdateBody {
    /// A form with no fields yet.
    pub fn new() -> (b: ApnsUpdateBody)
        ensures
            b.apns_topic is None && b.apns_certificate is None && b.apns_certificate_password is None
                && b.apns_pkcs8_pem is None && b.apns_key_id is None && b.apns_team_id is None,
    {
        ApnsUpdateBody {
            apns_topic: None,
            apns_certificate: None,
            apns_certificate_password: None,
            apns_pkcs8_pem: None,
            apns_key_id: None,
            apns_team_id: None,
        }
    }

    /// Records a text field; file fields and unknown fields are left alone.
    pub fn set_text(&mut self, field: ApnsFormField, text: String)
        ensures
            final(self).apns_topic == (if field == ApnsFormField::Topic { Some(text) } else { old(self).apns_topic }),
            final(self).apns_certificate_password == (if field == ApnsFormField::CertificatePassword {
                Some(text)
            } else {
                old(self).apns_certificate_password
            }),
            final(self).apns_key_id == (if field == ApnsFormField::KeyId { Some(text) } else { old(self).apns_key_id }),
            final(self).apns_team_id == (if field == ApnsFormField::TeamId { Some(text) } else { old(self).apns_team_id }),
            final(self).apns_certificate == old(self).apns_certificate,
            final(self).apns_pkcs8_pem == old(self).apns_pkcs8_pem,
    {
        match field {
            ApnsFormField::Topic => self.apns_topic = Some(text),
            ApnsFormField::CertificatePassword => self.apns_certificate_password = Some(text),
            ApnsFormField::KeyId => self.apns_key_id = Some(text),
            ApnsFormField::TeamId => self.apns_team_id = Some(text),
            _ => {},
        }
    }

    /// Records an uploaded file field as the standard base64 text of its bytes;
    /// text fields and unknown fields are left alone.
    pub fn set_bytes(&mut self, field: ApnsFormField, data: &[u8])
        ensures
            field == ApnsFormField::Certificate ==> (final(self).apns_certificate matches Some(c) && c@
                == base64_standard_encode(data@) && base64_standard_decode(encode_utf8(c@)) == Some(data@)),
            field != ApnsFormField::Certificate ==> final(self).apns_certificate == old(self).apns_certificate,
            field == ApnsFormField::Pkcs8Pem ==> (final(self).apns_pkcs8_pem matches Some(c) && c@
                == base64_standard_encode(data@) && base64_standard_decode(encode_utf8(c@)) == Some(data@)),
            field != ApnsFormField::Pkcs8Pem ==> final(self).apns_pkcs8_pem == old(self).apns_pkcs8_pem,
            final(self).apns_topic == old(self).apns_topic,
            final(self).apns_certificate_password == old(self).apns_certificate_password,
            final(self).apns_key_id == old(self).apns_key_id,
            final(self).apns_team_id == old(self).apns_team_id,
    {
        match field {
            ApnsFormField::Certificate => self.apns_certificate = Some(base64_encode_bytes(data)),
            ApnsFormField::Pkcs8Pem => self.apns_pkcs8_pem = Some(base64_encode_bytes(data)),
            _ => {},
        }
    }

    /// The update the form asks for, if it is one of the accepted shapes: a
    /// topic alone; a certificate with its password, with or without a topic;
    /// or a PKCS #8 key with its key id and team id, with or without a topic.
    pub open spec fn accepted_update(&self) -> Option<ApnsSqlUpdate> {
        match (
            self.apns_topic,
            self.apns_certificate,
            self.apns_certificate_password,
            self.apns_pkcs8_pem,
            self.apns_key_id,
            self.apns_team_id,
        ) {
            (Some(topic), None, None, None, None, None) => Some(
                ApnsSqlUpdate { topic: Some(topic), auth: None },
            ),
            (topic, Some(certificate), Some(password), None, None, None) => Some(
                ApnsSqlUpdate {
                    topic,
                    auth: Some(
                        TenantApnsUpdateAuth::Certificate {
                            apns_certificate: certificate,
                            apns_certificate_password: password,
                        },
                    ),
                },
            ),
            (topic, None, None, Some(pem), Some(key_id), Some(team_id)) => Some(
                ApnsSqlUpdate {
                    topic,
                    auth: Some(
                        TenantApnsUpdateAuth::Token {
                            apns_pkcs8_pem: pem,
                            apns_key_id: key_id,
                            apns_team_id: team_id,
                        },
                    ),
                },
            ),
            _ => None,
        }
    }

    /// `res` is what `validate` answers for this form.
    pub open spec fn validated_as(&self, res: Result<ApnsSqlUpdate, Error>) -> bool {
        match self.accepted_update() {
            Some(u) => res matches Ok(r) && r.topic == u.topic && r.auth == u.auth,
            None => res matches Err(Error::InvalidMultipartBody),
        }
    }

    /// The update the form asks for; any other combination of fields is
    /// `InvalidMultipartBody`.
    pub fn validate(&self) -> (res: Result<ApnsSqlUpdate, Error>)
        ensures
            self.validated_as(res),
    {
        match (
            &self.apns_topic,
            &self.apns_certificate,
            &self.apns_certificate_password,
            &self.apns_pkcs8_pem,
            &self.apns_key_id,
            &self.apns_team_id,
        ) {
            // Update topic
            (Some(topic), None, None, None, None, None) => Ok(ApnsSqlUpdate { topic: Some(topic.clone()), auth: None }),
            // Update certificate
            (Some(topic), Some(certificate), Some(password), None, None, None) => Ok(ApnsSqlUpdate {
                topic: Some(topic.clone()),
                auth: Some(TenantApnsUpdateAuth::Certificate {
                    apns_certificate: certificate.clone(),
                    apns_certificate_password: password.clone(),
                }),
            }),
            (None, Some(certificate), Some(password), None, None, None) => Ok(ApnsSqlUpdate {
                topic: None,
                auth: Some(TenantApnsUpdateAuth::Certificate {
                    apns_certificate: certificate.clone(),
                    apns_certificate_password: password.clone(),
                }),
            }),
            // Update token
            (Some(topic), None, None, Some(pkcs8_pem), Some(key_id), Some(team_id)) => Ok(ApnsSqlUpdate {
                topic: Some(topic.clone()),
                auth: Some(TenantApnsUpdateAuth::Token {
                    apns_pkcs8_pem: pkcs8_pem.clone(),
                    apns_key_id: key_id.clone(),
                    apns_team_id: team_id.clone(),
                }),
            }),
            (None, None, None, Some(pkcs8_pem), Some(key_id), Some(team_id)) => Ok(ApnsSqlUpdate {
                topic: None,
                auth: Some(TenantApnsUpdateAuth::Token {
                    apns_pkcs8_pem: pkcs8_pem.clone(),
                    apns_key_id: key_id.clone(),
                    apns_team_id: team_id.clone(),
                }),
            }),
            // All other cases are invalid
            _ => Err(Error::InvalidMultipartBody),
        }
    }
}

/// `validate` accepts exactly three shapes of form: a topic alone; a
/// certificate with its password; a PKCS #8 key with its key id and team id
/// (the last two with or without a topic). Anything else is
/// `InvalidMultipartBody`. What it accepts carries the form's own fields, each
/// in its place: the form's topic as the topic, the certificate and password
/// as certificate credentials, and the key, key id and team id as token
/// credentials.
pub proof fn lemma_validate_keeps_fields(body: ApnsUpdateBody, res: Result<ApnsSqlUpdate, Error>)
    requires
        body.validated_as(res),
    ensures
        res is Ok <==> {
            ||| body.apns_topic is Some && body.apns_certificate is None && body.apns_certificate_password is None
                && body.apns_pkcs8_pem is None && body.apns_key_id is None && body.apns_team_id is None
            ||| body.apns_certificate is Some && body.apns_certificate_password is Some && body.apns_pkcs8_pem is None
                && body.apns_key_id is None && body.apns_team_id is None
            ||| body.apns_certificate is None && body.apns_certificate_password is None && body.apns_pkcs8_pem is Some
                && body.apns_key_id is Some && body.apns_team_id is Some
        },
        res is Err ==> (res matches Err(Error::InvalidMultipartBody)),
        res matches Ok(u) ==> u.topic == body.apns_topic,
        res matches Ok(u) ==> (u.auth is None <==> body.apns_certificate is None && body.apns_pkcs8_pem is None),
        res matches Ok(u) ==> (body.apns_certificate is Some ==> (u.auth matches Some(
            TenantApnsUpdateAuth::Certificate { .. }))),
        res matches Ok(u) ==> (body.apns_pkcs8_pem is Some ==> (u.auth matches Some(
            TenantApnsUpdateAuth::Token { .. }))),
        res matches Ok(ApnsSqlUpdate {
            auth: Some(TenantApnsUpdateAuth::Token { apns_pkcs8_pem, apns_key_id, apns_team_id }),
            ..
        }) ==> body.apns_pkcs8_pem == Some(apns_pkcs8_pem) && body.apns_key_id == Some(apns_key_id)
            && body.apns_team_id == Some(apns_team_id),
        res matches Ok(ApnsSqlUpdate {
            auth: Some(TenantApnsUpdateAuth::Certificate { apns_certificate, apns_certificate_password }),
            ..
        }) ==> body.apns_certificate == Some(apns_certificate) && body.apns_certificate_password == Some(
            apns_certificate_password),
{
}

/// An accepted APNS update always changes something: a topic, credentials, or both.
pub proof fn lemma_accepted_update_changes_something(body: ApnsUpdateBody)
    requires
        body.accepted_update() is Some,
    ensures
        body.accepted_update()->0.topic is Some || body.accepted_update()->0.auth is Some,
{
}

/// The answer of a successful APNS update.
#[derive(Debug)]
pub struct UpdateTenantApnsResponse {
    pub success: bool,
}

/// The next step of the APNS update once the form is validated.
#[derive(Clone, Copy, Debug, PartialEq, Eq, Structural)]
pub enum ApnsUpdateStep {
    /// Store the new topic, and then answer with success.
    StoreTopicAndFinish,
    /// Store the new topic, then check and store the new credentials.
    StoreTopicThenCredentials,
    /// Check and store the new credentials.
    StoreCredentials,
}

/// How the update proceeds for the changes the form asked for.
pub fn apns_update_step(update: &ApnsSqlUpdate) -> (s: ApnsUpdateStep)
    requires
        update.topic is Some || update.auth is Some,
    ensures
        s == (if update.topic is Some {
            if update.auth is None {
                ApnsUpdateStep::StoreTopicAndFinish
            } else {
                ApnsUpdateStep::StoreTopicThenCredentials
            }
        } else {
            ApnsUpdateStep::StoreCredentials
        }),
{
    if update.topic.is_some() {
        if update.auth.is_none() {
            ApnsUpdateStep::StoreTopicAndFinish
        } else {
            ApnsUpdateStep::StoreTopicThenCredentials
        }
    } else {
        ApnsUpdateStep::StoreCredentials
    }
}

/// The outcome of checking new credentials: rejected credentials are
/// `BadApnsCredentials`.
pub fn apns_credentials_check(accepted: bool) -> (res: Result<(), Error>)
    ensures
        accepted ==> res is Ok,
        !accepted ==> (res matches Err(Error::BadApnsCredentials)),
{
    if accepted {
        Ok(())
    } else {
        Err(Error::BadApnsCredentials)
    }
}


// ---------------------------------------------------------------------------
// Checking new credentials
// ---------------------------------------------------------------------------

/// That `a2::Client::certificate`, given these certificate bytes (read as
/// PKCS #12) and this password, answered `accepted` (whether it built a
/// client). A relation, not a function: the answer also rests on the machine.
pub uninterp spec fn apns_certificate_attempt(cert: Seq<u8>, password: Seq<char>, accepted: bool) -> bool;

/// That `a2::Client::token`, given these PKCS #8 PEM bytes, key id and team
/// id, answered `accepted` (whether it built a client). A relation, not a
/// function: the answer also rests on the machine.
pub uninterp spec fn apns_token_attempt(pem: Seq<u8>, key_id: Seq<char>, team_id: Seq<char>, accepted: bool) -> bool;

/// Calls `a2::Client::certificate` on the bytes with the password and the
/// sandbox endpoint, and keeps only whether it built a client. The answer
/// rests on the PKCS #12 support of the machine's OpenSSL library as well as
/// on the arguments, so only the attempt with these arguments is recorded.
#[verifier::external_body]
pub(crate) fn apns_certificate_accepted(cert: &[u8], password: &str) -> (ok: bool)
    ensures
        apns_certificate_attempt(cert@, password@, ok),
{
    let mut reader: &[u8] = cert;
    a2::Client::certificate(&mut reader, password, a2::ClientConfig::new(a2::Endpoint::Sandbox)).is_ok()
}

/// Calls `a2::Client::token` on the PEM bytes, key id and team id with the
/// sandbox endpoint, and keeps only whether it built a client. Building it
/// signs a token with the clock and the machine's randomness, so only the
/// attempt with these arguments is recorded.
#[verifier::external_body]
pub(crate) fn apns_token_accepted(pem: &[u8], key_id: &str, team_id: &str) -> (ok: bool)
    ensures
        apns_token_attempt(pem@, key_id@, team_id@, ok),
{
    let reader: &[u8] = pem;
    a2::Client::token(reader, key_id, team_id, a2::ClientConfig::new(a2::Endpoint::Sandbox)).is_ok()
}

/// That the APNS client, given the credentials `auth` (the stored text's UTF-8
/// bytes are what it reads, as the update gives them), answered `accepted`.
pub open spec fn apns_auth_attempt(auth: TenantApnsUpdateAuth, accepted: bool) -> bool {
    match auth {
        TenantApnsUpdateAuth::Certificate { apns_certificate, apns_certificate_password } => apns_certificate_attempt(
            encode_utf8(apns_certificate@),
            apns_certificate_password@,
            accepted,
        ),
        TenantApnsUpdateAuth::Token { apns_pkcs8_pem, apns_key_id, apns_team_id } => apns_token_attempt(
            encode_utf8(apns_pkcs8_pem@),
            apns_key_id@,
            apns_team_id@,
            accepted,
        ),
    }
}

/// Checks new credentials by building an APNS client from them: credentials
/// it accepts give `Ok`, others `BadApnsCredentials`.
pub fn check_apns_auth(auth: &TenantApnsUpdateAuth) -> (res: Result<(), Error>)
    ensures
        (res is Ok && apns_auth_attempt(*auth, true)) || ((res matches Err(Error::BadApnsCredentials))
            && apns_auth_attempt(*auth, false)),
{
    let accepted = match auth {
        TenantApnsUpdateAuth::Certificate { apns_certificate, apns_certificate_password } => apns_certificate_accepted(
            apns_certificate.as_str().as_bytes(),
            apns_certificate_password.as_str(),
        ),
        TenantApnsUpdateAuth::Token { apns_pkcs8_pem, apns_key_id, apns_team_id } => apns_token_accepted(
            apns_pkcs8_pem.as_str().as_bytes(),
            apns_key_id.as_str(),
            apns_team_id.as_str(),
        ),
    };
    apns_credentials_check(accepted)
}

// ---------------------------------------------------------------------------
// The update, step by step
// ---------------------------------------------------------------------------

/// What the service learned from the last action it performed.
pub enum ApnsUpdateEvent {
    /// Whether the tenant exists (or why it could not be read).
    TenantFetched(Result<(), Error>),
    /// The form, or why it could not be read.
    FormRead(Result<ApnsUpdateBody, Error>),
    TopicStored(Result<(), Error>),
    /// The tenant as updated with the new credentials.
    AuthStored(Result<Tenant, Error>),
    Unsuspended(Result<(), Error>),
}

/// What the service must do next. `Respond` and `Fail` end the update.
pub enum ApnsUpdateAction {
    FetchTenant { tenant_id: String },
    ReadForm,
    StoreTopic { tenant_id: String, params: TenantApnsUpdateParams },
    StoreAuth { tenant_id: String, auth: TenantApnsUpdateAuth },
    Unsuspend { tenant_id: String },
    Respond(UpdateTenantApnsResponse),
    Fail(Error),
}

/// Which answer the update waits for.
#[derive(Clone, Copy, Debug, PartialEq, Eq, Structural)]
pub enum ApnsUpdateStage {
    AwaitTenant,
    AwaitForm,
    AwaitTopic,
    AwaitAuth,
    AwaitUnsuspend,
    Finished,
}

/// The state of one APNS update of one tenant.
pub struct ApnsUpdateFlow {
    tenant_id: String,
    update: Option<ApnsSqlUpdate>,
    stage: ApnsUpdateStage,
}

/// After the topic (if any) is stored: the credentials are checked by the
/// APNS client, and they are stored, unchanged, only if it accepted them;
/// otherwise the update fails with `BadApnsCredentials`.
pub open spec fn credentials_next(
    tenant_id: String,
    auth: TenantApnsUpdateAuth,
    res: (ApnsUpdateFlow, ApnsUpdateAction),
) -> bool {
    ||| {
        &&& apns_auth_attempt(auth, true)
        &&& res.0.stage() == ApnsUpdateStage::AwaitAuth
        &&& res.1 matches ApnsUpdateAction::StoreAuth { tenant_id: t, auth: a } && t == tenant_id && a == auth
    }
    ||| {
        &&& apns_auth_attempt(auth, false)
        &&& res.0.stage() == ApnsUpdateStage::Finished
        &&& res.1 matches ApnsUpdateAction::Fail(Error::BadApnsCredentials)
    }
}

/// A successful answer.
pub open spec fn succeeded(a: ApnsUpdateAction) -> bool {
    a matches ApnsUpdateAction::Respond(r) && r.success
}

impl ApnsUpdateFlow {
    pub closed spec fn stage(&self) -> ApnsUpdateStage {
        self.stage
    }

    pub closed spec fn tenant_id(&self) -> String {
        self.tenant_id
    }

    /// The update the form asked for, once it is read.
    pub closed spec fn update(&self) -> ApnsSqlUpdate {
        self.update->0
    }

    pub closed spec fn wf(&self) -> bool {
        (self.stage == ApnsUpdateStage::AwaitTopic || self.stage == ApnsUpdateStage::AwaitAuth
            || self.stage == ApnsUpdateStage::AwaitUnsuspend) ==> self.update is Some
    }

    /// The answer is the one the stage waits for.
    pub open spec fn fits(stage: ApnsUpdateStage, event: ApnsUpdateEvent) -> bool {
        match event {
            ApnsUpdateEvent::TenantFetched(_) => stage == ApnsUpdateStage::AwaitTenant,
            ApnsUpdateEvent::FormRead(_) => stage == ApnsUpdateStage::AwaitForm,
            ApnsUpdateEvent::TopicStored(_) => stage == ApnsUpdateStage::AwaitTopic,
            ApnsUpdateEvent::AuthStored(_) => stage == ApnsUpdateStage::AwaitAuth,
            ApnsUpdateEvent::Unsuspended(_) => stage == ApnsUpdateStage::AwaitUnsuspend,
        }
    }

    /// Starts an update of tenant `tenant_id`: the tenant is fetched first.
    pub fn start(tenant_id: String) -> (res: (ApnsUpdateFlow, ApnsUpdateAction))
        ensures
            res.0.wf(),
            res.0.stage() == ApnsUpdateStage::AwaitTenant,
            res.0.tenant_id() == tenant_id,
            res.1 matches ApnsUpdateAction::FetchTenant { tenant_id: t } && t == tenant_id,
    {
        let action = ApnsUpdateAction::FetchTenant { tenant_id: tenant_id.clone() };
        (ApnsUpdateFlow { tenant_id, update: None, stage: ApnsUpdateStage::AwaitTenant }, action)
    }

    fn finish(self, action: ApnsUpdateAction) -> (res: (ApnsUpdateFlow, ApnsUpdateAction))
        ensures
            res.0.wf(),
            res.0.stage() == ApnsUpdateStage::Finished,
            res.0.tenant_id() == self.tenant_id(),
            res.1 == action,
    {
        (ApnsUpdateFlow { stage: ApnsUpdateStage::Finished, ..self }, action)
    }

    fn event_fits(&self, event: &ApnsUpdateEvent) -> (r: bool)
        ensures
            r == Self::fits(self.stage(), *event),
    {
        match event {
            ApnsUpdateEvent::TenantFetched(_) => self.stage == ApnsUpdateStage::AwaitTenant,
            ApnsUpdateEvent::FormRead(_) => self.stage == ApnsUpdateStage::AwaitForm,
            ApnsUpdateEvent::TopicStored(_) => self.stage == ApnsUpdateStage::AwaitTopic,
            ApnsUpdateEvent::AuthStored(_) => self.stage == ApnsUpdateStage::AwaitAuth,
            ApnsUpdateEvent::Unsuspended(_) => self.stage == ApnsUpdateStage::AwaitUnsuspend,
        }
    }

    /// Checks the credentials of `auth` and asks to store them if accepted.
    fn store_credentials(self, auth: TenantApnsUpdateAuth) -> (res: (ApnsUpdateFlow, ApnsUpdateAction))
        requires
            self.wf(),
            self.stage() == ApnsUpdateStage::AwaitForm || self.stage() == ApnsUpdateStage::AwaitTopic,
        ensures
            res.0.wf(),
            res.0.tenant_id() == self.tenant_id(),
            res.0.stage() == ApnsUpdateStage::Finished || res.0.stage() == ApnsUpdateStage::AwaitAuth,
            res.0.stage() == ApnsUpdateStage::Finished <==> res.1 is Fail,
            credentials_next(self.tenant_id(), auth, res),
    {
        let check = check_apns_auth(&auth);
        self.after_check(auth, check)
    }

    /// Goes on once the new credentials `auth` have been checked: accepted
    /// credentials are to be stored as they are; a refusal `e` ends the update
    /// with `e`.
    pub fn after_check(self, auth: TenantApnsUpdateAuth, check: Result<(), Error>) -> (res: (
        ApnsUpdateFlow,
        ApnsUpdateAction,
    ))
        requires
            self.wf(),
            self.stage() == ApnsUpdateStage::AwaitForm || self.stage() == ApnsUpdateStage::AwaitTopic,
        ensures
            res.0.wf(),
            res.0.tenant_id() == self.tenant_id(),
            match check {
                Ok(()) => {
                    &&& res.0.stage() == ApnsUpdateStage::AwaitAuth
                    &&& res.1 matches ApnsUpdateAction::StoreAuth { tenant_id: t, auth: a } && t
                        == self.tenant_id() && a == auth
                },
                Err(e) => res.0.stage() == ApnsUpdateStage::Finished && res.1 == ApnsUpdateAction::Fail(e),
            },
    {
        match check {
            Err(e) => self.finish(ApnsUpdateAction::Fail(e)),
            Ok(()) => {
                let action = ApnsUpdateAction::StoreAuth { tenant_id: self.tenant_id.clone(), auth };
                let update = match self.update {
                    Some(u) => u,
                    None => ApnsSqlUpdate { topic: None, auth: None },
                };
                (ApnsUpdateFlow { tenant_id: self.tenant_id, update: Some(update), stage: ApnsUpdateStage::AwaitAuth }, action)
            },
        }
    }

    /// Takes the answer to the last action and decides the next one: the
    /// tenant is fetched, then the form read and validated; a new topic is
    /// stored first, and without new credentials the update ends there; new
    /// credentials are checked before they are stored, and the tenant is
    /// unsuspended only if the updated tenant is suspended.
    pub fn step(self, event: ApnsUpdateEvent) -> (res: (ApnsUpdateFlow, ApnsUpdateAction))
        requires
            self.wf(),
        ensures
            res.0.wf(),
            res.0.tenant_id() == self.tenant_id(),
            res.0.stage() == ApnsUpdateStage::Finished <==> (res.1 is Respond || res.1 is Fail),
            res.1 is Respond ==> succeeded(res.1),
            // credentials are only ever stored right after they were checked
            res.1 is StoreAuth ==> (self.stage() == ApnsUpdateStage::AwaitForm || self.stage()
                == ApnsUpdateStage::AwaitTopic),
            !Self::fits(self.stage(), event) ==> (res.1 matches ApnsUpdateAction::Fail(Error::InternalServerError)),
            self.stage() == ApnsUpdateStage::AwaitTenant ==> match event {
                ApnsUpdateEvent::TenantFetched(Err(e)) => res.1 == ApnsUpdateAction::Fail(e),
                ApnsUpdateEvent::TenantFetched(Ok(())) => res.0.stage() == ApnsUpdateStage::AwaitForm
                    && res.1 is ReadForm,
                _ => true,
            },
            self.stage() == ApnsUpdateStage::AwaitForm ==> match event {
                ApnsUpdateEvent::FormRead(Err(e)) => res.1 == ApnsUpdateAction::Fail(e),
                ApnsUpdateEvent::FormRead(Ok(body)) => match body.accepted_update() {
                    None => res.1 matches ApnsUpdateAction::Fail(Error::InvalidMultipartBody),
                    Some(u) => match u.topic {
                        Some(topic) => {
                            &&& res.0.stage() == ApnsUpdateStage::AwaitTopic
                            &&& res.0.update() == u
                            &&& res.1 matches ApnsUpdateAction::StoreTopic { tenant_id, params }
                                && tenant_id == self.tenant_id() && params.apns_topic == topic
                        },
                        None => credentials_next(self.tenant_id(), u.auth->0, res),
                    },
                },
                _ => true,
            },
            self.stage() == ApnsUpdateStage::AwaitTopic ==> match event {
                ApnsUpdateEvent::TopicStored(Err(e)) => res.1 == ApnsUpdateAction::Fail(e),
                ApnsUpdateEvent::TopicStored(Ok(())) => match self.update().auth {
                    None => succeeded(res.1),
                    Some(auth) => credentials_next(self.tenant_id(), auth, res),
                },
                _ => true,
            },
            self.stage() == ApnsUpdateStage::AwaitAuth ==> match event {
                ApnsUpdateEvent::AuthStored(Err(e)) => res.1 == ApnsUpdateAction::Fail(e),
                ApnsUpdateEvent::AuthStored(Ok(t)) => if t.suspended {
                    &&& res.0.stage() == ApnsUpdateStage::AwaitUnsuspend
                    &&& res.1 matches ApnsUpdateAction::Unsuspend { tenant_id } && tenant_id == t.id
                } else {
                    succeeded(res.1)
                },
                _ => true,
            },
            self.stage() == ApnsUpdateStage::AwaitUnsuspend ==> match event {
                ApnsUpdateEvent::Unsuspended(Err(e)) => res.1 == ApnsUpdateAction::Fail(e),
                ApnsUpdateEvent::Unsuspended(Ok(())) => succeeded(res.1),
                _ => true,
            },
            // the tenant is unsuspended exactly when the updated tenant is suspended
            res.1 is Unsuspend <==> (self.stage() == ApnsUpdateStage::AwaitAuth
                && (event matches ApnsUpdateEvent::AuthStored(Ok(t)) && t.suspended)),
    {
        if !self.event_fits(&event) {
            return self.finish(ApnsUpdateAction::Fail(Error::InternalServerError));
        }
        match event {
            ApnsUpdateEvent::TenantFetched(Err(e)) => self.finish(ApnsUpdateAction::Fail(e)),
            ApnsUpdateEvent::TenantFetched(Ok(())) => {
                (ApnsUpdateFlow { stage: ApnsUpdateStage::AwaitForm, ..self }, ApnsUpdateAction::ReadForm)
            },
            ApnsUpdateEvent::FormRead(Err(e)) => self.finish(ApnsUpdateAction::Fail(e)),
            ApnsUpdateEvent::FormRead(Ok(body)) => {
                let update = match body.validate() {
                    Err(e) => {
                        return self.finish(ApnsUpdateAction::Fail(e));
                    },
                    Ok(u) => u,
                };
                match &update.topic {
                    Some(topic) => {
                        let action = ApnsUpdateAction::StoreTopic {
                            tenant_id: self.tenant_id.clone(),
                            params: TenantApnsUpdateParams { apns_topic: topic.clone() },
                        };
                        (
                            ApnsUpdateFlow {
                                tenant_id: self.tenant_id,
                                update: Some(update),
                                stage: ApnsUpdateStage::AwaitTopic,
                            },
                            action,
                        )
                    },
                    None => {
                        let auth = match &update.auth {
                            Some(a) => a.copy(),
                            None => {
                                return self.finish(ApnsUpdateAction::Fail(Error::InvalidMultipartBody));
                            },
                        };
                        let flow = ApnsUpdateFlow { tenant_id: self.tenant_id, update: Some(update), stage: self.stage };
                        flow.store_credentials(auth)
                    },
                }
            },
            ApnsUpdateEvent::TopicStored(Err(e)) => self.finish(ApnsUpdateAction::Fail(e)),
            ApnsUpdateEvent::TopicStored(Ok(())) => {
                let auth = match &self.update {
                    Some(u) => match &u.auth {
                        Some(a) => a.copy(),
                        None => {
                            return self.finish(ApnsUpdateAction::Respond(UpdateTenantApnsResponse { success: true }));
                        },
                    },
                    None => {
                        return self.finish(ApnsUpdateAction::Fail(Error::InternalServerError));
                    },
                };
                self.store_credentials(auth)
            },
            ApnsUpdateEvent::AuthStored(Err(e)) => self.finish(ApnsUpdateAction::Fail(e)),
            ApnsUpdateEvent::AuthStored(Ok(tenant)) => {
                if tenant.suspended {
                    (
                        ApnsUpdateFlow { stage: ApnsUpdateStage::AwaitUnsuspend, ..self },
                        ApnsUpdateAction::Unsuspend { tenant_id: tenant.id },
                    )
                } else {
                    self.finish(ApnsUpdateAction::Respond(UpdateTenantApnsResponse { success: true }))
                }
            },
            ApnsUpdateEvent::Unsuspended(Err(e)) => self.finish(ApnsUpdateAction::Fail(e)),
            ApnsUpdateEvent::Unsuspended(Ok(())) => {
                self.finish(ApnsUpdateAction::Respond(UpdateTenantApnsResponse { success: true }))
            },
        }
    }
}

} // verus!
