//! The error type of the service and the answer each error gives a client.
use crate::handlers::{
    errors_view, failure_view, fields_view, rerr, rfield, success_view, ErrorField, ErrorLocation,
    Response, ResponseError, ResponseView, STATUS_ACCEPTED, STATUS_BAD_REQUEST,
    STATUS_INTERNAL_SERVER_ERROR, STATUS_NOT_FOUND, STATUS_UNAUTHORIZED,
};
use crate::middleware::validate_signature::{SIGNATURE_HEADER_NAME, TIMESTAMP_HEADER_NAME};
use crate::stores::StoreError;
use crate::text::concat;
use vstd::prelude::*;

verus! {

/// Everything that can go wrong while serving a request.
///
/// Variants that wrap an error of another component hold the text that the
/// answer reports for it: its display text, except `FcmResponse` and
/// `MultipartError`, which hold their debug text.
#[derive(Debug)]
pub enum Error {
    Envy(String),
    BadDeviceToken(String),
    Apns(String),
    ApnsResponse(String),
    Fcm(String),
    FcmV1(String),
    FcmResponse(String),
    FcmV1Response(String),
    Io(String),
    Database(String),
    Hex(String),
    Ed25519(String),
    HttpRequest(String),
    Base64Decode(String),
    DecryptedNotificationDecode(String),
    DecryptedNotificationParse(String),
    FcmV1InvalidServiceAccountKey(String),
    InternalFcmV1InvalidServiceAccountKey(String),
    InternalSerializationError(String),
    Store(StoreError),
    ToStr(String),
    DatabaseMigration(String),
    ProviderNotFound(String),
    ProviderNotAvailable(String),
    EmptyField(String),
    RequiredEnvNotFound,
    MissingTimestampHeader,
    MissingSignatureHeader,
    FromRequestError,
    ToBytesError,
    MissingAllSignatureHeader,
    MissingTenantId,
    IncludedTenantIdWhenNotNeeded,
    InvalidConfiguration(String),
    InvalidTenantId(String),
    InvalidOptionsProvided(String),
    FromUtf8Error(String),
    MultipartError(String),
    InvalidMultipartBody,
    InvalidApnsType(String),
    NoApnsConfigured,
    MissingTopic,
    ClientNotFound,
    InternalServerError,
    JwtError(String),
    InvalidAuthentication,
    GeoIpReader(String),
    BatchCollector(String),
    InvalidProjectId(String),
    JWT(String),
    GeoIpS3Failed,
    MissmatchedTenantId,
    BadFcmApiKey,
    BadFcmV1Credentials,
    BadApnsCredentials,
    ApnsCertificateExpired,
    ApnsCertificateUnknownCA,
    ApnsInvalidProviderToken,
    ClientDeleted,
    TenantSuspended,
}

pub type Result<T> = core::result::Result<T, Error>;

/// The message given for errors that should never reach a client.
pub open spec fn unexpected_message() -> Seq<char> {
    "This error should not have occurred. Please file an issue at: https://github.com/walletconnect/echo-server"@
}

pub open spec fn webhook_message() -> Seq<char> {
    "Failed to validate webhook, please ensure that all required headers are provided."@
}

/// A failure with one named error and no fields.
pub open spec fn fail1(status: u16, name: Seq<char>, message: Seq<char>) -> ResponseView {
    failure_view(status, seq![rerr(name, message)], Seq::empty())
}

/// A failure with one named error and one field.
pub open spec fn fail1f(
    status: u16,
    name: Seq<char>,
    message: Seq<char>,
    field: Seq<char>,
    description: Seq<char>,
    location: ErrorLocation,
) -> ResponseView {
    failure_view(status, seq![rerr(name, message)], seq![rfield(field, description, location)])
}

/// The answer a client gets for `e`; `debug` is the debug text of `e`, used by
/// errors without an answer of their own.
pub open spec fn response_for(e: Error, debug: Seq<char>) -> ResponseView {
    match e {
        Error::BadDeviceToken(m) => fail1f(STATUS_BAD_REQUEST, "invalid_token"@, m@, "token"@,
            "Invalid device token"@, ErrorLocation::Body),
        Error::Apns(m) => fail1(STATUS_INTERNAL_SERVER_ERROR, "apns"@, m@),
        Error::ApnsResponse(m) => fail1(STATUS_INTERNAL_SERVER_ERROR, "apns_response"@, m@),
        Error::BadApnsCredentials => fail1(STATUS_BAD_REQUEST, "bad_apns_credentials"@,
            "Failed to validate the provided Certificate or Token"@),
        Error::Fcm(m) => fail1(STATUS_INTERNAL_SERVER_ERROR, "fcm"@, m@),
        Error::FcmResponse(m) => fail1(STATUS_INTERNAL_SERVER_ERROR, "fcm_response"@, m@),
        Error::BadFcmApiKey => fail1f(STATUS_BAD_REQUEST, "bad_fcm_api_key"@,
            "The provided API Key was not valid"@, "api_key"@, "The provided API Key was not valid"@,
            ErrorLocation::Body),
        Error::FcmV1InvalidServiceAccountKey(m) => fail1f(STATUS_BAD_REQUEST,
            "fcm_v1_invalid_service_account_key"@,
            "The provided Service Account Key was not valid: "@ + m@, "fcm_v1_credentials"@,
            "FCM V1 credentials"@, ErrorLocation::Body),
        Error::BadFcmV1Credentials => fail1f(STATUS_BAD_REQUEST, "bad_fcm_v1_credentials"@,
            "The provided credentials were not valid"@, "fcm_v1_credentials"@,
            "FCM V1 credentials"@, ErrorLocation::Body),
        Error::Database(m) => fail1(STATUS_INTERNAL_SERVER_ERROR, "sqlx"@, m@),
        Error::Hex(m) => fail1(STATUS_INTERNAL_SERVER_ERROR, "from_hex"@, m@),
        Error::Ed25519(m) => fail1(STATUS_INTERNAL_SERVER_ERROR, "ed25519"@, m@),
        Error::HttpRequest(m) => fail1(STATUS_INTERNAL_SERVER_ERROR, "http_request"@, m@),
        Error::Base64Decode(m) => fail1(STATUS_INTERNAL_SERVER_ERROR, "base64_decode"@, m@),
        Error::Store(StoreError::Database(m)) => fail1(STATUS_INTERNAL_SERVER_ERROR, "sqlx"@, m@),
        Error::Store(StoreError::NotFound(entity, id)) => failure_view(STATUS_NOT_FOUND,
            Seq::empty(), seq![rfield(entity@ + ".id"@,
            "Cannot find "@ + entity@ + " with specified identifier "@ + id@, ErrorLocation::Body)]),
        Error::ProviderNotFound(p) => fail1f(STATUS_BAD_REQUEST, "provider_not_available"@,
            "The requested provider ("@ + p@ + ") is not a valid provider"@, "provider"@,
            "The requested provider ("@ + p@ + ") is not a valid provider"@, ErrorLocation::Body),
        Error::ProviderNotAvailable(p) => fail1f(STATUS_BAD_REQUEST, "provider_not_available"@,
            "The requested provider ("@ + p@ + ") is not currently available"@, "provider"@,
            "The requested provider ("@ + p@ + ") is not currently available"@, ErrorLocation::Body),
        Error::MissingAllSignatureHeader => failure_view(STATUS_UNAUTHORIZED,
            seq![rerr("webhook_validation_failed"@, webhook_message())], seq![
            rfield(SIGNATURE_HEADER_NAME@, "Missing signature"@, ErrorLocation::Header),
            rfield(TIMESTAMP_HEADER_NAME@, "Missing timestamp"@, ErrorLocation::Header)]),
        Error::MissingSignatureHeader => fail1f(STATUS_UNAUTHORIZED, "webhook_validation_failed"@,
            webhook_message(), SIGNATURE_HEADER_NAME@, "Missing signature"@, ErrorLocation::Header),
        Error::MissingTimestampHeader => fail1f(STATUS_UNAUTHORIZED, "webhook_validation_failed"@,
            webhook_message(), TIMESTAMP_HEADER_NAME@, "Missing timestamp"@, ErrorLocation::Header),
        Error::InvalidTenantId(id) => fail1f(STATUS_BAD_REQUEST, "tenant"@,
            "The provided Tenant ID, "@ + id@
                + ", is invalid. Please ensure it's valid and the url is in the format /:tenant_id/...path"@,
            "tenant_id"@, "Invalid Tenant ID, "@ + id@, ErrorLocation::Path),
        Error::MissingTenantId => fail1(STATUS_BAD_REQUEST, "tenancy-mode"@,
            "single-tenant request made while echo server in multi-tenant mode"@),
        Error::IncludedTenantIdWhenNotNeeded => fail1(STATUS_BAD_REQUEST, "tenancy-mode"@,
            "multi-tenant request made while echo server in single-tenant mode"@),
        Error::MissingTopic => fail1(STATUS_BAD_REQUEST, "topic"@,
            "encrypted push notifications require topic to be set"@),
        Error::ClientNotFound => success_view(STATUS_ACCEPTED),
        Error::JwtError(_) => auth_failure(),
        Error::InvalidAuthentication => auth_failure(),
        Error::InvalidProjectId(id) => fail1f(STATUS_BAD_REQUEST, "project_id"@,
            "the provided project id ("@ + id@ + ") is not valid"@, "id"@, "invalid project id"@,
            ErrorLocation::Body),
        Error::Io(_) => fail1(STATUS_INTERNAL_SERVER_ERROR, "io"@,
            "failed to perform io task, this should not have occurred, please report at: https://github.com/walletconnect/echo-server"@),
        Error::DecryptedNotificationDecode(_) => fail1(STATUS_ACCEPTED, "json"@,
            "Decrypted notification does not decode as base64"@),
        Error::DecryptedNotificationParse(_) => fail1(STATUS_ACCEPTED, "json"@,
            "Decrypted notification does not parse as JSON"@),
        Error::ToStr(_) => fail1(STATUS_INTERNAL_SERVER_ERROR, "header_decode"@,
            "failed to decode header using axum, please try again or report error at: https://github.com/walletconnect/echo-server"@),
        Error::EmptyField(f) => fail1f(STATUS_BAD_REQUEST, "field"@, "field is missing from request"@,
            f@, "missing from request"@, ErrorLocation::Body),
        Error::FromRequestError => fail1(STATUS_INTERNAL_SERVER_ERROR, "unknown"@,
            "unknown error when forwarding request without signature validation, please report this at: https://github.com/walletconnect/echo-server"@),
        Error::ToBytesError => fail1(STATUS_BAD_REQUEST, "decode"@,
            "failed to decode body as bytes, please ensure your JSON body is encoded properly"@),
        Error::FromUtf8Error(_) => fail1(STATUS_BAD_REQUEST, "decode"@,
            "failed to decode body as Utf8, please ensure your JSON body is encoded properly"@),
        Error::MultipartError(m) => failure_view(STATUS_BAD_REQUEST, seq![
            rerr("body"@, "failed to decode the multipart body"@), rerr("multipart"@, m@)],
            Seq::empty()),
        Error::InvalidMultipartBody => fail1(STATUS_BAD_REQUEST, "body"@,
            "multipart body did not conform to specification"@),
        Error::InvalidApnsType(t) => fail1f(STATUS_BAD_REQUEST, "decoding_error"@,
            "failed to decode apns type, \""@ + t@ + "\" is invalid"@, "type"@,
            "apns push type decoding failed"@, ErrorLocation::Unknown),
        Error::InternalServerError => fail1(STATUS_INTERNAL_SERVER_ERROR, "unknown_error"@,
            unexpected_message()),
        Error::GeoIpReader(_) => observability_failure(),
        Error::BatchCollector(_) => observability_failure(),
        Error::JWT(_) => fail1(STATUS_UNAUTHORIZED, "invalid_auth"@, "JWT Authentication Failed"@),
        Error::MissmatchedTenantId => failure_view(STATUS_BAD_REQUEST, seq![
            rerr("missmatched_identifiers"@, "The requested tenant doesn't have this client registered"@)],
            seq![rfield("tenant_id"@, "doesn't match registered id"@, ErrorLocation::Path),
            rfield("id"@, "doesn't match registered id"@, ErrorLocation::Path)]),
        Error::ClientDeleted => fail1(STATUS_ACCEPTED, "client_deleted"@,
            "Request Accepted, client deleted due to invalid token"@),
        Error::TenantSuspended => fail1(STATUS_ACCEPTED, "tenant_suspended"@,
            "Request Accepted, tenant suspended due to invalid configuration"@),
        _ => failure_view(STATUS_INTERNAL_SERVER_ERROR, seq![
            rerr("unknown_error"@, unexpected_message()), rerr("dbg"@, debug)], Seq::empty()),
    }
}

pub open spec fn auth_failure() -> ResponseView {
    fail1f(STATUS_UNAUTHORIZED, "authentication"@, "the provided authentication is not sufficient"@,
        "authorization"@, "invalid authorization token"@, ErrorLocation::Header)
}

pub open spec fn observability_failure() -> ResponseView {
    fail1(STATUS_INTERNAL_SERVER_ERROR, "o11y"@, "Internal error monitoring the request"@)
}

fn failure1(status: u16, name: &str, message: String) -> (r: Response)
    ensures
        r@ == fail1(status, name@, message@),
{
    let errors = vec![ResponseError::new(name, message)];
    let r = Response::new_failure(status, errors, Vec::new());
    assert(errors_view(errors@) =~= seq![rerr(name@, message@)]);
    assert(fields_view(Seq::<ErrorField>::empty()) =~= Seq::empty());
    r
}

fn failure1f(
    status: u16,
    name: &str,
    message: String,
    field: String,
    description: &str,
    location: ErrorLocation,
) -> (r: Response)
    ensures
        r@ == fail1f(status, name@, message@, field@, description@, location),
{
    let errors = vec![ResponseError::new(name, message)];
    let fields = vec![ErrorField::new(field, description, location)];
    assert(errors_view(errors@) =~= seq![rerr(name@, message@)]);
    assert(fields_view(fields@) =~= seq![rfield(field@, description@, location)]);
    Response::new_failure(status, errors, fields)
}

fn s(text: &str) -> (r: String)
    ensures
        r@ == text@,
{
    String::from_str(text)
}

fn cat3(a: &str, b: &str, c: &str) -> (r: String)
    ensures
        r@ == a@ + b@ + c@,
{
    let mut r = concat(a, b);
    r.append(c);
    r
}

impl Error {
    /// The answer a client gets for this error. `debug` is the error's debug
    /// text; it is reported only by errors without an answer of their own.
    pub fn to_response(&self, debug: &str) -> (r: Response)
        ensures
            r@ == response_for(*self, debug@),
    {
        match self {
            Error::BadDeviceToken(m) => failure1f(STATUS_BAD_REQUEST, "invalid_token", m.clone(),
                s("token"), "Invalid device token", ErrorLocation::Body),
            Error::Apns(m) => failure1(STATUS_INTERNAL_SERVER_ERROR, "apns", m.clone()),
            Error::ApnsResponse(m) => failure1(STATUS_INTERNAL_SERVER_ERROR, "apns_response", m.clone()),
            Error::BadApnsCredentials => failure1(STATUS_BAD_REQUEST, "bad_apns_credentials",
                s("Failed to validate the provided Certificate or Token")),
            Error::Fcm(m) => failure1(STATUS_INTERNAL_SERVER_ERROR, "fcm", m.clone()),
            Error::FcmResponse(m) => failure1(STATUS_INTERNAL_SERVER_ERROR, "fcm_response", m.clone()),
            Error::BadFcmApiKey => failure1f(STATUS_BAD_REQUEST, "bad_fcm_api_key",
                s("The provided API Key was not valid"), s("api_key"),
                "The provided API Key was not valid", ErrorLocation::Body),
            Error::FcmV1InvalidServiceAccountKey(m) => failure1f(STATUS_BAD_REQUEST,
                "fcm_v1_invalid_service_account_key",
                concat("The provided Service Account Key was not valid: ", m.as_str()),
                s("fcm_v1_credentials"), "FCM V1 credentials", ErrorLocation::Body),
            Error::BadFcmV1Credentials => failure1f(STATUS_BAD_REQUEST, "bad_fcm_v1_credentials",
                s("The provided credentials were not valid"), s("fcm_v1_credentials"),
                "FCM V1 credentials", ErrorLocation::Body),
            Error::Database(m) => failure1(STATUS_INTERNAL_SERVER_ERROR, "sqlx", m.clone()),
            Error::Hex(m) => failure1(STATUS_INTERNAL_SERVER_ERROR, "from_hex", m.clone()),
            Error::Ed25519(m) => failure1(STATUS_INTERNAL_SERVER_ERROR, "ed25519", m.clone()),
            Error::HttpRequest(m) => failure1(STATUS_INTERNAL_SERVER_ERROR, "http_request", m.clone()),
            Error::Base64Decode(m) => failure1(STATUS_INTERNAL_SERVER_ERROR, "base64_decode", m.clone()),
            Error::Store(StoreError::Database(m)) => failure1(STATUS_INTERNAL_SERVER_ERROR, "sqlx",
                m.clone()),
            Error::Store(StoreError::NotFound(entity, id)) => {
                let mut description = cat3("Cannot find ", entity.as_str(), " with specified identifier ");
                description.append(id.as_str());
                let fields = vec![ErrorField {
                    field: concat(entity.as_str(), ".id"),
                    description,
                    location: ErrorLocation::Body,
                }];
                let errors: Vec<ResponseError> = Vec::new();
                assert(errors_view(errors@) =~= Seq::empty());
                assert(fields_view(fields@) =~= seq![rfield(entity@ + ".id"@,
                    "Cannot find "@ + entity@ + " with specified identifier "@ + id@, ErrorLocation::Body)]);
                Response::new_failure(STATUS_NOT_FOUND, errors, fields)
            },
            Error::ProviderNotFound(p) => failure1f(STATUS_BAD_REQUEST, "provider_not_available",
                cat3("The requested provider (", p.as_str(), ") is not a valid provider"), s("provider"),
                cat3("The requested provider (", p.as_str(), ") is not a valid provider").as_str(),
                ErrorLocation::Body),
            Error::ProviderNotAvailable(p) => failure1f(STATUS_BAD_REQUEST, "provider_not_available",
                cat3("The requested provider (", p.as_str(), ") is not currently available"), s("provider"),
                cat3("The requested provider (", p.as_str(), ") is not currently available").as_str(),
                ErrorLocation::Body),
            Error::MissingAllSignatureHeader => {
                let errors = vec![ResponseError::new("webhook_validation_failed",
                    s("Failed to validate webhook, please ensure that all required headers are provided."))];
                let fields = vec![
                    ErrorField::new(s(SIGNATURE_HEADER_NAME), "Missing signature", ErrorLocation::Header),
                    ErrorField::new(s(TIMESTAMP_HEADER_NAME), "Missing timestamp", ErrorLocation::Header),
                ];
                assert(errors_view(errors@) =~= seq![rerr("webhook_validation_failed"@, webhook_message())]);
                assert(fields_view(fields@) =~= seq![
                    rfield(SIGNATURE_HEADER_NAME@, "Missing signature"@, ErrorLocation::Header),
                    rfield(TIMESTAMP_HEADER_NAME@, "Missing timestamp"@, ErrorLocation::Header)]);
                Response::new_failure(STATUS_UNAUTHORIZED, errors, fields)
            },
            Error::MissingSignatureHeader => failure1f(STATUS_UNAUTHORIZED, "webhook_validation_failed",
                s("Failed to validate webhook, please ensure that all required headers are provided."),
                s(SIGNATURE_HEADER_NAME), "Missing signature", ErrorLocation::Header),
            Error::MissingTimestampHeader => failure1f(STATUS_UNAUTHORIZED, "webhook_validation_failed",
                s("Failed to validate webhook, please ensure that all required headers are provided."),
                s(TIMESTAMP_HEADER_NAME), "Missing timestamp", ErrorLocation::Header),
            Error::InvalidTenantId(id) => failure1f(STATUS_BAD_REQUEST, "tenant",
                cat3("The provided Tenant ID, ", id.as_str(),
                    ", is invalid. Please ensure it's valid and the url is in the format /:tenant_id/...path"),
                s("tenant_id"), concat("Invalid Tenant ID, ", id.as_str()).as_str(), ErrorLocation::Path),
            Error::MissingTenantId => failure1(STATUS_BAD_REQUEST, "tenancy-mode",
                s("single-tenant request made while echo server in multi-tenant mode")),
            Error::IncludedTenantIdWhenNotNeeded => failure1(STATUS_BAD_REQUEST, "tenancy-mode",
                s("multi-tenant request made while echo server in single-tenant mode")),
            Error::MissingTopic => failure1(STATUS_BAD_REQUEST, "topic",
                s("encrypted push notifications require topic to be set")),
            Error::ClientNotFound => Response::new_success(STATUS_ACCEPTED),
            Error::JwtError(_) | Error::InvalidAuthentication => failure1f(STATUS_UNAUTHORIZED,
                "authentication", s("the provided authentication is not sufficient"), s("authorization"),
                "invalid authorization token", ErrorLocation::Header),
            Error::InvalidProjectId(id) => failure1f(STATUS_BAD_REQUEST, "project_id",
                cat3("the provided project id (", id.as_str(), ") is not valid"), s("id"),
                "invalid project id", ErrorLocation::Body),
            Error::Io(_) => failure1(STATUS_INTERNAL_SERVER_ERROR, "io",
                s("failed to perform io task, this should not have occurred, please report at: https://github.com/walletconnect/echo-server")),
            Error::DecryptedNotificationDecode(_) => failure1(STATUS_ACCEPTED, "json",
                s("Decrypted notification does not decode as base64")),
            Error::DecryptedNotificationParse(_) => failure1(STATUS_ACCEPTED, "json",
                s("Decrypted notification does not parse as JSON")),
            Error::ToStr(_) => failure1(STATUS_INTERNAL_SERVER_ERROR, "header_decode",
                s("failed to decode header using axum, please try again or report error at: https://github.com/walletconnect/echo-server")),
            Error::EmptyField(f) => failure1f(STATUS_BAD_REQUEST, "field", s("field is missing from request"),
                f.clone(), "missing from request", ErrorLocation::Body),
            Error::FromRequestError => failure1(STATUS_INTERNAL_SERVER_ERROR, "unknown",
                s("unknown error when forwarding request without signature validation, please report this at: https://github.com/walletconnect/echo-server")),
            Error::ToBytesError => failure1(STATUS_BAD_REQUEST, "decode",
                s("failed to decode body as bytes, please ensure your JSON body is encoded properly")),
            Error::FromUtf8Error(_) => failure1(STATUS_BAD_REQUEST, "decode",
                s("failed to decode body as Utf8, please ensure your JSON body is encoded properly")),
            Error::MultipartError(m) => {
                let errors = vec![
                    ResponseError::new("body", s("failed to decode the multipart body")),
                    ResponseError::new("multipart", m.clone()),
                ];
                assert(errors_view(errors@) =~= seq![
                    rerr("body"@, "failed to decode the multipart body"@), rerr("multipart"@, m@)]);
                assert(fields_view(Seq::<ErrorField>::empty()) =~= Seq::empty());
                Response::new_failure(STATUS_BAD_REQUEST, errors, Vec::new())
            },
            Error::InvalidMultipartBody => failure1(STATUS_BAD_REQUEST, "body",
                s("multipart body did not conform to specification")),
            Error::InvalidApnsType(t) => failure1f(STATUS_BAD_REQUEST, "decoding_error",
                cat3("failed to decode apns type, \"", t.as_str(), "\" is invalid"), s("type"),
                "apns push type decoding failed", ErrorLocation::Unknown),
            Error::InternalServerError => failure1(STATUS_INTERNAL_SERVER_ERROR, "unknown_error",
                s("This error should not have occurred. Please file an issue at: https://github.com/walletconnect/echo-server")),
            Error::GeoIpReader(_) | Error::BatchCollector(_) => failure1(STATUS_INTERNAL_SERVER_ERROR,
                "o11y", s("Internal error monitoring the request")),
            Error::JWT(_) => failure1(STATUS_UNAUTHORIZED, "invalid_auth", s("JWT Authentication Failed")),
            Error::MissmatchedTenantId => {
                let errors = vec![ResponseError::new("missmatched_identifiers",
                    s("The requested tenant doesn't have this client registered"))];
                let fields = vec![
                    ErrorField::new(s("tenant_id"), "doesn't match registered id", ErrorLocation::Path),
                    ErrorField::new(s("id"), "doesn't match registered id", ErrorLocation::Path),
                ];
                assert(errors_view(errors@) =~= seq![rerr("missmatched_identifiers"@,
                    "The requested tenant doesn't have this client registered"@)]);
                assert(fields_view(fields@) =~= seq![
                    rfield("tenant_id"@, "doesn't match registered id"@, ErrorLocation::Path),
                    rfield("id"@, "doesn't match registered id"@, ErrorLocation::Path)]);
                Response::new_failure(STATUS_BAD_REQUEST, errors, fields)
            },
            Error::ClientDeleted => failure1(STATUS_ACCEPTED, "client_deleted",
                s("Request Accepted, client deleted due to invalid token")),
            Error::TenantSuspended => failure1(STATUS_ACCEPTED, "tenant_suspended",
                s("Request Accepted, tenant suspended due to invalid configuration")),
            _ => {
                let errors = vec![
                    ResponseError::new("unknown_error",
                        s("This error should not have occurred. Please file an issue at: https://github.com/walletconnect/echo-server")),
                    ResponseError::new("dbg", s(debug)),
                ];
                assert(errors_view(errors@) =~= seq![rerr("unknown_error"@, unexpected_message()),
                    rerr("dbg"@, debug@)]);
                assert(fields_view(Seq::<ErrorField>::empty()) =~= Seq::empty());
                Response::new_failure(STATUS_INTERNAL_SERVER_ERROR, errors, Vec::new())
            },
        }
    }
}

} // verus!
