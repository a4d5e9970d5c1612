//! Response shapes shared by the HTTP handlers, client and tenant
//! authentication decisions, and the handlers' own logic (one module each).
use crate::error::Error;
use crate::text::{has_prefix, replace_all, trim_start_all};
use vstd::prelude::*;

pub mod create_tenant;
pub mod delete_client;
pub mod delete_tenant;
pub mod get_tenant;
pub mod push_message;
pub mod register_client;
pub mod update_apns;
pub mod update_fcm;
pub mod update_fcm_v1;

verus! {

/// HTTP status codes used by the handlers.
pub const STATUS_OK: u16 = 200;
pub const STATUS_ACCEPTED: u16 = 202;
pub const STATUS_NO_CONTENT: u16 = 204;
pub const STATUS_BAD_REQUEST: u16 = 400;
pub const STATUS_UNAUTHORIZED: u16 = 401;
pub const STATUS_NOT_FOUND: u16 = 404;
pub const STATUS_TOO_MANY_REQUESTS: u16 = 429;
pub const STATUS_INTERNAL_SERVER_ERROR: u16 = 500;

/// Prefix of client ids written as decentralized identifiers.
pub const DECENTRALIZED_IDENTIFIER_PREFIX: &'static str = "did:key:";

/// Where in a request a faulty field was found.
#[derive(Clone, Copy, Debug, PartialEq, Eq, Structural)]
pub enum ErrorLocation {
    Body,
    Header,
    Path,
    Unknown,
}

impl ErrorLocation {
    /// The lower-case name used when the location is serialized.
    pub fn as_str(&self) -> (s: &'static str)
        ensures
            s@ == self.name(),
    {
        match self {
            ErrorLocation::Body => "body",
            ErrorLocation::Header => "header",
            ErrorLocation::Path => "path",
            ErrorLocation::Unknown => "unknown",
        }
    }

    pub open spec fn name(self) -> Seq<char> {
        match self {
            ErrorLocation::Body => "body"@,
            ErrorLocation::Header => "header"@,
            ErrorLocation::Path => "path"@,
            ErrorLocation::Unknown => "unknown"@,
        }
    }
}

/// Overall outcome carried in a response body.
#[derive(Clone, Copy, Debug, PartialEq, Eq, Structural)]
pub enum ResponseStatus {
    Success,
    Failure,
}

impl ResponseStatus {
    /// The upper-case name used when the status is serialized.
    pub fn as_str(&self) -> (s: &'static str)
        ensures
            s@ == (match self {
                ResponseStatus::Success => "SUCCESS"@,
                ResponseStatus::Failure => "FAILURE"@,
            }),
    {
        match self {
            ResponseStatus::Success => "SUCCESS",
            ResponseStatus::Failure => "FAILURE",
        }
    }
}

/// A request field that failed validation.
#[derive(Debug)]
pub struct ErrorField {
    pub field: String,
    pub description: String,
    pub location: ErrorLocation,
}

/// The characters of an [`ErrorField`].
pub struct ErrorFieldView {
    pub field: Seq<char>,
    pub description: Seq<char>,
    pub location: ErrorLocation,
}

impl View for ErrorField {
    type V = ErrorFieldView;

    open spec fn view(&self) -> ErrorFieldView {
        ErrorFieldView { field: self.field@, description: self.description@, location: self.location }
    }
}

/// A named error in a response body.
#[derive(Debug)]
pub struct ResponseError {
    pub name: String,
    pub message: String,
}

/// The characters of a [`ResponseError`].
pub struct ResponseErrorView {
    pub name: Seq<char>,
    pub message: Seq<char>,
}

impl View for ResponseError {
    type V = ResponseErrorView;

    open spec fn view(&self) -> ResponseErrorView {
        ResponseErrorView { name: self.name@, message: self.message@ }
    }
}

/// Body and status code of a handler's answer.
#[derive(Debug)]
pub struct Response {
    pub status: ResponseStatus,
    /// The HTTP status code (not serialized).
    pub status_code: u16,
    pub errors: Option<Vec<ResponseError>>,
    pub fields: Option<Vec<ErrorField>>,
}

/// The mathematical content of a [`Response`].
pub struct ResponseView {
    pub status: ResponseStatus,
    pub status_code: u16,
    pub errors: Option<Seq<ResponseErrorView>>,
    pub fields: Option<Seq<ErrorFieldView>>,
}

pub open spec fn errors_view(v: Seq<ResponseError>) -> Seq<ResponseErrorView> {
    v.map_values(|e: ResponseError| e@)
}

pub open spec fn fields_view(v: Seq<ErrorField>) -> Seq<ErrorFieldView> {
    v.map_values(|f: ErrorField| f@)
}

impl View for Response {
    type V = ResponseView;

    open spec fn view(&self) -> ResponseView {
        ResponseView {
            status: self.status,
            status_code: self.status_code,
            errors: match self.errors {
                Some(v) => Some(errors_view(v@)),
                None => None,
            },
            fields: match self.fields {
                Some(v) => Some(fields_view(v@)),
                None => None,
            },
        }
    }
}

/// A successful answer with no errors or fields.
pub open spec fn success_view(status: u16) -> ResponseView {
    ResponseView { status: ResponseStatus::Success, status_code: status, errors: None, fields: None }
}

/// A failed answer with the given errors and fields.
pub open spec fn failure_view(
    status: u16,
    errors: Seq<ResponseErrorView>,
    fields: Seq<ErrorFieldView>,
) -> ResponseView {
    ResponseView {
        status: ResponseStatus::Failure,
        status_code: status,
        errors: Some(errors),
        fields: Some(fields),
    }
}

pub open spec fn rerr(name: Seq<char>, message: Seq<char>) -> ResponseErrorView {
    ResponseErrorView { name, message }
}

pub open spec fn rfield(field: Seq<char>, description: Seq<char>, location: ErrorLocation) -> ErrorFieldView {
    ErrorFieldView { field, description, location }
}

impl ResponseError {
    pub fn new(name: &str, message: String) -> (r: ResponseError)
        ensures
            r@ == rerr(name@, message@),
    {
        ResponseError { name: String::from_str(name), message }
    }
}

impl ErrorField {
    pub fn new(field: String, description: &str, location: ErrorLocation) -> (r: ErrorField)
        ensures
            r@ == rfield(field@, description@, location),
    {
        ErrorField { field, description: String::from_str(description), location }
    }
}

impl Response {
    pub fn new_success(status: u16) -> (r: Response)
        ensures
            r@ == success_view(status),
    {
        Response { status: ResponseStatus::Success, status_code: status, errors: None, fields: None }
    }

    pub fn new_failure(status: u16, errors: Vec<ResponseError>, fields: Vec<ErrorField>) -> (r:
        Response)
        ensures
            r@ == failure_view(status, errors_view(errors@), fields_view(fields@)),
    {
        Response { status: ResponseStatus::Failure, status_code: status, errors: Some(errors), fields: Some(fields) }
    }
}

impl Default for Response {
    /// A success with status 200.
    fn default() -> (r: Response)
        ensures
            r@ == success_view(STATUS_OK),
    {
        Response::new_success(STATUS_OK)
    }
}

// ---------------------------------------------------------------------------
// Identifiers and authentication decisions
// ---------------------------------------------------------------------------

/// A client id with every leading `did:key:` removed.
pub open spec fn bare_client_id(id: Seq<char>) -> Seq<char> {
    trim_start_all(id, DECENTRALIZED_IDENTIFIER_PREFIX@)
}

/// Removes every leading `did:key:` from a client id, as the handlers do with
/// `trim_start_matches` before using the id.
pub fn strip_did_prefix(id: &str) -> (res: String)
    ensures
        res@ == bare_client_id(id@),
{
    crate::text::trim_start_matches(id, DECENTRALIZED_IDENTIFIER_PREFIX)
}

/// What the client-authentication step concluded.
#[derive(Clone, Copy, Debug, PartialEq, Eq, Structural)]
pub enum ClientTokenCheck {
    /// No `Authorization` header was sent.
    NoHeader,
    /// The header's token was accepted for the expected audience.
    Verified,
    /// The header could not be read as text.
    Unreadable,
    /// The token was rejected (bad claims, signature or audience).
    Rejected,
}

/// The outcome of `authenticate_client`, given what reading and verifying the
/// header gave and what the handler's own check says of the token's client.
/// Without a header the request passes (authentication is not yet required).
pub fn authenticate_client(check: ClientTokenCheck, client_matches: bool) -> (res: Result<bool, Error>)
    ensures
        check == ClientTokenCheck::NoHeader ==> res == Ok::<bool, Error>(true),
        check == ClientTokenCheck::Verified ==> res == Ok::<bool, Error>(client_matches),
        check == ClientTokenCheck::Unreadable ==> res is Err && res->Err_0 is ToStr,
        check == ClientTokenCheck::Rejected ==> res is Err && res->Err_0 is JwtError,
{
    match check {
        ClientTokenCheck::NoHeader => Ok(true),
        ClientTokenCheck::Verified => Ok(client_matches),
        ClientTokenCheck::Unreadable => Err(Error::ToStr(String::from_str("failed to convert header to a str"))),
        ClientTokenCheck::Rejected => Err(Error::JwtError(String::from_str("invalid token"))),
    }
}

/// The token of an `Authorization` header value: every `Bearer ` in it is removed.
pub open spec fn bearer_token(header: Seq<char>) -> Seq<char> {
    replace_all(header, "Bearer "@, Seq::empty())
}

/// Removes every occurrence of `Bearer ` from a header value.
pub fn strip_bearer(header: &str) -> (res: String)
    ensures
        res@ == bearer_token(header@),
{
    let from = "Bearer ";
    let to = "";
    proof {
        reveal_strlit("Bearer ");
        reveal_strlit("");
    }
    assert(to@ =~= Seq::<char>::empty());
    crate::text::replace(header, from, to)
}

/// The outcome of `validate_tenant_request`: `header` is the `Authorization`
/// header (`None` when absent, `Some(None)` when it is not readable text) and
/// `token_valid` is whether its bearer token passed validation.
pub fn validate_tenant_request(header: Option<Option<&str>>, token_valid: bool) -> (res: Result<bool, Error>)
    ensures
        match header {
            None => res is Err && res->Err_0 is InvalidAuthentication,
            Some(None) => res is Err && res->Err_0 is ToStr,
            Some(Some(_)) => if token_valid {
                res == Ok::<bool, Error>(true)
            } else {
                res is Err && res->Err_0 is InvalidAuthentication
            },
        },
{
    match header {
        None => Err(Error::InvalidAuthentication),
        Some(None) => Err(Error::ToStr(String::from_str("failed to convert header to a str"))),
        Some(Some(_)) => {
            if token_valid {
                Ok(true)
            } else {
                Err(Error::InvalidAuthentication)
            }
        },
    }
}

} // verus!
