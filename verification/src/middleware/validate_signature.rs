//! The Ed25519 signature that the relay puts on push requests: the message it
//! signs, the check of a signature, and the answer to a request whose
//! signature headers are missing or wrong.
use crate::codec::{ed25519_parse_signature, ed25519_verifies, ed25519_verify, hex_decode, hex_decode_bytes};
use crate::handlers::{
    errors_view, fields_view, failure_view, rfield, ErrorField, ErrorLocation, Response, ResponseError, ResponseView,
    STATUS_BAD_REQUEST, STATUS_INTERNAL_SERVER_ERROR, STATUS_UNAUTHORIZED,
};
use crate::relay::RelayClient;
use crate::text::{decimal, decimal_string};
use vstd::prelude::*;
use vstd::utf8::encode_utf8;

verus! {

pub const SIGNATURE_HEADER_NAME: &'static str = "X-Ed25519-Signature";
pub const TIMESTAMP_HEADER_NAME: &'static str = "X-Ed25519-Timestamp";

/// A request part that is only handed on once the request's signature has
/// been checked.
pub struct RequireValidSignature<T>(pub T);

/// The text the relay signs: the timestamp, the body's length in bytes and the
/// body, joined by dots.
pub open spec fn signed_text(timestamp: Seq<char>, body: Seq<char>) -> Seq<char> {
    timestamp + seq!['.'] + decimal(encode_utf8(body).len()) + seq!['.'] + body
}

/// A failure answer whose only detail is one faulty header.
pub open spec fn header_failure(status: u16, header: Seq<char>, description: Seq<char>) -> ResponseView {
    failure_view(status, seq![], seq![rfield(header, description, ErrorLocation::Header)])
}

/// What `signature_is_valid` answers: the check of a signature given as hex
/// text, or the answer to give when the text is no signature at all.
pub open spec fn signature_check(
    signature: Seq<char>,
    timestamp: Seq<char>,
    body: Seq<char>,
    key: Seq<u8>,
) -> Result<bool, ResponseView> {
    match hex_decode(encode_utf8(signature)) {
        None => Err(header_failure(STATUS_BAD_REQUEST, SIGNATURE_HEADER_NAME@, "Signature is not valid hex"@)),
        Some(sig) => if sig.len() != 64 {
            Err(
                header_failure(
                    STATUS_BAD_REQUEST,
                    SIGNATURE_HEADER_NAME@,
                    "Failed to parse signature from bytes"@,
                ),
            )
        } else {
            Ok(ed25519_verifies(key, encode_utf8(signed_text(timestamp, body)), sig))
        },
    }
}

fn header_field(header: &str, description: &str) -> (r: ErrorField)
    ensures
        r@ == rfield(header@, description@, ErrorLocation::Header),
{
    ErrorField {
        field: String::from_str(header),
        description: String::from_str(description),
        location: ErrorLocation::Header,
    }
}

fn header_failure_response(status: u16, header: &str, description: &str) -> (r: Response)
    ensures
        r@ == header_failure(status, header@, description@),
{
    let mut fields: Vec<ErrorField> = Vec::new();
    fields.push(header_field(header, description));
    let errors: Vec<ResponseError> = Vec::new();
    assert(errors_view(errors@) =~= seq![]);
    assert(fields_view(fields@) =~= seq![rfield(header@, description@, ErrorLocation::Header)]);
    let r = Response::new_failure(status, errors, fields);
    r
}

/// The text that the relay signs for this timestamp and body.
fn signed_message(timestamp: &str, body: &str) -> (r: String)
    ensures
        r@ == signed_text(timestamp@, body@),
{
    let dot = ".";
    proof {
        reveal_strlit(".");
    }
    let mut s = String::from_str(timestamp);
    s.append(dot);
    let len = decimal_string(body.as_bytes().len());
    s.append(len.as_str());
    s.append(dot);
    s.append(body);
    s
}

/// Checks the hex signature `signature` of `timestamp` and `body` against the
/// relay's key. Text that is not hex, or hex of another length than 64 bytes,
/// is answered with a bad request naming the signature header.
pub fn signature_is_valid(signature: &str, timestamp: &str, body: &str, public_key: &RelayClient) -> (res: Result<bool, Response>)
    ensures
        match (res, signature_check(signature@, timestamp@, body@, public_key.key())) {
            (Ok(b), Ok(c)) => b == c,
            (Err(r), Err(v)) => r@ == v,
            _ => false,
        },
{
    let sig_bytes = match hex_decode_bytes(signature.as_bytes()) {
        Ok(b) => b,
        Err(_) => {
            return Err(header_failure_response(STATUS_BAD_REQUEST, SIGNATURE_HEADER_NAME, "Signature is not valid hex"));
        },
    };
    if ed25519_parse_signature(sig_bytes.as_slice()).is_err() {
        return Err(header_failure_response(STATUS_BAD_REQUEST, SIGNATURE_HEADER_NAME, "Failed to parse signature from bytes"));
    }
    let message = signed_message(timestamp, body);
    let key = public_key.get_verifying_key();
    Ok(ed25519_verify(key.as_slice(), message.as_str().as_bytes(), sig_bytes.as_slice()))
}

/// The text of a header, if the request has it.
pub open spec fn header_text(h: Option<&str>) -> Option<Seq<char>> {
    match h {
        Some(x) => Some(x@),
        None => None,
    }
}

/// What a request's signature headers lead to: `Ok` hands the request on,
/// `Err` is the answer. `check` is what `signature_check` gives when both
/// headers are present.
pub open spec fn headers_outcome(
    signature: Option<Seq<char>>,
    timestamp: Option<Seq<char>>,
    check: Result<bool, ResponseView>,
) -> Result<(), ResponseView> {
    match (signature, timestamp) {
        (Some(_), Some(_)) => match check {
            Err(v) => Err(v),
            Ok(true) => Ok(()),
            Ok(false) => Err(failure_view(STATUS_UNAUTHORIZED, seq![], seq![])),
        },
        (Some(_), None) => Err(header_failure(STATUS_UNAUTHORIZED, TIMESTAMP_HEADER_NAME@, "Missing timestamp"@)),
        (None, Some(_)) => Err(header_failure(STATUS_UNAUTHORIZED, SIGNATURE_HEADER_NAME@, "Missing signature"@)),
        (None, None) => Err(
            failure_view(
                STATUS_UNAUTHORIZED,
                seq![],
                seq![
                    rfield(SIGNATURE_HEADER_NAME@, "Missing signature"@, ErrorLocation::Header),
                    rfield(TIMESTAMP_HEADER_NAME@, "Missing timestamp"@, ErrorLocation::Header),
                ],
            ),
        ),
    }
}

fn failure_without_details(status: u16) -> (r: Response)
    ensures
        r@ == failure_view(status, seq![], seq![]),
{
    let errors: Vec<ResponseError> = Vec::new();
    let fields: Vec<ErrorField> = Vec::new();
    assert(errors_view(errors@) =~= seq![]);
    assert(fields_view(fields@) =~= seq![]);
    Response::new_failure(status, errors, fields)
}

/// Decides on a request from its signature and timestamp headers (`None` for
/// a header that is missing or not visible ASCII) and its body: the request is
/// handed on only with both headers and a signature that the relay's key
/// verifies over the signed text.
pub fn check_signature_headers(
    signature: Option<&str>,
    timestamp: Option<&str>,
    body: &str,
    public_key: &RelayClient,
) -> (res: Result<(), Response>)
    ensures
        match (res, headers_outcome(header_text(signature), header_text(timestamp), match (signature, timestamp) {
            (Some(s), Some(t)) => signature_check(s@, t@, body@, public_key.key()),
            _ => Ok(false),
        })) {
            (Ok(()), Ok(())) => true,
            (Err(r), Err(v)) => r@ == v,
            _ => false,
        },
{
    match (signature, timestamp) {
        (Some(s), Some(t)) => match signature_is_valid(s, t, body, public_key) {
            Err(r) => Err(r),
            Ok(true) => Ok(()),
            Ok(false) => Err(failure_without_details(STATUS_UNAUTHORIZED)),
        },
        (Some(_), None) => Err(rejected_body_response()),
        (None, Some(_)) => Err(header_failure_response(STATUS_UNAUTHORIZED, SIGNATURE_HEADER_NAME, "Missing signature")),
        (None, None) => {
            let mut fields: Vec<ErrorField> = Vec::new();
            fields.push(header_field(SIGNATURE_HEADER_NAME, "Missing signature"));
            fields.push(header_field(TIMESTAMP_HEADER_NAME, "Missing timestamp"));
            let errors: Vec<ResponseError> = Vec::new();
            assert(errors_view(errors@) =~= seq![]);
            assert(fields_view(fields@) =~= seq![
                rfield(SIGNATURE_HEADER_NAME@, "Missing signature"@, ErrorLocation::Header),
                rfield(TIMESTAMP_HEADER_NAME@, "Missing timestamp"@, ErrorLocation::Header),
            ]);
            Err(Response::new_failure(STATUS_UNAUTHORIZED, errors, fields))
        },
    }
}

/// The answer when the signed request's body cannot be read as the expected
/// value: unauthorized, naming the timestamp header as missing.
pub fn rejected_body_response() -> (r: Response)
    ensures
        r@ == header_failure(STATUS_UNAUTHORIZED, TIMESTAMP_HEADER_NAME@, "Missing timestamp"@),
{
    header_failure_response(STATUS_UNAUTHORIZED, TIMESTAMP_HEADER_NAME, "Missing timestamp")
}

/// The answer when the request body cannot be read at all.
pub fn unreadable_request_response() -> (r: Response)
    ensures
        r@ == failure_view(STATUS_INTERNAL_SERVER_ERROR, seq![], seq![]),
{
    failure_without_details(STATUS_INTERNAL_SERVER_ERROR)
}


/// A request is handed on exactly when it has both headers and its signature
/// verifies; every refusal of a request with missing headers is unauthorized.
pub proof fn lemma_only_verified_requests_pass(
    signature: Option<Seq<char>>,
    timestamp: Option<Seq<char>>,
    check: Result<bool, ResponseView>,
)
    ensures
        headers_outcome(signature, timestamp, check) is Ok <==> (signature is Some && timestamp is Some
            && check == Ok::<bool, ResponseView>(true)),
        (signature is None || timestamp is None) ==> (headers_outcome(signature, timestamp, check) matches Err(
            v,
        ) && v.status_code == STATUS_UNAUTHORIZED),
{
}

} // verus!
