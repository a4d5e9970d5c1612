use ed25519_dalek::{Signer, SigningKey};
use echo_server::error::Error;
use echo_server::handlers::{ErrorLocation, ResponseStatus};
use echo_server::middleware::rate_limit::{RateDecision, RateLimiter, MAX_REQUESTS_PER_SEC};
use echo_server::middleware::validate_signature::{
    check_signature_headers, rejected_body_response, signature_is_valid,
    unreadable_request_response, SIGNATURE_HEADER_NAME, TIMESTAMP_HEADER_NAME,
};
use echo_server::relay::RelayClient;

fn signing_key() -> SigningKey {
    SigningKey::from_bytes(&[7u8; 32])
}

fn relay() -> RelayClient {
    let public = hex::encode(signing_key().verifying_key().to_bytes());
    RelayClient::new(public).expect("a valid key")
}

fn sign(timestamp: &str, body: &str) -> String {
    let message = format!("{}.{}.{}", timestamp, body.len(), body);
    hex::encode(signing_key().sign(message.as_bytes()).to_bytes())
}

#[test]
fn relay_key_from_hex() {
    let key = signing_key().verifying_key().to_bytes();
    let client = RelayClient::new(hex::encode(key)).unwrap();
    assert_eq!(client.get_verifying_key().as_slice(), &key[..]);
    let upper = RelayClient::new(hex::encode_upper(key)).unwrap();
    assert_eq!(upper.get_verifying_key().as_slice(), &key[..]);
}

#[test]
fn relay_key_not_hex() {
    assert!(matches!(RelayClient::new("zz".repeat(32)), Err(Error::Hex(_))));
    assert!(matches!(RelayClient::new("abc".to_string()), Err(Error::Hex(_))));
}

#[test]
fn relay_key_not_a_point() {
    // About half of all y values have no point; take the first such one.
    let mut bytes = [0u8; 32];
    while ed25519_dalek::VerifyingKey::from_bytes(&bytes).is_ok() {
        bytes[0] += 1;
    }
    assert!(matches!(RelayClient::new(hex::encode(bytes)), Err(Error::Ed25519(_))));
}

#[test]
fn good_signature_is_accepted() {
    let body = "{\"raw\":{\"topic\":\"t\",\"tag\":1,\"message\":\"m\"}}";
    let ts = "1700000000";
    let sig = sign(ts, body);
    assert!(matches!(signature_is_valid(&sig, ts, body, &relay()), Ok(true)));
    assert!(check_signature_headers(Some(&sig), Some(ts), body, &relay()).is_ok());
}

#[test]
fn body_length_is_counted_in_bytes() {
    let body = "héllo ✓";
    assert_eq!(body.len(), 10);
    let ts = "42";
    let sig = sign(ts, body);
    assert!(matches!(signature_is_valid(&sig, ts, body, &relay()), Ok(true)));
}

#[test]
fn altered_request_is_refused() {
    let ts = "1700000000";
    let sig = sign(ts, "body");
    assert!(matches!(signature_is_valid(&sig, ts, "bodY", &relay()), Ok(false)));
    assert!(matches!(signature_is_valid(&sig, "1700000001", "body", &relay()), Ok(false)));
    let refused = check_signature_headers(Some(&sig), Some(ts), "other", &relay()).unwrap_err();
    assert_eq!(refused.status_code, 401);
    assert_eq!(refused.status, ResponseStatus::Failure);
    assert!(refused.errors.as_ref().unwrap().is_empty());
    assert!(refused.fields.as_ref().unwrap().is_empty());
}

#[test]
fn signature_not_hex() {
    let r = signature_is_valid("not-hex", "1", "b", &relay()).unwrap_err();
    assert_eq!(r.status_code, 400);
    let fields = r.fields.unwrap();
    assert_eq!(fields.len(), 1);
    assert_eq!(fields[0].field, SIGNATURE_HEADER_NAME);
    assert_eq!(fields[0].description, "Signature is not valid hex");
    assert_eq!(fields[0].location, ErrorLocation::Header);
}

#[test]
fn signature_of_wrong_length() {
    let r = signature_is_valid("abcd", "1", "b", &relay()).unwrap_err();
    assert_eq!(r.status_code, 400);
    let fields = r.fields.unwrap();
    assert_eq!(fields[0].description, "Failed to parse signature from bytes");
}

#[test]
fn missing_headers() {
    let r = check_signature_headers(Some("ab"), None, "b", &relay()).unwrap_err();
    assert_eq!(r.status_code, 401);
    let f = r.fields.unwrap();
    assert_eq!(f.len(), 1);
    assert_eq!(f[0].field, TIMESTAMP_HEADER_NAME);
    assert_eq!(f[0].description, "Missing timestamp");

    let r = check_signature_headers(None, Some("1"), "b", &relay()).unwrap_err();
    let f = r.fields.unwrap();
    assert_eq!(f.len(), 1);
    assert_eq!(f[0].field, "X-Ed25519-Signature");
    assert_eq!(f[0].description, "Missing signature");

    let r = check_signature_headers(None, None, "b", &relay()).unwrap_err();
    assert_eq!(r.status_code, 401);
    let f = r.fields.unwrap();
    assert_eq!(f.len(), 2);
    assert_eq!(f[0].field, "X-Ed25519-Signature");
    assert_eq!(f[1].field, "X-Ed25519-Timestamp");
}

#[test]
fn other_signature_answers() {
    let r = rejected_body_response();
    assert_eq!(r.status_code, 401);
    assert_eq!(r.fields.unwrap()[0].description, "Missing timestamp");
    let r = unreadable_request_response();
    assert_eq!(r.status_code, 500);
    assert!(r.fields.unwrap().is_empty());
}

#[test]
fn rate_limit_admits_up_to_the_limit() {
    let limiter = RateLimiter::new(MAX_REQUESTS_PER_SEC);
    assert_eq!(limiter.max_requests(), 10);
    let mut count = 0u32;
    let mut admitted = 0;
    for _ in 0..25 {
        match limiter.check_request(count) {
            Some(c) => {
                count = c;
                admitted += 1;
            }
            None => {}
        }
    }
    assert_eq!(admitted, 10);
    assert_eq!(count, 10);
    assert_eq!(limiter.check_request(9), Some(10));
    assert_eq!(limiter.check_request(10), None);
    assert_eq!(limiter.refusal(), (429, "Too many requests"));
}

#[test]
fn rate_limit_of_zero_refuses_all() {
    let limiter = RateLimiter::new(0);
    assert_eq!(limiter.check_request(0), None);
}

#[test]
fn rate_limit_decisions() {
    let limiter = RateLimiter::new(2);
    assert_eq!(limiter.decide(None), RateDecision::Unlimited);
    assert_eq!(limiter.decide(Some(0)), RateDecision::Admit(1));
    assert_eq!(limiter.decide(Some(1)), RateDecision::Admit(2));
    assert_eq!(limiter.decide(Some(2)), RateDecision::Refuse);
}
