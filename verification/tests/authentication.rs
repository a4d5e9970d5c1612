use data_encoding::BASE64URL_NOPAD;
use ed25519_dalek::{Signer, SigningKey};
use echo_server::authentication::{
    decode_part, issuer_did_key, Jwt, JwtVerificationError,
};

#[test]
fn jwt_parts() {
    let jwt = Jwt("aGVhZGVy.Y2xhaW1z.c2ln".to_string());
    let (h, c) = jwt.header_and_claims().unwrap();
    assert_eq!(h, "aGVhZGVy");
    assert_eq!(c, "Y2xhaW1z");
    let (sig, msg) = jwt.signature_and_message().unwrap();
    assert_eq!(sig, "c2ln");
    assert_eq!(msg, "aGVhZGVy.Y2xhaW1z");

    let two = Jwt("a.b".to_string());
    assert_eq!(two.header_and_claims().unwrap(), ("a".to_string(), "b".to_string()));
    let four = Jwt("a.b.c.d".to_string());
    assert_eq!(four.header_and_claims().unwrap(), ("a".to_string(), "b".to_string()));
    assert_eq!(four.signature_and_message().unwrap(), ("d".to_string(), "a.b.c".to_string()));

    let none = Jwt("nodots".to_string());
    assert_eq!(none.header_and_claims(), Err(JwtVerificationError::Format));
    assert_eq!(none.signature_and_message(), Err(JwtVerificationError::Format));
}

#[test]
fn jwt_part_decoding() {
    assert_eq!(decode_part("aGVhZGVy").unwrap(), b"header".to_vec());
    assert_eq!(decode_part("aGVhZGVy=="), Err(JwtVerificationError::Encoding));
    assert_eq!(decode_part("a"), Err(JwtVerificationError::Encoding));
}

#[test]
fn jwt_issuer() {
    assert_eq!(issuer_did_key("did:key:z6MkKey").unwrap(), "z6MkKey");
    assert_eq!(issuer_did_key("dud:key:z6Mk"), Err(JwtVerificationError::IssuerPrefix));
    assert_eq!(issuer_did_key("di"), Err(JwtVerificationError::IssuerPrefix));
    assert_eq!(issuer_did_key("did"), Err(JwtVerificationError::IssuerFormat));
    assert_eq!(issuer_did_key("did-key:z6Mk"), Err(JwtVerificationError::IssuerFormat));
    assert_eq!(issuer_did_key("did:pkh:z6Mk"), Err(JwtVerificationError::IssuerMethod));
    assert_eq!(issuer_did_key("did:key"), Err(JwtVerificationError::IssuerFormat));
    assert_eq!(issuer_did_key("did:key-z6Mk"), Err(JwtVerificationError::IssuerFormat));
    assert_eq!(issuer_did_key("did:key:").unwrap(), "");
}

#[test]
fn jwt_signature() {
    let key = SigningKey::from_bytes(&[9u8; 32]);
    let message = "eyJhbGciOiJFZERTQSJ9.eyJpc3MiOiJ4In0";
    let sig = BASE64URL_NOPAD.encode(&key.sign(message.as_bytes()).to_bytes());
    let public = key.verifying_key().to_bytes();
    let jwt = Jwt(format!("{}.{}", message, sig));
    assert_eq!(jwt.verify_signature(&public), Ok(()));
    let other = SigningKey::from_bytes(&[8u8; 32]).verifying_key().to_bytes();
    assert_eq!(jwt.verify_signature(&other), Err(JwtVerificationError::Signature));
    let tampered = Jwt(format!("{}x.{}", message, sig));
    assert_eq!(tampered.verify_signature(&public), Err(JwtVerificationError::Signature));
    assert_eq!(Jwt("x".to_string()).verify_signature(&public), Err(JwtVerificationError::Format));
}
