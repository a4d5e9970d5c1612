//! Encodings and signature checks that come from outside crates: base64
//! (standard alphabet, padded), hex and Ed25519.
use base64::Engine as _;
use ed25519_dalek::Verifier as _;
use vstd::prelude::*;
use vstd::utf8::encode_utf8;

verus! {

// ---------------------------------------------------------------------------
// hex
// ---------------------------------------------------------------------------

/// Value of one hex digit (either case), if `c` is one.
pub open spec fn hex_digit_value(c: u8) -> Option<u8> {
    if 48 <= c <= 57 {
        Some((c - 48) as u8)
    } else if 65 <= c <= 70 {
        Some((c - 55) as u8)
    } else if 97 <= c <= 102 {
        Some((c - 87) as u8)
    } else {
        None
    }
}

/// The bytes that `hex::decode` gives for the input bytes `s`: `None` when the
/// length is odd or a byte is not a hex digit, else one byte per pair of digits.
pub open spec fn hex_decode(s: Seq<u8>) -> Option<Seq<u8>> {
    if s.len() % 2 != 0 {
        None
    } else if exists|i: int| 0 <= i < s.len() && hex_digit_value(#[trigger] s[i]) is None {
        None
    } else {
        Some(
            Seq::new(
                s.len() / 2,
                |i: int|
                    (hex_digit_value(s[2 * i])->0 * 16 + hex_digit_value(s[2 * i + 1])->0) as u8,
            ),
        )
    }
}

#[verifier::external_type_specification]
#[verifier::external_body]
pub struct ExFromHexError(hex::FromHexError);

/// Calls `hex::decode`. As its source shows, it fails on an odd length or on a
/// byte that is not a hex digit, and otherwise turns each pair of digits into
/// one byte, high digit first.
#[verifier::external_body]
pub(crate) fn hex_decode_bytes(s: &[u8]) -> (res: Result<Vec<u8>, hex::FromHexError>)
    ensures
        match res {
            Ok(v) => hex_decode(s@) == Some(v@),
            Err(_) => hex_decode(s@) is None,
        },
{
    hex::decode(s)
}

// ---------------------------------------------------------------------------
// base64 (standard alphabet with padding)
// ---------------------------------------------------------------------------

/// What `base64::engine::general_purpose::STANDARD.decode` returns for the
/// input bytes (`None` for a decoding error).
pub uninterp spec fn base64_standard_decode(s: Seq<u8>) -> Option<Seq<u8>>;

/// What `base64::engine::general_purpose::STANDARD.encode` returns for the
/// input bytes.
pub uninterp spec fn base64_standard_encode(b: Seq<u8>) -> Seq<char>;

#[verifier::external_type_specification]
#[verifier::external_body]
pub struct ExDecodeError(base64::DecodeError);

/// Calls `STANDARD.decode` of the base64 crate on the bytes of `s`; the result
/// is named `base64_standard_decode` of those bytes. Nothing more is stated of
/// the decoding itself.
#[verifier::external_body]
pub(crate) fn base64_decode_str(s: &str) -> (res: Result<Vec<u8>, base64::DecodeError>)
    ensures
        match res {
            Ok(v) => base64_standard_decode(encode_utf8(s@)) == Some(v@),
            Err(_) => base64_standard_decode(encode_utf8(s@)) is None,
        },
{
    base64::engine::general_purpose::STANDARD.decode(s)
}

/// Calls `STANDARD.encode` of the base64 crate; the result is named
/// `base64_standard_encode` of the input. The second clause is the crate's
/// round trip: decoding the text that `encode` produced gives the input back.
#[verifier::external_body]
pub(crate) fn base64_encode_bytes(b: &[u8]) -> (res: String)
    ensures
        res@ == base64_standard_encode(b@),
        base64_standard_decode(encode_utf8(res@)) == Some(b@),
{
    base64::engine::general_purpose::STANDARD.encode(b)
}

// ---------------------------------------------------------------------------
// Ed25519
// ---------------------------------------------------------------------------

/// Whether `VerifyingKey::from_bytes` accepts these 32 bytes (they decompress to
/// a curve point).
pub uninterp spec fn ed25519_public_key_valid(key: Seq<u8>) -> bool;

/// Whether `Verifier::verify` of the key made from `key` accepts the 64-byte
/// `signature` over `message`.
pub uninterp spec fn ed25519_verifies(key: Seq<u8>, message: Seq<u8>, signature: Seq<u8>) -> bool;

#[verifier::external_type_specification]
#[verifier::external_body]
pub struct ExSignatureError(ed25519_dalek::SignatureError);

/// Calls `VerifyingKey::from_bytes` of ed25519-dalek on 32 bytes and keeps only
/// whether it succeeded, or its error. Success is named
/// `ed25519_public_key_valid`.
#[verifier::external_body]
pub(crate) fn ed25519_check_public_key(key: &[u8]) -> (res: Result<(), ed25519_dalek::SignatureError>)
    requires
        key@.len() == 32,
    ensures
        res is Ok <==> ed25519_public_key_valid(key@),
{
    match ed25519_dalek::VerifyingKey::from_bytes(<&[u8; 32]>::try_from(key).unwrap()) {
        Ok(_) => Ok(()),
        Err(e) => Err(e),
    }
}

/// Calls `Signature::from_slice` of the ed25519 crate and keeps only whether it
/// succeeded, or its error. As its source shows, it accepts exactly the slices
/// of 64 bytes.
#[verifier::external_body]
pub(crate) fn ed25519_parse_signature(bytes: &[u8]) -> (res: Result<(), ed25519_dalek::SignatureError>)
    ensures
        res is Ok <==> bytes@.len() == 64,
{
    match ed25519_dalek::Signature::from_slice(bytes) {
        Ok(_) => Ok(()),
        Err(e) => Err(e),
    }
}

/// Calls `Verifier::verify` of ed25519-dalek: the key is made from the 32 bytes
/// `key` with `VerifyingKey::from_bytes` (an invalid key verifies nothing) and
/// the signature from its 64 bytes with `Signature::from_bytes`. The answer is
/// named `ed25519_verifies`.
#[verifier::external_body]
pub(crate) fn ed25519_verify(key: &[u8], message: &[u8], signature: &[u8]) -> (ok: bool)
    requires
        key@.len() == 32,
        signature@.len() == 64,
    ensures
        ok == ed25519_verifies(key@, message@, signature@),
        !ed25519_public_key_valid(key@) ==> !ok,
{
    let sig = ed25519_dalek::Signature::from_bytes(<&[u8; 64]>::try_from(signature).unwrap());
    match ed25519_dalek::VerifyingKey::from_bytes(<&[u8; 32]>::try_from(key).unwrap()) {
        Ok(k) => k.verify(message, &sig).is_ok(),
        Err(_) => false,
    }
}

} // verus!
