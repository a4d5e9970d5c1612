//! Client JWTs signed with the client's own Ed25519 key: splitting a token
//! into its parts, decoding a part, reading the issuer's `did:key` and checking
//! the signature.
use vstd::prelude::*;

verus! {

/// Separator of a JWT's parts.
pub const JWT_DELIMITER: char = '.';

/// The scheme, separator and method of a `did:key` issuer.
pub const DID_PREFIX: &'static str = "did";
pub const DID_DELIMITER: &'static str = ":";
pub const DID_METHOD: &'static str = "key";

/// Why a client JWT was refused.
#[derive(Debug, Clone, PartialEq, Eq)]
pub enum JwtVerificationError {
    Format,
    Encoding,
    Header,
    Claims,
    Signature,
    Serialization,
    IssuerPrefix,
    IssuerMethod,
    IssuerFormat,
    /// The issuer's key did not decode; holds the decoder's message.
    PubKey(String),
}

/// A client JWT as sent.
#[derive(Debug)]
pub struct Jwt(pub String);

/// What `data_encoding::BASE64URL_NOPAD.decode` returns for the input bytes
/// (`None` for an error).
pub uninterp spec fn base64url_nopad_decode(s: Seq<u8>) -> Option<Seq<u8>>;

#[verifier::external_type_specification]
#[verifier::external_body]
pub struct ExDataDecodeError(data_encoding::DecodeError);

/// Calls `BASE64URL_NOPAD.decode` of the data-encoding crate (which checks the
/// input length with `decode_len` and then decodes with `decode_mut`); the
/// result is named `base64url_nopad_decode`.
#[verifier::external_body]
fn base64url_decode(s: &[u8]) -> (res: Result<Vec<u8>, data_encoding::DecodeError>)
    ensures
        match res {
            Ok(v) => base64url_nopad_decode(s@) == Some(v@),
            Err(_) => base64url_nopad_decode(s@) is None,
        },
{
    data_encoding::BASE64URL_NOPAD.decode(s)
}

/// Whether `jsonwebtoken::crypto::verify` with algorithm EdDSA accepts the
/// base64url signature text over the message bytes for the DER key bytes.
pub uninterp spec fn eddsa_verifies(signature: Seq<char>, message: Seq<u8>, key_der: Seq<u8>) -> bool;

/// Calls `jsonwebtoken::crypto::verify` with `DecodingKey::from_ed_der` of the
/// key bytes and algorithm EdDSA; an error counts as a refusal. The answer is
/// named `eddsa_verifies`.
#[verifier::external_body]
fn eddsa_verify(signature: &str, message: &[u8], key_der: &[u8]) -> (ok: bool)
    ensures
        ok == eddsa_verifies(signature@, message@, key_der@),
{
    let key = jsonwebtoken::DecodingKey::from_ed_der(key_der);
    matches!(jsonwebtoken::crypto::verify(signature, message, &key, jsonwebtoken::Algorithm::EdDSA), Ok(true))
}

/// The characters of `s` before its first `.` (all of them if it has none).
pub open spec fn before_dot(s: Seq<char>) -> Seq<char>
    decreases s.len(),
{
    if s.len() == 0 {
        s
    } else if s[0] == JWT_DELIMITER {
        Seq::empty()
    } else {
        seq![s[0]] + before_dot(s.skip(1))
    }
}

/// The position of the last `.` of `s`, or -1.
pub open spec fn last_dot(s: Seq<char>) -> int
    decreases s.len(),
{
    if s.len() == 0 {
        -1
    } else if s.last() == JWT_DELIMITER {
        s.len() - 1
    } else {
        last_dot(s.drop_last())
    }
}

/// The header and claims parts of a token: the text before the first `.`, and
/// the text after it up to the next `.`; `None` for a token without a `.`.
pub open spec fn jwt_parts(s: Seq<char>) -> Option<(Seq<char>, Seq<char>)> {
    let h = before_dot(s);
    if h.len() == s.len() {
        None
    } else {
        Some((h, before_dot(s.skip(h.len() as int + 1))))
    }
}

/// The signature and signed message of a token: the text after its last `.`,
/// and the text before it; `None` for a token without a `.`.
pub open spec fn signed_parts(s: Seq<char>) -> Option<(Seq<char>, Seq<char>)> {
    let k = last_dot(s);
    if k < 0 {
        None
    } else {
        Some((s.skip(k + 1), s.take(k)))
    }
}

/// The key part of a `did:key:` issuer, or the first way it fails to be one.
pub open spec fn issuer_key(iss: Seq<char>) -> Result<Seq<char>, JwtVerificationError> {
    if !(iss.len() >= 3 && iss.take(3) == DID_PREFIX@) {
        Err(JwtVerificationError::IssuerPrefix)
    } else if !(iss.len() >= 4 && iss[3] == ':') {
        Err(JwtVerificationError::IssuerFormat)
    } else if !(iss.len() >= 7 && iss.subrange(4, 7) == DID_METHOD@) {
        Err(JwtVerificationError::IssuerMethod)
    } else if !(iss.len() >= 8 && iss[7] == ':') {
        Err(JwtVerificationError::IssuerFormat)
    } else {
        Ok(iss.skip(8))
    }
}

proof fn lemma_before_dot_at(s: Seq<char>, i: int)
    requires
        0 <= i <= s.len(),
        forall|k: int| 0 <= k < i ==> s[k] != JWT_DELIMITER,
        i == s.len() || s[i] == JWT_DELIMITER,
    ensures
        before_dot(s) == s.take(i),
    decreases s.len(),
{
    if s.len() > 0 && i > 0 {
        lemma_before_dot_at(s.skip(1), i - 1);
        assert(s.take(i) =~= seq![s[0]] + s.skip(1).take(i - 1));
    } else if s.len() > 0 {
        assert(s.take(i) =~= Seq::<char>::empty());
    } else {
        assert(s.take(i) =~= s);
    }
}

proof fn lemma_last_dot_at(s: Seq<char>, k: int)
    requires
        -1 <= k < s.len(),
        k >= 0 ==> s[k] == JWT_DELIMITER,
        forall|j: int| k < j < s.len() ==> s[j] != JWT_DELIMITER,
    ensures
        last_dot(s) == k,
    decreases s.len(),
{
    if s.len() > 0 && s.last() != JWT_DELIMITER {
        lemma_last_dot_at(s.drop_last(), k);
    }
}

/// Position of the first `.` of `s` at or after `from` (or `len`), by
/// characters.
fn dot_from(s: &str, len: usize, from: usize) -> (r: usize)
    requires
        len == s@.len(),
        from <= len,
    ensures
        from <= r <= len,
        forall|k: int| from <= k < r ==> s@[k] != JWT_DELIMITER,
        r == len || s@[r as int] == JWT_DELIMITER,
{
    let mut i = from;
    while i < len
        invariant
            len == s@.len(),
            from <= i <= len,
            forall|k: int| from <= k < i ==> s@[k] != JWT_DELIMITER,
        decreases len - i,
    {
        if s.get_char(i) == JWT_DELIMITER {
            return i;
        }
        i = i + 1;
    }
    i
}

impl Jwt {
    /// The header and claims parts, as `splitn(3, '.')` gives the first two
    /// pieces; a token without a `.` is `Format`.
    pub fn header_and_claims(&self) -> (res: Result<(String, String), JwtVerificationError>)
        ensures
            match jwt_parts(self.0@) {
                Some((h, c)) => res matches Ok((a, b)) && a@ == h && b@ == c,
                None => res == Err::<(String, String), JwtVerificationError>(JwtVerificationError::Format),
            },
    {
        let s = self.0.as_str();
        let len = s.unicode_len();
        let first = dot_from(s, len, 0);
        proof {
            lemma_before_dot_at(self.0@, first as int);
        }
        if first == len {
            return Err(JwtVerificationError::Format);
        }
        let second = dot_from(s, len, first + 1);
        proof {
            let rest = self.0@.skip(first + 1);
            lemma_before_dot_at(rest, second - first - 1);
            assert(rest.take(second - first - 1) =~= self.0@.subrange(first + 1, second as int));
        }
        let header = s.substring_char(0, first);
        let claims = s.substring_char(first + 1, second);
        assert(header@ =~= self.0@.take(first as int));
        Ok((String::from_str(header), String::from_str(claims)))
    }

    /// The signature and the signed message, as `rsplitn(2, '.')` gives them;
    /// a token without a `.` is `Format`.
    pub fn signature_and_message(&self) -> (res: Result<(String, String), JwtVerificationError>)
        ensures
            match signed_parts(self.0@) {
                Some((sig, msg)) => res matches Ok((a, b)) && a@ == sig && b@ == msg,
                None => res == Err::<(String, String), JwtVerificationError>(JwtVerificationError::Format),
            },
    {
        let s = self.0.as_str();
        let len = s.unicode_len();
        let mut i = len;
        while i > 0
            invariant
                s@ == self.0@,
                len == self.0@.len(),
                i <= len,
                forall|j: int| i <= j < len ==> self.0@[j] != JWT_DELIMITER,
            decreases i,
        {
            if s.get_char(i - 1) == JWT_DELIMITER {
                proof {
                    lemma_last_dot_at(self.0@, i - 1);
                }
                let signature = s.substring_char(i, len);
                let message = s.substring_char(0, i - 1);
                assert(signature@ =~= self.0@.skip(i as int));
                assert(message@ =~= self.0@.take(i - 1));
                return Ok((String::from_str(signature), String::from_str(message)));
            }
            i = i - 1;
        }
        proof {
            lemma_last_dot_at(self.0@, -1);
        }
        Err(JwtVerificationError::Format)
    }

    /// Checks the token's EdDSA signature over its signed message with the
    /// issuer's key (DER bytes). A token without a `.` is `Format`; a signature
    /// that does not verify is `Signature`.
    pub fn verify_signature(&self, key_der: &[u8]) -> (res: Result<(), JwtVerificationError>)
        ensures
            match signed_parts(self.0@) {
                None => res == Err::<(), JwtVerificationError>(JwtVerificationError::Format),
                Some((sig, msg)) => if eddsa_verifies(sig, encode_utf8_of(msg), key_der@) {
                    res is Ok
                } else {
                    res == Err::<(), JwtVerificationError>(JwtVerificationError::Signature)
                },
            },
    {
        let (signature, message) = match self.signature_and_message() {
            Ok(p) => p,
            Err(e) => {
                return Err(e);
            },
        };
        if eddsa_verify(signature.as_str(), message.as_str().as_bytes(), key_der) {
            Ok(())
        } else {
            Err(JwtVerificationError::Signature)
        }
    }
}

/// The UTF-8 bytes of a text.
pub open spec fn encode_utf8_of(s: Seq<char>) -> Seq<u8> {
    vstd::utf8::encode_utf8(s)
}

/// Decodes one part of a token from unpadded base64url; a part that does not
/// decode is `Encoding`.
pub fn decode_part(part: &str) -> (res: Result<Vec<u8>, JwtVerificationError>)
    ensures
        match base64url_nopad_decode(encode_utf8_of(part@)) {
            Some(b) => res matches Ok(v) && v@ == b,
            None => res == Err::<Vec<u8>, JwtVerificationError>(JwtVerificationError::Encoding),
        },
{
    match base64url_decode(part.as_bytes()) {
        Ok(v) => Ok(v),
        Err(_) => Err(JwtVerificationError::Encoding),
    }
}

/// The key part of the issuer `did:key:<key>`: an issuer not starting with
/// `did` is `IssuerPrefix`, a missing `:` is `IssuerFormat`, a method other
/// than `key` is `IssuerMethod`.
pub fn issuer_did_key(iss: &str) -> (res: Result<String, JwtVerificationError>)
    ensures
        match issuer_key(iss@) {
            Ok(k) => res matches Ok(r) && r@ == k,
            Err(e) => res == Err::<String, JwtVerificationError>(e),
        },
{
    let len = iss.unicode_len();
    let prefix = DID_PREFIX;
    let method = DID_METHOD;
    proof {
        reveal_strlit("did");
        reveal_strlit("key");
    }
    if len < 3 || !crate::text::str_eq(iss.substring_char(0, 3), prefix) {
        assert(len >= 3 ==> iss@.take(3) =~= iss@.subrange(0, 3));
        return Err(JwtVerificationError::IssuerPrefix);
    }
    assert(iss@.take(3) =~= iss@.subrange(0, 3));
    if len < 4 || iss.get_char(3) != ':' {
        return Err(JwtVerificationError::IssuerFormat);
    }
    if len < 7 || !crate::text::str_eq(iss.substring_char(4, 7), method) {
        return Err(JwtVerificationError::IssuerMethod);
    }
    if len < 8 || iss.get_char(7) != ':' {
        return Err(JwtVerificationError::IssuerFormat);
    }
    let key = iss.substring_char(8, len);
    assert(key@ =~= iss@.skip(8));
    Ok(String::from_str(key))
}

} // verus!
