//! The relay's Ed25519 public key, with which request signatures are checked.
use crate::codec::{
    ed25519_check_public_key, ed25519_public_key_valid, hex_decode, hex_decode_bytes,
};
use crate::error::Error;
use vstd::prelude::*;
use vstd::utf8::encode_utf8;

verus! {

/// Holds the relay's public key: 32 bytes that `VerifyingKey::from_bytes`
/// accepts.
pub struct RelayClient {
    public_key: Vec<u8>,
}

impl RelayClient {
    #[verifier::type_invariant]
    spec fn key_is_valid(self) -> bool {
        &&& self.public_key@.len() == 32
        &&& ed25519_public_key_valid(self.public_key@)
    }

    /// The 32 bytes of the key.
    pub closed spec fn key(self) -> Seq<u8> {
        self.public_key@
    }

    /// Reads the key from its hex text. Text that is not hex is `Hex`; 32
    /// bytes that are no curve point are `Ed25519`. (Hex text of another
    /// length than 64 digits is no key at all.)
    pub fn new(string_public_key: String) -> (res: Result<RelayClient, Error>)
        requires
            hex_decode(encode_utf8(string_public_key@)) matches Some(b) ==> b.len() == 32,
        ensures
            match hex_decode(encode_utf8(string_public_key@)) {
                None => res matches Err(Error::Hex(_)),
                Some(b) => if ed25519_public_key_valid(b) {
                    res matches Ok(c) && c.key() == b
                } else {
                    res matches Err(Error::Ed25519(_))
                },
            },
    {
        match Self::string_to_verifying_key(string_public_key.as_str()) {
            Ok(key) => Ok(RelayClient { public_key: key }),
            Err(e) => Err(e),
        }
    }

    /// The key's bytes.
    pub fn get_verifying_key(&self) -> (r: &Vec<u8>)
        ensures
            r@ == self.key(),
            r@.len() == 32,
            ed25519_public_key_valid(r@),
    {
        proof {
            use_type_invariant(self);
        }
        &self.public_key
    }

    /// Decodes hex text into the bytes of a valid public key.
    fn string_to_verifying_key(string_key: &str) -> (res: Result<Vec<u8>, Error>)
        requires
            hex_decode(encode_utf8(string_key@)) matches Some(b) ==> b.len() == 32,
        ensures
            match hex_decode(encode_utf8(string_key@)) {
                None => res matches Err(Error::Hex(_)),
                Some(b) => if ed25519_public_key_valid(b) {
                    res matches Ok(k) && k@ == b
                } else {
                    res matches Err(Error::Ed25519(_))
                },
            },
    {
        let key_bytes = match hex_decode_bytes(string_key.as_bytes()) {
            Ok(b) => b,
            Err(e) => {
                return Err(Error::Hex(e.to_string()));
            },
        };
        match ed25519_check_public_key(key_bytes.as_slice()) {
            Ok(()) => Ok(key_bytes),
            Err(e) => Err(Error::Ed25519(e.to_string())),
        }
    }
}

} // verus!
