//! The notification text carried, base64 encoded, in a legacy payload's blob.
use crate::codec::{base64_decode_str, base64_standard_decode};
use crate::error::Error;
use vstd::prelude::*;
use vstd::utf8::encode_utf8;

verus! {

pub type Flag = u32;

/// Bit of a payload's flags that marks its blob as encrypted.
pub const ENCRYPTED_FLAG: Flag = 1;

/// The notification text of a plain (not encrypted) legacy payload.
#[derive(Debug, Clone, PartialEq, Eq)]
pub struct DecryptedPayloadBlob {
    pub title: String,
    pub body: String,
    pub image: Option<String>,
    pub url: Option<String>,
}

/// The JSON bytes of a plain blob: the blob decoded as standard base64. A blob
/// that does not decode is `DecryptedNotificationDecode`.
pub fn blob_json_bytes(blob_string: &str) -> (res: Result<Vec<u8>, Error>)
    ensures
        match base64_standard_decode(encode_utf8(blob_string@)) {
            Some(bytes) => res matches Ok(v) && v@ == bytes,
            None => res matches Err(Error::DecryptedNotificationDecode(_)),
        },
{
    match base64_decode_str(blob_string) {
        Ok(v) => Ok(v),
        Err(e) => Err(Error::DecryptedNotificationDecode(e.to_string())),
    }
}

} // verus!
