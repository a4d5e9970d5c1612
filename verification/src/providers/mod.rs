//! Push messages and the push providers that deliver them.
use crate::blob::ENCRYPTED_FLAG;
use crate::error::Error;
use crate::text::{
    all_ascii, ascii_lower, lemma_ascii_lower_idempotent, str_eq, str_to_lowercase, unicode_lowercase,
};
use vstd::prelude::*;

pub mod apns;
pub mod fcm;
pub mod fcm_v1;
pub mod noop;

verus! {

/// A message to push, in one of the two shapes the relay sends.
#[derive(Clone, Debug, PartialEq, Eq)]
pub enum PushMessage {
    LegacyPushMessage(LegacyPushMessage),
    RawPushMessage(RawPushMessage),
}

/// The legacy shape: an id and a payload.
#[derive(Clone, Debug, PartialEq, Eq)]
pub struct LegacyPushMessage {
    pub id: String,
    pub payload: MessagePayload,
}

/// Payload of a legacy message.
#[derive(Clone, Debug, PartialEq, Eq)]
pub struct MessagePayload {
    pub topic: String,
    pub flags: u32,
    pub blob: String,
}

/// The raw shape, delivered as is to the wallet.
#[derive(Clone, Debug, PartialEq, Eq)]
pub struct RawPushMessage {
    /// Topic is used by the SDKs to decrypt encrypted payloads on the client side.
    pub topic: String,
    /// Filtering tag.
    pub tag: u32,
    /// The payload message.
    pub message: String,
}

impl RawPushMessage {
    /// A copy of the message.
    pub fn clone_raw(&self) -> (r: RawPushMessage)
        ensures
            r == *self,
    {
        RawPushMessage { topic: self.topic.clone(), tag: self.tag, message: self.message.clone() }
    }
}

impl LegacyPushMessage {
    /// A copy of the message.
    pub fn clone_legacy(&self) -> (r: LegacyPushMessage)
        ensures
            r == *self,
    {
        LegacyPushMessage {
            id: self.id.clone(),
            payload: MessagePayload {
                topic: self.payload.topic.clone(),
                flags: self.payload.flags,
                blob: self.payload.blob.clone(),
            },
        }
    }
}

impl MessagePayload {
    /// The payload's blob is encrypted: the encrypted bit is set in its flags.
    pub open spec fn encrypted(&self) -> bool {
        self.flags & ENCRYPTED_FLAG == ENCRYPTED_FLAG
    }

    pub fn is_encrypted(&self) -> (r: bool)
        ensures
            r == self.encrypted(),
    {
        (self.flags & ENCRYPTED_FLAG) == ENCRYPTED_FLAG
    }
}

impl PushMessage {
    /// A copy of the message.
    pub fn clone_message(&self) -> (r: PushMessage)
        ensures
            r == *self,
    {
        match self {
            PushMessage::RawPushMessage(m) => PushMessage::RawPushMessage(m.clone_raw()),
            PushMessage::LegacyPushMessage(m) => PushMessage::LegacyPushMessage(m.clone_legacy()),
        }
    }

    pub open spec fn topic_of(&self) -> Seq<char> {
        match self {
            PushMessage::RawPushMessage(m) => m.topic@,
            PushMessage::LegacyPushMessage(m) => m.payload.topic@,
        }
    }

    /// The topic the message is addressed to.
    pub fn topic(&self) -> (r: String)
        ensures
            r@ == self.topic_of(),
    {
        match self {
            PushMessage::RawPushMessage(m) => m.topic.clone(),
            PushMessage::LegacyPushMessage(m) => m.payload.topic.clone(),
        }
    }

    /// The message's id: a legacy message carries its own; for a raw message it
    /// is `raw_message_id`, the id the relay derives from the raw message text.
    pub fn message_id(&self, raw_message_id: &str) -> (r: String)
        ensures
            r@ == (match self {
                PushMessage::RawPushMessage(_) => raw_message_id@,
                PushMessage::LegacyPushMessage(m) => m.id@,
            }),
    {
        match self {
            PushMessage::RawPushMessage(_) => String::from_str(raw_message_id),
            PushMessage::LegacyPushMessage(m) => m.id.clone(),
        }
    }
}

/// The kinds of push provider a client can register with.
#[derive(Clone, Copy, Debug, PartialEq, Eq, Structural)]
pub enum ProviderKind {
    Apns,
    ApnsSandbox,
    Fcm,
    /// Delivers nothing and keeps what it is given; offered by every
    /// deployment of this library (a development aid).
    Noop,
}

pub const PROVIDER_APNS: &'static str = "apns";
pub const PROVIDER_APNS_SANDBOX: &'static str = "apns-sandbox";
pub const PROVIDER_FCM: &'static str = "fcm";
pub const PROVIDER_FCM_V1: &'static str = "fcm_v1";
pub const PROVIDER_NOOP: &'static str = "noop";

impl ProviderKind {
    pub open spec fn name(self) -> Seq<char> {
        match self {
            ProviderKind::Apns => PROVIDER_APNS@,
            ProviderKind::ApnsSandbox => PROVIDER_APNS_SANDBOX@,
            ProviderKind::Fcm => PROVIDER_FCM@,
            ProviderKind::Noop => PROVIDER_NOOP@,
        }
    }

    /// The kind whose name is `s` (already folded to lower case).
    pub open spec fn from_name(s: Seq<char>) -> Option<ProviderKind> {
        if s == PROVIDER_APNS@ {
            Some(ProviderKind::Apns)
        } else if s == PROVIDER_APNS_SANDBOX@ {
            Some(ProviderKind::ApnsSandbox)
        } else if s == PROVIDER_FCM@ {
            Some(ProviderKind::Fcm)
        } else if s == PROVIDER_NOOP@ {
            Some(ProviderKind::Noop)
        } else {
            None
        }
    }

    pub fn as_str(&self) -> (s: &'static str)
        ensures
            s@ == self.name(),
    {
        match self {
            ProviderKind::Apns => PROVIDER_APNS,
            ProviderKind::ApnsSandbox => PROVIDER_APNS_SANDBOX,
            ProviderKind::Fcm => PROVIDER_FCM,
            ProviderKind::Noop => PROVIDER_NOOP,
        }
    }

    /// Reads a provider name, ignoring case; an unknown name is
    /// `ProviderNotFound` with the name as given.
    pub fn try_from(value: &str) -> (res: Result<ProviderKind, Error>)
        ensures
            match ProviderKind::from_name(unicode_lowercase(value@)) {
                Some(k) => res == Ok::<ProviderKind, Error>(k),
                None => res matches Err(Error::ProviderNotFound(v)) && v@ == value@,
            },
            all_ascii(value@) ==> match ProviderKind::from_name(ascii_lower(value@)) {
                Some(k) => res == Ok::<ProviderKind, Error>(k),
                None => res is Err,
            },
    {
        let lower = str_to_lowercase(value);
        if str_eq(lower.as_str(), PROVIDER_APNS) {
            Ok(ProviderKind::Apns)
        } else if str_eq(lower.as_str(), PROVIDER_APNS_SANDBOX) {
            Ok(ProviderKind::ApnsSandbox)
        } else if str_eq(lower.as_str(), PROVIDER_FCM) {
            Ok(ProviderKind::Fcm)
        } else if str_eq(lower.as_str(), PROVIDER_NOOP) {
            Ok(ProviderKind::Noop)
        } else {
            Err(Error::ProviderNotFound(String::from_str(value)))
        }
    }
}

/// A provider's name reads back as that provider.
pub proof fn lemma_provider_kind_name_round_trip(k: ProviderKind)
    ensures
        all_ascii(k.name()),
        ascii_lower(k.name()) == k.name(),
        ProviderKind::from_name(k.name()) == Some(k),
{
    reveal_strlit("apns");
    reveal_strlit("apns-sandbox");
    reveal_strlit("fcm");
    reveal_strlit("noop");
    assert(ascii_lower(k.name()) =~= k.name());
    assert(PROVIDER_APNS@.len() == 4 && PROVIDER_APNS_SANDBOX@.len() == 12);
    assert(PROVIDER_FCM@.len() == 3 && PROVIDER_NOOP@.len() == 4);
    assert(PROVIDER_APNS@[0] != PROVIDER_NOOP@[0]);
    assert(PROVIDER_APNS@ != PROVIDER_APNS_SANDBOX@);
    assert(PROVIDER_APNS@ != PROVIDER_FCM@);
    assert(PROVIDER_APNS@ != PROVIDER_NOOP@);
    assert(PROVIDER_APNS_SANDBOX@ != PROVIDER_FCM@);
    assert(PROVIDER_APNS_SANDBOX@ != PROVIDER_NOOP@);
    assert(PROVIDER_FCM@ != PROVIDER_NOOP@);
}


/// Reading a provider name ignores ASCII case: for ASCII text, its lower-case
/// form is ASCII and reads as the text itself does (`try_from` decides on the
/// folded text), and any spelling of a provider's name in any case reads as
/// that provider.
pub proof fn lemma_provider_kind_ignores_case(s: Seq<char>, k: ProviderKind)
    requires
        all_ascii(s),
    ensures
        all_ascii(ascii_lower(s)),
        ProviderKind::from_name(ascii_lower(ascii_lower(s))) == ProviderKind::from_name(ascii_lower(s)),
        ascii_lower(s) == k.name() ==> ProviderKind::from_name(ascii_lower(s)) == Some(k),
{
    lemma_ascii_lower_idempotent(s);
    lemma_provider_kind_name_round_trip(k);
}

} // verus!
