//! The FCM v1 provider, authenticated by a service account: the message it
//! builds for each kind of push message, and how it reads FCM's answer.
use crate::blob::DecryptedPayloadBlob;
use crate::error::Error;
use crate::providers::{LegacyPushMessage, MessagePayload, PushMessage, RawPushMessage};
use crate::text::{decimal, decimal_string};
use vstd::prelude::*;

verus! {

/// Sends notifications through FCM v1 with the credentials of one service
/// account (its JSON key). The HTTP client that does the sending is built from
/// them by the service.
pub struct FcmV1Provider {
    credentials: String,
}

/// A key and its value in a message's `data` (FCM wants strings for both).
pub type DataField = (String, String);

/// The notification shown by the device.
pub struct FcmV1Notification {
    pub title: String,
    pub body: String,
}

/// The message sent to FCM for one device token.
pub struct FcmV1Message {
    pub token: String,
    pub data: Vec<DataField>,
    pub notification: Option<FcmV1Notification>,
    /// Android delivery priority `HIGH`.
    pub android_high_priority: bool,
    /// APNs payload `{"aps": {"content-available": 1}}`.
    pub apns_content_available: bool,
}

pub open spec fn field_view(f: DataField) -> (Seq<char>, Seq<char>) {
    (f.0@, f.1@)
}

pub open spec fn fields_view(v: Seq<DataField>) -> Seq<(Seq<char>, Seq<char>)> {
    v.map_values(|f: DataField| field_view(f))
}

/// The `data` of the message for a push message: topic, tag and message of a
/// raw one; topic, flags and blob of a legacy one. Numbers are in decimal.
pub open spec fn message_data(body: PushMessage) -> Seq<(Seq<char>, Seq<char>)> {
    match body {
        PushMessage::RawPushMessage(m) => seq![
            ("topic"@, m.topic@),
            ("tag"@, decimal(m.tag as nat)),
            ("message"@, m.message@),
        ],
        PushMessage::LegacyPushMessage(m) => seq![
            ("topic"@, m.payload.topic@),
            ("flags"@, decimal(m.payload.flags as nat)),
            ("blob"@, m.payload.blob@),
        ],
    }
}

/// The message is a legacy one whose blob is not encrypted: it is shown as a
/// notification, whose text comes from the decoded blob.
pub open spec fn is_plain(body: PushMessage) -> bool {
    body matches PushMessage::LegacyPushMessage(m) && !m.payload.encrypted()
}

/// The reasons FCM gives for refusing a message, as far as the provider tells
/// them apart.
pub enum FcmV1Reason {
    MissingRegistration,
    InvalidRegistration,
    NotRegistered,
    InvalidApnsCredential,
    /// Any other reason, by its name.
    Other(String),
}

/// FCM's answer to a message, or the text of the failure that kept it from
/// answering.
pub enum FcmV1Answer {
    /// FCM took the message; its error reason, if it refused it.
    Response(Option<FcmV1Reason>),
    /// The send failed before an answer came.
    Failed(String),
}

/// What a refusal by FCM is reported as.
pub open spec fn refusal_error(reason: FcmV1Reason, e: Error) -> bool {
    match reason {
        FcmV1Reason::MissingRegistration => e matches Error::BadDeviceToken(m) && m@
            == "Missing registration for token"@,
        FcmV1Reason::InvalidRegistration => e matches Error::BadDeviceToken(m) && m@
            == "Invalid token registration"@,
        FcmV1Reason::NotRegistered => e matches Error::BadDeviceToken(m) && m@ == "Token is not registered"@,
        FcmV1Reason::InvalidApnsCredential => e == Error::BadApnsCredentials,
        FcmV1Reason::Other(name) => e == Error::FcmV1Response(name),
    }
}

fn field(key: &str, value: String) -> (f: DataField)
    ensures
        field_view(f) == (key@, value@),
{
    (String::from_str(key), value)
}

impl FcmV1Provider {
    pub fn new(credentials: String) -> (p: FcmV1Provider)
        ensures
            p.credentials() == credentials,
    {
        FcmV1Provider { credentials }
    }

    pub closed spec fn credentials(&self) -> String {
        self.credentials
    }

    /// The service account key the provider sends with.
    pub fn service_account_key(&self) -> (k: &String)
        ensures
            *k == self.credentials(),
    {
        &self.credentials
    }

    /// The message for `body` to the device `token`. A raw message and an
    /// encrypted legacy one travel as data only, with high priority on Android
    /// and as background content on iOS; a plain legacy message also carries a
    /// notification with the title and body of its decoded blob `plain_blob`.
    pub fn build_message(&self, token: String, body: &PushMessage, plain_blob: Option<&DecryptedPayloadBlob>) -> (m:
        FcmV1Message)
        requires
            is_plain(*body) <==> plain_blob is Some,
        ensures
            m.token == token,
            fields_view(m.data@) == message_data(*body),
            is_plain(*body) ==> {
                &&& m.notification matches Some(n) && n.title == plain_blob->0.title && n.body
                    == plain_blob->0.body
                &&& !m.android_high_priority
                &&& !m.apns_content_available
            },
            !is_plain(*body) ==> {
                &&& m.notification is None
                &&& m.android_high_priority
                &&& m.apns_content_available
            },
    {
        let mut data: Vec<DataField> = Vec::new();
        match body {
            PushMessage::RawPushMessage(raw) => {
                let RawPushMessage { topic, tag, message } = raw;
                data.push(field("topic", topic.clone()));
                data.push(field("tag", decimal_string(*tag as usize)));
                data.push(field("message", message.clone()));
            },
            PushMessage::LegacyPushMessage(legacy) => {
                let LegacyPushMessage { id: _, payload } = legacy;
                let MessagePayload { topic, flags, blob } = payload;
                data.push(field("topic", topic.clone()));
                data.push(field("flags", decimal_string(*flags as usize)));
                data.push(field("blob", blob.clone()));
            },
        }
        proof {
            reveal_strlit("topic");
            reveal_strlit("tag");
            reveal_strlit("message");
            reveal_strlit("flags");
            reveal_strlit("blob");
        }
        assert(fields_view(data@) =~= message_data(*body));
        match plain_blob {
            Some(b) => FcmV1Message {
                token,
                data,
                notification: Some(FcmV1Notification { title: b.title.clone(), body: b.body.clone() }),
                android_high_priority: false,
                apns_content_available: false,
            },
            None => FcmV1Message {
                token,
                data,
                notification: None,
                android_high_priority: true,
                apns_content_available: true,
            },
        }
    }

    /// Reads FCM's answer to a message: a response without an error reason is
    /// a delivery; a refusal for the token is `BadDeviceToken`, one for the
    /// APNs credentials `BadApnsCredentials`, any other `FcmV1Response`; a
    /// send that failed before FCM answered is `FcmV1` with the failure's text.
    pub fn read_answer(&self, answer: FcmV1Answer) -> (res: Result<(), Error>)
        ensures
            match answer {
                FcmV1Answer::Response(None) => res is Ok,
                FcmV1Answer::Response(Some(reason)) => res matches Err(e) && refusal_error(reason, e),
                FcmV1Answer::Failed(t) => res == Err::<(), Error>(Error::FcmV1(t)),
            },
    {
        match answer {
            FcmV1Answer::Response(None) => Ok(()),
            FcmV1Answer::Response(Some(FcmV1Reason::MissingRegistration)) => Err(
                Error::BadDeviceToken(String::from_str("Missing registration for token")),
            ),
            FcmV1Answer::Response(Some(FcmV1Reason::InvalidRegistration)) => Err(
                Error::BadDeviceToken(String::from_str("Invalid token registration")),
            ),
            FcmV1Answer::Response(Some(FcmV1Reason::NotRegistered)) => Err(
                Error::BadDeviceToken(String::from_str("Token is not registered")),
            ),
            FcmV1Answer::Response(Some(FcmV1Reason::InvalidApnsCredential)) => Err(Error::BadApnsCredentials),
            FcmV1Answer::Response(Some(FcmV1Reason::Other(name))) => Err(Error::FcmV1Response(name)),
            FcmV1Answer::Failed(t) => Err(Error::FcmV1(t)),
        }
    }
}

} // verus!
