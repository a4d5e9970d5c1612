//! The APNs provider: the notification it builds for a legacy payload, and how
//! it reads Apple's answer.
use crate::blob::DecryptedPayloadBlob;
use crate::error::Error;
use crate::providers::fcm_v1::{field_view, fields_view, DataField};
use crate::providers::MessagePayload;
use vstd::prelude::*;

verus! {

/// Title of the notification that stands for an encrypted payload.
pub const ENCRYPTED_TITLE: &'static str = "You have new notifications. Open to view";

/// Sends notifications through APNs for one app (its topic). The APNs client,
/// made from a certificate or a signing key, belongs to the service.
pub struct ApnsProvider {
    topic: String,
}

/// The notification sent to APNs for one device token. It is always sent as
/// mutable, background-available content.
pub struct ApnsNotification {
    pub token: String,
    /// The `apns-topic` option.
    pub topic: String,
    pub title: String,
    pub body: Option<String>,
    /// Custom data added to the payload, in order.
    pub custom_data: Vec<DataField>,
}

/// The reasons APNs gives for refusing a notification, as far as the provider
/// tells them apart.
pub enum ApnsReason {
    BadDeviceToken,
    DeviceTokenNotForTopic,
    Unregistered,
    /// Any other reason, by its name.
    Other(String),
}

/// Apple's answer to a notification, with the text of whatever went wrong.
pub enum ApnsAnswer {
    Delivered,
    /// An answer that was taken as a success but carries an error.
    UnexpectedError(String),
    /// A refusal with a reason.
    Refused(ApnsReason),
    /// A refusal without a reason.
    RefusedWithoutReason(String),
    /// The request failed before an answer came.
    Failed(String),
}

/// What an answer is reported as.
pub open spec fn answer_result(answer: ApnsAnswer, res: Result<(), Error>) -> bool {
    match answer {
        ApnsAnswer::Delivered => res is Ok,
        ApnsAnswer::UnexpectedError(t) => res == Err::<(), Error>(Error::Apns(t)),
        ApnsAnswer::RefusedWithoutReason(t) => res == Err::<(), Error>(Error::Apns(t)),
        ApnsAnswer::Failed(t) => res == Err::<(), Error>(Error::Apns(t)),
        ApnsAnswer::Refused(ApnsReason::BadDeviceToken) => res matches Err(Error::BadDeviceToken(m)) && m@
            == "Bad device token"@,
        ApnsAnswer::Refused(ApnsReason::DeviceTokenNotForTopic) => res matches Err(
            Error::BadDeviceToken(m),
        ) && m@ == "The device token does not match the specified topic"@,
        ApnsAnswer::Refused(ApnsReason::Unregistered) => res matches Err(Error::BadDeviceToken(m)) && m@
            == "The device token is inactive for the specified topic"@,
        ApnsAnswer::Refused(ApnsReason::Other(name)) => res == Err::<(), Error>(Error::ApnsResponse(name)),
    }
}

fn custom(key: &str, value: String) -> (f: DataField)
    ensures
        field_view(f) == (key@, value@),
{
    (String::from_str(key), value)
}

impl ApnsProvider {
    pub fn new(topic: String) -> (p: ApnsProvider)
        ensures
            p.topic() == topic,
    {
        ApnsProvider { topic }
    }

    pub closed spec fn topic(&self) -> String {
        self.topic
    }

    /// The app's topic that notifications are sent for.
    pub fn apns_topic(&self) -> (t: &String)
        ensures
            *t == self.topic(),
    {
        &self.topic
    }

    /// The notification for `payload` to the device `token`. An encrypted
    /// payload is announced with a fixed title and carries its topic and blob;
    /// a plain one shows the title and body of its decoded blob `plain_blob`
    /// and carries its topic.
    pub fn build_notification(&self, token: String, payload: &MessagePayload, plain_blob: Option<&DecryptedPayloadBlob>) -> (n:
        ApnsNotification)
        requires
            !payload.encrypted() <==> plain_blob is Some,
        ensures
            n.token == token,
            n.topic == self.topic(),
            payload.encrypted() ==> {
                &&& n.title@ == ENCRYPTED_TITLE@
                &&& n.body is None
                &&& fields_view(n.custom_data@) == seq![("topic"@, payload.topic@), ("blob"@, payload.blob@)]
            },
            !payload.encrypted() ==> {
                &&& n.title == plain_blob->0.title
                &&& n.body == Some(plain_blob->0.body)
                &&& fields_view(n.custom_data@) == seq![("topic"@, payload.topic@)]
            },
    {
        let mut custom_data: Vec<DataField> = Vec::new();
        custom_data.push(custom("topic", payload.topic.clone()));
        match plain_blob {
            None => {
                custom_data.push(custom("blob", payload.blob.clone()));
                assert(fields_view(custom_data@) =~= seq![("topic"@, payload.topic@), ("blob"@, payload.blob@)]);
                ApnsNotification {
                    token,
                    topic: self.topic.clone(),
                    title: String::from_str(ENCRYPTED_TITLE),
                    body: None,
                    custom_data,
                }
            },
            Some(b) => {
                assert(fields_view(custom_data@) =~= seq![("topic"@, payload.topic@)]);
                ApnsNotification {
                    token,
                    topic: self.topic.clone(),
                    title: b.title.clone(),
                    body: Some(b.body.clone()),
                    custom_data,
                }
            },
        }
    }

    /// Reads Apple's answer: only a delivery is a success; a refusal for the
    /// device token is `BadDeviceToken`, one for another reason
    /// `ApnsResponse`, anything else `Apns`.
    pub fn read_answer(&self, answer: ApnsAnswer) -> (res: Result<(), Error>)
        ensures
            answer_result(answer, res),
    {
        match answer {
            ApnsAnswer::Delivered => Ok(()),
            ApnsAnswer::UnexpectedError(t) => Err(Error::Apns(t)),
            ApnsAnswer::RefusedWithoutReason(t) => Err(Error::Apns(t)),
            ApnsAnswer::Failed(t) => Err(Error::Apns(t)),
            ApnsAnswer::Refused(ApnsReason::BadDeviceToken) => Err(Error::BadDeviceToken(String::from_str("Bad device token"))),
            ApnsAnswer::Refused(ApnsReason::DeviceTokenNotForTopic) => Err(
                Error::BadDeviceToken(String::from_str("The device token does not match the specified topic")),
            ),
            ApnsAnswer::Refused(ApnsReason::Unregistered) => Err(
                Error::BadDeviceToken(String::from_str("The device token is inactive for the specified topic")),
            ),
            ApnsAnswer::Refused(ApnsReason::Other(name)) => Err(Error::ApnsResponse(name)),
        }
    }
}

} // verus!
