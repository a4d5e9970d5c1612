use echo_server::blob::DecryptedPayloadBlob;
use echo_server::error::Error;
use echo_server::providers::apns::{ApnsAnswer, ApnsProvider, ApnsReason, ENCRYPTED_TITLE};
use echo_server::providers::fcm::FcmProvider;
use echo_server::providers::fcm_v1::{FcmV1Answer, FcmV1Provider, FcmV1Reason};
use echo_server::providers::noop::NoopProvider;
use echo_server::providers::{
    LegacyPushMessage, MessagePayload, ProviderKind, PushMessage, RawPushMessage,
};

fn legacy(flags: u32) -> PushMessage {
    PushMessage::LegacyPushMessage(LegacyPushMessage {
        id: "msg-1".to_string(),
        payload: MessagePayload {
            topic: "topic-1".to_string(),
            flags,
            blob: "YmxvYg==".to_string(),
        },
    })
}

fn raw() -> PushMessage {
    PushMessage::RawPushMessage(RawPushMessage {
        topic: "topic-2".to_string(),
        tag: 4002,
        message: "ciphertext".to_string(),
    })
}

fn pairs(v: &[(String, String)]) -> Vec<(&str, &str)> {
    v.iter().map(|(k, x)| (k.as_str(), x.as_str())).collect()
}

#[test]
fn provider_kind_names() {
    assert_eq!(ProviderKind::Apns.as_str(), "apns");
    assert_eq!(ProviderKind::ApnsSandbox.as_str(), "apns-sandbox");
    assert_eq!(ProviderKind::Fcm.as_str(), "fcm");
    assert_eq!(ProviderKind::Noop.as_str(), "noop");
}

#[test]
fn provider_kind_round_trip() {
    for k in [ProviderKind::Apns, ProviderKind::ApnsSandbox, ProviderKind::Fcm, ProviderKind::Noop] {
        assert_eq!(ProviderKind::try_from(k.as_str()).unwrap(), k);
    }
}

#[test]
fn provider_kind_ignores_case() {
    assert_eq!(ProviderKind::try_from("APNS").unwrap(), ProviderKind::Apns);
    assert_eq!(ProviderKind::try_from("Apns-Sandbox").unwrap(), ProviderKind::ApnsSandbox);
    assert_eq!(ProviderKind::try_from("FCM").unwrap(), ProviderKind::Fcm);
}

#[test]
fn provider_kind_unknown_name() {
    match ProviderKind::try_from("Carrier-Pigeon") {
        Err(Error::ProviderNotFound(name)) => assert_eq!(name, "Carrier-Pigeon"),
        other => panic!("unexpected {:?}", other),
    }
    assert!(matches!(ProviderKind::try_from("fcm_v1"), Err(Error::ProviderNotFound(_))));
}

#[test]
fn payload_encryption_flag() {
    let p = MessagePayload { topic: "t".to_string(), flags: 1, blob: "b".to_string() };
    assert!(p.is_encrypted());
    let p = MessagePayload { topic: "t".to_string(), flags: 3, blob: "b".to_string() };
    assert!(p.is_encrypted());
    let p = MessagePayload { topic: "t".to_string(), flags: 2, blob: "b".to_string() };
    assert!(!p.is_encrypted());
    let p = MessagePayload { topic: "t".to_string(), flags: 0, blob: "b".to_string() };
    assert!(!p.is_encrypted());
}

#[test]
fn message_topic_and_id() {
    let l = legacy(1);
    assert_eq!(l.topic(), "topic-1");
    assert_eq!(l.message_id("ignored"), "msg-1");
    let r = raw();
    assert_eq!(r.topic(), "topic-2");
    assert_eq!(r.message_id("derived-id"), "derived-id");
}

#[test]
fn message_copies_are_equal() {
    let l = legacy(5);
    assert_eq!(l.clone_message(), l);
    let r = raw();
    assert_eq!(r.clone_message(), r);
}

#[test]
fn fcm_provider_key() {
    let p = FcmProvider::new("key-1".to_string());
    assert_eq!(p.key(), "key-1");
    let mut q = FcmProvider::new("key-2".to_string());
    assert!(!p.same_key(&q));
    q.clone_from(&p);
    assert!(p.same_key(&q));
    assert_eq!(p.duplicate().key(), "key-1");
}

#[test]
fn fcm_v1_raw_message() {
    let p = FcmV1Provider::new("{}".to_string());
    let m = p.build_message("device".to_string(), &raw(), None);
    assert_eq!(m.token, "device");
    assert_eq!(
        pairs(&m.data),
        vec![("topic", "topic-2"), ("tag", "4002"), ("message", "ciphertext")]
    );
    assert!(m.notification.is_none());
    assert!(m.android_high_priority);
    assert!(m.apns_content_available);
}

#[test]
fn fcm_v1_encrypted_legacy_message() {
    let p = FcmV1Provider::new("{}".to_string());
    let m = p.build_message("device".to_string(), &legacy(1), None);
    assert_eq!(
        pairs(&m.data),
        vec![("topic", "topic-1"), ("flags", "1"), ("blob", "YmxvYg==")]
    );
    assert!(m.notification.is_none());
    assert!(m.android_high_priority);
}

#[test]
fn fcm_v1_plain_legacy_message() {
    let p = FcmV1Provider::new("{}".to_string());
    let blob = DecryptedPayloadBlob {
        title: "Hello".to_string(),
        body: "World".to_string(),
        image: None,
        url: None,
    };
    let m = p.build_message("device".to_string(), &legacy(16), Some(&blob));
    assert_eq!(
        pairs(&m.data),
        vec![("topic", "topic-1"), ("flags", "16"), ("blob", "YmxvYg==")]
    );
    let n = m.notification.expect("a plain message is shown");
    assert_eq!(n.title, "Hello");
    assert_eq!(n.body, "World");
    assert!(!m.android_high_priority);
    assert!(!m.apns_content_available);
}

#[test]
fn fcm_v1_answers() {
    let p = FcmV1Provider::new("{}".to_string());
    assert!(p.read_answer(FcmV1Answer::Response(None)).is_ok());
    match p.read_answer(FcmV1Answer::Response(Some(FcmV1Reason::MissingRegistration))) {
        Err(Error::BadDeviceToken(m)) => assert_eq!(m, "Missing registration for token"),
        other => panic!("unexpected {:?}", other),
    }
    match p.read_answer(FcmV1Answer::Response(Some(FcmV1Reason::InvalidRegistration))) {
        Err(Error::BadDeviceToken(m)) => assert_eq!(m, "Invalid token registration"),
        other => panic!("unexpected {:?}", other),
    }
    match p.read_answer(FcmV1Answer::Response(Some(FcmV1Reason::NotRegistered))) {
        Err(Error::BadDeviceToken(m)) => assert_eq!(m, "Token is not registered"),
        other => panic!("unexpected {:?}", other),
    }
    assert!(matches!(
        p.read_answer(FcmV1Answer::Response(Some(FcmV1Reason::InvalidApnsCredential))),
        Err(Error::BadApnsCredentials)
    ));
    match p.read_answer(FcmV1Answer::Response(Some(FcmV1Reason::Other("QuotaExceeded".to_string())))) {
        Err(Error::FcmV1Response(m)) => assert_eq!(m, "QuotaExceeded"),
        other => panic!("unexpected {:?}", other),
    }
    match p.read_answer(FcmV1Answer::Failed("connection reset".to_string())) {
        Err(Error::FcmV1(m)) => assert_eq!(m, "connection reset"),
        other => panic!("unexpected {:?}", other),
    }
    assert_eq!(p.service_account_key(), "{}");
}

#[test]
fn apns_encrypted_notification() {
    let p = ApnsProvider::new("com.example.wallet".to_string());
    let payload = MessagePayload { topic: "t".to_string(), flags: 1, blob: "b".to_string() };
    let n = p.build_notification("device".to_string(), &payload, None);
    assert_eq!(n.token, "device");
    assert_eq!(n.topic, "com.example.wallet");
    assert_eq!(n.title, ENCRYPTED_TITLE);
    assert_eq!(n.title, "You have new notifications. Open to view");
    assert!(n.body.is_none());
    assert_eq!(pairs(&n.custom_data), vec![("topic", "t"), ("blob", "b")]);
}

#[test]
fn apns_plain_notification() {
    let p = ApnsProvider::new("com.example.wallet".to_string());
    let payload = MessagePayload { topic: "t".to_string(), flags: 0, blob: "b".to_string() };
    let blob = DecryptedPayloadBlob {
        title: "Sign".to_string(),
        body: "A request waits".to_string(),
        image: None,
        url: None,
    };
    let n = p.build_notification("device".to_string(), &payload, Some(&blob));
    assert_eq!(n.title, "Sign");
    assert_eq!(n.body.as_deref(), Some("A request waits"));
    assert_eq!(pairs(&n.custom_data), vec![("topic", "t")]);
}

#[test]
fn apns_answers() {
    let p = ApnsProvider::new("topic".to_string());
    assert!(p.read_answer(ApnsAnswer::Delivered).is_ok());
    match p.read_answer(ApnsAnswer::Refused(ApnsReason::BadDeviceToken)) {
        Err(Error::BadDeviceToken(m)) => assert_eq!(m, "Bad device token"),
        other => panic!("unexpected {:?}", other),
    }
    match p.read_answer(ApnsAnswer::Refused(ApnsReason::DeviceTokenNotForTopic)) {
        Err(Error::BadDeviceToken(m)) => {
            assert_eq!(m, "The device token does not match the specified topic")
        }
        other => panic!("unexpected {:?}", other),
    }
    match p.read_answer(ApnsAnswer::Refused(ApnsReason::Unregistered)) {
        Err(Error::BadDeviceToken(m)) => {
            assert_eq!(m, "The device token is inactive for the specified topic")
        }
        other => panic!("unexpected {:?}", other),
    }
    match p.read_answer(ApnsAnswer::Refused(ApnsReason::Other("TooManyRequests".to_string()))) {
        Err(Error::ApnsResponse(m)) => assert_eq!(m, "TooManyRequests"),
        other => panic!("unexpected {:?}", other),
    }
    for a in [
        ApnsAnswer::UnexpectedError("x".to_string()),
        ApnsAnswer::RefusedWithoutReason("x".to_string()),
        ApnsAnswer::Failed("x".to_string()),
    ] {
        match p.read_answer(a) {
            Err(Error::Apns(m)) => assert_eq!(m, "x"),
            other => panic!("unexpected {:?}", other),
        }
    }
}

#[test]
fn noop_keeps_messages_by_token() {
    let mut p = NoopProvider::new();
    assert!(p.notifications_for("a").is_empty());
    p.send_notification("a".to_string(), raw()).unwrap();
    p.send_notification("b".to_string(), legacy(0)).unwrap();
    p.send_notification("a".to_string(), legacy(1)).unwrap();
    assert_eq!(p.notifications_for("a").to_vec(), vec![raw(), legacy(1)]);
    assert_eq!(p.notifications_for("b").to_vec(), vec![legacy(0)]);
    assert!(p.notifications_for("c").is_empty());
}
