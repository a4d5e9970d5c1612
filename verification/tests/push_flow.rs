use echo_server::error::Error;
use echo_server::handlers::push_message::{PushAction, PushEvent, PushFlow, PushMessageBody};
use echo_server::providers::{
    LegacyPushMessage, MessagePayload, ProviderKind, PushMessage, RawPushMessage,
};
use echo_server::stores::client::Client;
use echo_server::stores::tenant::{ProviderSetup, Tenant};
use echo_server::stores::StoreError;

fn body() -> PushMessageBody {
    PushMessageBody {
        raw: Some(RawPushMessage {
            topic: "topic".to_string(),
            tag: 4002,
            message: "ciphertext".to_string(),
        }),
        legacy: Some(LegacyPushMessage {
            id: "legacy-id".to_string(),
            payload: MessagePayload {
                topic: "topic".to_string(),
                flags: 1,
                blob: "blob".to_string(),
            },
        }),
    }
}

fn client(always_raw: bool) -> Client {
    Client {
        tenant_id: "tenant".to_string(),
        push_type: ProviderKind::Noop,
        token: "device-token".to_string(),
        always_raw,
    }
}

fn tenant(suspended: bool) -> Tenant {
    Tenant {
        id: "tenant".to_string(),
        fcm_api_key: None,
        fcm_v1_credentials: None,
        apns_type: None,
        apns_topic: None,
        apns_certificate: None,
        apns_certificate_password: None,
        apns_pkcs8_pem: None,
        apns_key_id: None,
        apns_team_id: None,
        suspended,
        suspended_reason: None,
        created_at: 0,
        updated_at: 0,
    }
}

fn started(client_id: &str) -> PushFlow {
    let (flow, action) =
        PushFlow::start("tenant".to_string(), client_id.to_string(), body(), "raw-id".to_string(), false);
    match action {
        PushAction::FetchClient { tenant_id, client_id: c } => {
            assert_eq!(tenant_id, "tenant");
            assert_eq!(c, client_id);
        }
        _ => panic!("a request starts by fetching its client"),
    }
    flow
}

/// Runs a request up to the point where the provider is built.
fn up_to_send(always_raw: bool) -> (PushFlow, PushAction) {
    let flow = started("did:key:z6Mk");
    let (flow, action) = flow.step(PushEvent::ClientFetched(Ok(client(always_raw))));
    match &action {
        PushAction::LookupNotification { message_id, client_id, tenant_id } => {
            assert_eq!(message_id, if always_raw { "raw-id" } else { "legacy-id" });
            assert_eq!(client_id, "z6Mk");
            assert_eq!(tenant_id, "tenant");
        }
        _ => panic!("expected a lookup of the notification"),
    }
    let (flow, action) = flow.step(PushEvent::NotificationFound(false));
    match &action {
        PushAction::StoreNotification { client_id, .. } => assert_eq!(client_id, "z6Mk"),
        _ => panic!("expected the notification to be stored"),
    }
    let (flow, action) = flow.step(PushEvent::NotificationStored(Ok(1)));
    assert!(matches!(action, PushAction::FetchTenant { .. }));
    let (flow, action) = flow.step(PushEvent::TenantFetched(Ok(tenant(false))));
    assert!(matches!(action, PushAction::BuildProvider(ProviderSetup::Noop)));
    flow.step(PushEvent::ProviderBuilt(Ok(())))
}

#[test]
fn delivered_request_is_accepted() {
    let (flow, action) = up_to_send(false);
    match &action {
        PushAction::Send { token, message } => {
            assert_eq!(token, "device-token");
            assert!(matches!(message, PushMessage::LegacyPushMessage(_)));
        }
        _ => panic!("expected a send"),
    }
    let (_, action) = flow.step(PushEvent::Sent(Ok(())));
    assert!(matches!(action, PushAction::Respond(202)));
}

#[test]
fn raw_clients_get_the_raw_message() {
    let (_, action) = up_to_send(true);
    match action {
        PushAction::Send { message: PushMessage::RawPushMessage(m), .. } => {
            assert_eq!(m.message, "ciphertext")
        }
        _ => panic!("expected the raw message to be sent"),
    }
}

#[test]
fn unknown_client() {
    let (_, action) = started("c").step(PushEvent::ClientFetched(Err(StoreError::NotFound(
        "client".to_string(),
        "c".to_string(),
    ))));
    assert!(matches!(action, PushAction::Fail(Error::ClientNotFound)));
    let (_, action) = started("c")
        .step(PushEvent::ClientFetched(Err(StoreError::Database("down".to_string()))));
    match action {
        PushAction::Fail(Error::Store(StoreError::Database(m))) => assert_eq!(m, "down"),
        _ => panic!("expected the store error"),
    }
}

#[test]
fn missing_message_shape() {
    let (flow, _) = PushFlow::start(
        "tenant".to_string(),
        "c".to_string(),
        PushMessageBody { raw: None, legacy: None },
        "raw-id".to_string(),
        false,
    );
    let (_, action) = flow.step(PushEvent::ClientFetched(Ok(client(true))));
    match action {
        PushAction::Fail(Error::EmptyField(f)) => {
            assert_eq!(f, "missing topic, tag, or message field")
        }
        _ => panic!("expected a missing field"),
    }
    let (flow, _) = PushFlow::start(
        "tenant".to_string(),
        "c".to_string(),
        PushMessageBody { raw: None, legacy: None },
        "raw-id".to_string(),
        false,
    );
    let (_, action) = flow.step(PushEvent::ClientFetched(Ok(client(false))));
    match action {
        PushAction::Fail(Error::EmptyField(f)) => assert_eq!(f, "missing id or payload field"),
        _ => panic!("expected a missing field"),
    }
}

#[test]
fn client_of_another_tenant() {
    let mut c = client(false);
    c.tenant_id = "someone-else".to_string();
    let (_, action) = started("c").step(PushEvent::ClientFetched(Ok(c)));
    assert!(matches!(action, PushAction::Fail(Error::MissmatchedTenantId)));
}

#[test]
fn default_tenant_clients_pass_in_a_multi_tenant_deployment() {
    let mut c = client(false);
    c.tenant_id = "0000-0000-0000-0000".to_string();
    let (flow, _) =
        PushFlow::start("tenant".to_string(), "c".to_string(), body(), "raw-id".to_string(), true);
    let (_, action) = flow.step(PushEvent::ClientFetched(Ok(c.clone())));
    match action {
        PushAction::LookupNotification { tenant_id, client_id, .. } => {
            assert_eq!(tenant_id, "tenant");
            assert_eq!(client_id, "c");
        }
        _ => panic!("a client of the default tenant is served in a multi-tenant deployment"),
    }
    let (_, action) = started("c").step(PushEvent::ClientFetched(Ok(c)));
    assert!(matches!(action, PushAction::Fail(Error::MissmatchedTenantId)));
}

#[test]
fn other_tenants_clients_are_refused_in_a_multi_tenant_deployment() {
    let mut c = client(false);
    c.tenant_id = "someone-else".to_string();
    let (flow, _) =
        PushFlow::start("tenant".to_string(), "c".to_string(), body(), "raw-id".to_string(), true);
    let (_, action) = flow.step(PushEvent::ClientFetched(Ok(c)));
    assert!(matches!(action, PushAction::Fail(Error::MissmatchedTenantId)));
}

#[test]
fn duplicate_notifications_are_answered_once() {
    let (flow, _) = started("c").step(PushEvent::ClientFetched(Ok(client(false))));
    let (_, action) = flow.step(PushEvent::NotificationFound(true));
    assert!(matches!(action, PushAction::Respond(200)));

    let (flow, _) = started("c").step(PushEvent::ClientFetched(Ok(client(false))));
    let (flow, _) = flow.step(PushEvent::NotificationFound(false));
    let (_, action) = flow.step(PushEvent::NotificationStored(Ok(2)));
    assert!(matches!(action, PushAction::Respond(200)));
}

#[test]
fn suspended_tenant_is_not_sent_to() {
    let (flow, _) = started("c").step(PushEvent::ClientFetched(Ok(client(false))));
    let (flow, _) = flow.step(PushEvent::NotificationFound(false));
    let (flow, _) = flow.step(PushEvent::NotificationStored(Ok(1)));
    let (_, action) = flow.step(PushEvent::TenantFetched(Ok(tenant(true))));
    assert!(matches!(action, PushAction::Fail(Error::TenantSuspended)));
}

#[test]
fn provider_not_enabled_for_tenant() {
    let mut c = client(false);
    c.push_type = ProviderKind::Fcm;
    let (flow, _) = started("c").step(PushEvent::ClientFetched(Ok(c)));
    let (flow, _) = flow.step(PushEvent::NotificationFound(false));
    let (flow, _) = flow.step(PushEvent::NotificationStored(Ok(1)));
    let (_, action) = flow.step(PushEvent::TenantFetched(Ok(tenant(false))));
    match action {
        PushAction::Fail(Error::ProviderNotAvailable(p)) => assert_eq!(p, "fcm"),
        _ => panic!("expected the provider to be unavailable"),
    }
}

#[test]
fn bad_device_token_deletes_the_client() {
    let (flow, _) = up_to_send(false);
    let (flow, action) = flow.step(PushEvent::Sent(Err(Error::BadDeviceToken("gone".to_string()))));
    match action {
        PushAction::DeleteClient { tenant_id, client_id } => {
            assert_eq!(tenant_id, "tenant");
            assert_eq!(client_id, "z6Mk");
        }
        _ => panic!("expected the client to be deleted"),
    }
    let (_, action) = flow.step(PushEvent::ClientDeleted(Ok(())));
    assert!(matches!(action, PushAction::Fail(Error::ClientDeleted)));
}

#[test]
fn bad_credentials_suspend_the_tenant() {
    let cases = [
        (Error::BadApnsCredentials, "Invalid APNS Credentials"),
        (Error::ApnsCertificateExpired, "APNs certificate expired"),
        (Error::ApnsCertificateUnknownCA, "Unknown APNs certificate's CA"),
        (Error::BadFcmApiKey, "Invalid FCM Credentials"),
    ];
    for (error, expected) in cases {
        let (flow, _) = up_to_send(false);
        let (flow, action) = flow.step(PushEvent::Sent(Err(error)));
        match action {
            PushAction::SuspendTenant { tenant_id, reason } => {
                assert_eq!(tenant_id, "tenant");
                assert_eq!(reason, expected);
            }
            _ => panic!("expected the tenant to be suspended"),
        }
        let (_, action) = flow.step(PushEvent::TenantSuspended(Ok(())));
        assert!(matches!(action, PushAction::Fail(Error::TenantSuspended)));
    }
}

#[test]
fn other_send_errors_are_reported() {
    let (flow, _) = up_to_send(false);
    let (_, action) = flow.step(PushEvent::Sent(Err(Error::Apns("timeout".to_string()))));
    match action {
        PushAction::Fail(Error::Apns(m)) => assert_eq!(m, "timeout"),
        _ => panic!("expected the send error"),
    }
}

#[test]
fn answer_out_of_turn_is_an_internal_error() {
    let (flow, action) = started("c").step(PushEvent::Sent(Ok(())));
    assert!(matches!(action, PushAction::Fail(Error::InternalServerError)));
    let (_, action) = flow.step(PushEvent::ClientFetched(Ok(client(false))));
    assert!(matches!(action, PushAction::Fail(Error::InternalServerError)));
}
