use echo_server::error::Error;
use echo_server::handlers::update_apns::{
    check_apns_auth, ApnsFormField, ApnsUpdateAction, ApnsUpdateBody, ApnsUpdateEvent,
    ApnsUpdateFlow,
};
use echo_server::stores::tenant::{Tenant, TenantApnsUpdateAuth};

fn tenant(suspended: bool) -> Tenant {
    Tenant {
        id: "tenant-1".to_string(),
        fcm_api_key: None,
        fcm_v1_credentials: None,
        apns_type: None,
        apns_topic: None,
        apns_certificate: None,
        apns_certificate_password: None,
        apns_pkcs8_pem: None,
        apns_key_id: None,
        apns_team_id: None,
        suspended,
        suspended_reason: None,
        created_at: 0,
        updated_at: 0,
    }
}

fn token_auth(pem: &str) -> TenantApnsUpdateAuth {
    TenantApnsUpdateAuth::Token {
        apns_pkcs8_pem: pem.to_string(),
        apns_key_id: "89AFRD1X22".to_string(),
        apns_team_id: "ASDFQWERTY".to_string(),
    }
}

#[test]
fn apns_credentials_are_checked_by_loading_them() {
    assert!(matches!(check_apns_auth(&token_auth("not a key")), Err(Error::BadApnsCredentials)));
    let cert = TenantApnsUpdateAuth::Certificate {
        apns_certificate: "bm90IGEgY2VydGlmaWNhdGU=".to_string(),
        apns_certificate_password: "pw".to_string(),
    };
    assert!(matches!(check_apns_auth(&cert), Err(Error::BadApnsCredentials)));
}

fn started() -> ApnsUpdateFlow {
    let (flow, action) = ApnsUpdateFlow::start("tenant-1".to_string());
    assert!(matches!(action, ApnsUpdateAction::FetchTenant { ref tenant_id } if tenant_id == "tenant-1"));
    let (flow, action) = flow.step(ApnsUpdateEvent::TenantFetched(Ok(())));
    assert!(matches!(action, ApnsUpdateAction::ReadForm));
    flow
}

#[test]
fn apns_update_of_topic_only() {
    let mut form = ApnsUpdateBody::new();
    form.set_text(ApnsFormField::Topic, "com.example".to_string());
    let (flow, action) = started().step(ApnsUpdateEvent::FormRead(Ok(form)));
    match action {
        ApnsUpdateAction::StoreTopic { tenant_id, params } => {
            assert_eq!(tenant_id, "tenant-1");
            assert_eq!(params.apns_topic, "com.example");
        }
        _ => panic!("expected the topic to be stored"),
    }
    let (_, action) = flow.step(ApnsUpdateEvent::TopicStored(Ok(())));
    assert!(matches!(action, ApnsUpdateAction::Respond(r) if r.success));
}

fn token_form(topic: Option<&str>) -> ApnsUpdateBody {
    let mut form = ApnsUpdateBody::new();
    if let Some(t) = topic {
        form.set_text(ApnsFormField::Topic, t.to_string());
    }
    form.set_bytes(ApnsFormField::Pkcs8Pem, b"pem");
    form.set_text(ApnsFormField::KeyId, "89AFRD1X22".to_string());
    form.set_text(ApnsFormField::TeamId, "ASDFQWERTY".to_string());
    form
}

#[test]
fn apns_update_of_topic_and_token_unsuspends() {
    let (flow, action) = started().step(ApnsUpdateEvent::FormRead(Ok(token_form(Some("com.example")))));
    assert!(matches!(action, ApnsUpdateAction::StoreTopic { .. }));
    // The credentials, once the APNS client has accepted them, are stored.
    let (flow, action) = flow.after_check(token_auth("pem"), Ok(()));
    match action {
        ApnsUpdateAction::StoreAuth { tenant_id, auth: TenantApnsUpdateAuth::Token { apns_pkcs8_pem, apns_key_id, .. } } => {
            assert_eq!(tenant_id, "tenant-1");
            assert_eq!(apns_pkcs8_pem, "pem");
            assert_eq!(apns_key_id, "89AFRD1X22");
        }
        _ => panic!("expected the credentials to be stored"),
    }
    let (flow, action) = flow.step(ApnsUpdateEvent::AuthStored(Ok(tenant(true))));
    assert!(matches!(action, ApnsUpdateAction::Unsuspend { ref tenant_id } if tenant_id == "tenant-1"));
    let (_, action) = flow.step(ApnsUpdateEvent::Unsuspended(Ok(())));
    assert!(matches!(action, ApnsUpdateAction::Respond(r) if r.success));
}

#[test]
fn apns_update_of_active_tenant_does_not_unsuspend() {
    let (flow, action) = started().step(ApnsUpdateEvent::FormRead(Ok(token_form(Some("t")))));
    assert!(matches!(action, ApnsUpdateAction::StoreTopic { .. }));
    let (flow, action) = flow.after_check(token_auth("pem"), Ok(()));
    assert!(matches!(action, ApnsUpdateAction::StoreAuth { .. }));
    let (_, action) = flow.step(ApnsUpdateEvent::AuthStored(Ok(tenant(false))));
    assert!(matches!(action, ApnsUpdateAction::Respond(r) if r.success));
}

#[test]
fn apns_update_refused_credentials_are_not_stored() {
    let (flow, _) = started().step(ApnsUpdateEvent::FormRead(Ok(token_form(Some("t")))));
    let (_, action) = flow.after_check(token_auth("pem"), Err(Error::BadApnsCredentials));
    assert!(matches!(action, ApnsUpdateAction::Fail(Error::BadApnsCredentials)));
    // The form's own key text ("pem" in base64) is not a key: the update stops.
    let (_, action) = started().step(ApnsUpdateEvent::FormRead(Ok(token_form(None))));
    assert!(matches!(action, ApnsUpdateAction::Fail(Error::BadApnsCredentials)));
}

#[test]
fn apns_update_with_bad_credentials_writes_nothing() {
    let mut form = ApnsUpdateBody::new();
    form.set_text(ApnsFormField::Topic, "com.example".to_string());
    form.set_bytes(ApnsFormField::Certificate, b"not pkcs12");
    form.set_text(ApnsFormField::CertificatePassword, "pw".to_string());
    let (flow, _) = started().step(ApnsUpdateEvent::FormRead(Ok(form)));
    let (_, action) = flow.step(ApnsUpdateEvent::TopicStored(Ok(())));
    assert!(matches!(action, ApnsUpdateAction::Fail(Error::BadApnsCredentials)));
}

#[test]
fn apns_update_failures() {
    let (flow, _) = ApnsUpdateFlow::start("t".to_string());
    let (_, action) = flow.step(ApnsUpdateEvent::TenantFetched(Err(Error::InvalidAuthentication)));
    assert!(matches!(action, ApnsUpdateAction::Fail(Error::InvalidAuthentication)));
    let (_, action) = started().step(ApnsUpdateEvent::FormRead(Ok(ApnsUpdateBody::new())));
    assert!(matches!(action, ApnsUpdateAction::Fail(Error::InvalidMultipartBody)));
    let (_, action) = started().step(ApnsUpdateEvent::TopicStored(Ok(())));
    assert!(matches!(action, ApnsUpdateAction::Fail(Error::InternalServerError)));
}
