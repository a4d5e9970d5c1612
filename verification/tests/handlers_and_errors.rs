use echo_server::blob::blob_json_bytes;
use echo_server::error::Error;
use echo_server::handlers::create_tenant::{tenant_url_of, TenantRegisterBody, TenantRegisterResponse};
use echo_server::handlers::delete_client::client_to_delete;
use echo_server::handlers::get_tenant::GetTenantResponse;
use echo_server::handlers::register_client::{check_registration, require_authenticated, RegisterBody};
use echo_server::handlers::update_apns::{
    apns_credentials_check, apns_form_field, apns_update_step, ApnsFormField, ApnsUpdateBody,
    ApnsUpdateStep,
};
use echo_server::handlers::update_fcm::{fcm_key_check, FcmUpdateBody};
use echo_server::handlers::update_fcm_v1::{fcm_v1_credentials_check, FcmV1UpdateBody};
use echo_server::handlers::{
    authenticate_client, strip_bearer, strip_did_prefix, validate_tenant_request, ClientTokenCheck,
    ErrorLocation, Response, ResponseStatus,
};
use echo_server::providers::ProviderKind;
use echo_server::stores::tenant::{ApnsType, Tenant, TenantApnsUpdateAuth};
use echo_server::stores::StoreError;

fn tenant() -> Tenant {
    Tenant {
        id: "tenant-1".to_string(),
        fcm_api_key: Some("key".to_string()),
        fcm_v1_credentials: None,
        apns_type: None,
        apns_topic: None,
        apns_certificate: None,
        apns_certificate_password: None,
        apns_pkcs8_pem: None,
        apns_key_id: None,
        apns_team_id: None,
        suspended: false,
        suspended_reason: None,
        created_at: 0,
        updated_at: 0,
    }
}

fn names(r: &Response) -> Vec<String> {
    r.errors.as_ref().map(|v| v.iter().map(|e| e.name.clone()).collect()).unwrap_or_default()
}

#[test]
fn did_prefix_is_removed() {
    assert_eq!(strip_did_prefix("did:key:z6Mkabc"), "z6Mkabc");
    assert_eq!(strip_did_prefix("did:key:did:key:z6M"), "z6M");
    assert_eq!(strip_did_prefix("z6Mkabc"), "z6Mkabc");
    assert_eq!(strip_did_prefix("x did:key:"), "x did:key:");
    assert_eq!(client_to_delete("did:key:abc"), "abc");
}

#[test]
fn bearer_is_removed() {
    assert_eq!(strip_bearer("Bearer abc.def"), "abc.def");
    assert_eq!(strip_bearer("abc"), "abc");
    assert_eq!(strip_bearer("Bearer Bearer x"), "x");
}

#[test]
fn client_authentication_outcomes() {
    assert!(matches!(authenticate_client(ClientTokenCheck::NoHeader, false), Ok(true)));
    assert!(matches!(authenticate_client(ClientTokenCheck::Verified, true), Ok(true)));
    assert!(matches!(authenticate_client(ClientTokenCheck::Verified, false), Ok(false)));
    assert!(matches!(authenticate_client(ClientTokenCheck::Unreadable, true), Err(Error::ToStr(_))));
    assert!(matches!(authenticate_client(ClientTokenCheck::Rejected, true), Err(Error::JwtError(_))));
    assert!(require_authenticated(Ok(true)).is_ok());
    assert!(matches!(require_authenticated(Ok(false)), Err(Error::InvalidAuthentication)));
    assert!(matches!(require_authenticated(Err(Error::JwtError("x".into()))), Err(Error::JwtError(_))));
}

#[test]
fn tenant_request_validation() {
    assert!(matches!(validate_tenant_request(None, true), Err(Error::InvalidAuthentication)));
    assert!(matches!(validate_tenant_request(Some(None), true), Err(Error::ToStr(_))));
    assert!(matches!(validate_tenant_request(Some(Some("Bearer t")), true), Ok(true)));
    assert!(matches!(
        validate_tenant_request(Some(Some("Bearer t")), false),
        Err(Error::InvalidAuthentication)
    ));
}

#[test]
fn registration_checks() {
    let t = tenant();
    assert!(check_registration(ProviderKind::Fcm, &t, "token").is_ok());
    match check_registration(ProviderKind::Fcm, &t, "") {
        Err(Error::EmptyField(f)) => assert_eq!(f, "token"),
        other => panic!("unexpected {:?}", other),
    }
    match check_registration(ProviderKind::Apns, &t, "token") {
        Err(Error::ProviderNotAvailable(p)) => assert_eq!(p, "apns"),
        other => panic!("unexpected {:?}", other),
    }
    let body = RegisterBody {
        client_id: "did:key:z6Mk".to_string(),
        push_type: "fcm".to_string(),
        token: "device".to_string(),
    };
    assert_eq!(body.stored_client_id(), "z6Mk");
    let c = body.into_client("tenant-1".to_string(), ProviderKind::Fcm);
    assert_eq!(c.tenant_id, "tenant-1");
    assert_eq!(c.token, "device");
    assert!(!c.always_raw);
}

#[test]
fn tenant_urls() {
    assert_eq!(tenant_url_of("https://echo.example.com", "abc"), "https://echo.example.com/abc");
    let r = TenantRegisterResponse::for_tenant("http://x", "t");
    assert_eq!(r.url, "http://x/t");
    let params = TenantRegisterBody { id: "t9".to_string() }.into_params();
    assert_eq!(params.id, "t9");
}

#[test]
fn tenant_description() {
    let mut t = tenant();
    t.apns_type = Some(ApnsType::Certificate);
    t.apns_topic = Some("topic".to_string());
    t.apns_certificate = Some("c".to_string());
    t.apns_certificate_password = Some("p".to_string());
    t.suspended = true;
    t.suspended_reason = Some("Invalid FCM Credentials".to_string());
    let r = GetTenantResponse::for_tenant("http://x", t);
    assert_eq!(r.url, "http://x/tenant-1");
    assert_eq!(r.enabled_providers, vec!["apns", "apns-sandbox", "fcm", "noop"]);
    assert_eq!(r.apns_topic.as_deref(), Some("topic"));
    assert_eq!(r.apns_type, Some(ApnsType::Certificate));
    assert!(r.suspended);

    let r = GetTenantResponse::for_tenant("http://x", tenant());
    assert_eq!(r.enabled_providers, vec!["fcm", "noop"]);
    assert!(r.apns_topic.is_none());
    assert!(r.apns_type.is_none());
}

#[test]
fn apns_form_fields() {
    assert_eq!(apns_form_field("APNS_TOPIC"), ApnsFormField::Topic);
    assert_eq!(apns_form_field("apns_certificate"), ApnsFormField::Certificate);
    assert_eq!(apns_form_field("apns_key_id"), ApnsFormField::KeyId);
    assert_eq!(apns_form_field("other"), ApnsFormField::Unknown);
    assert!(ApnsFormField::Certificate.takes_bytes());
    assert!(ApnsFormField::Pkcs8Pem.takes_bytes());
    assert!(!ApnsFormField::Topic.takes_bytes());
}

#[test]
fn apns_update_shapes() {
    let mut b = ApnsUpdateBody::new();
    assert!(matches!(b.validate(), Err(Error::InvalidMultipartBody)));
    b.set_text(ApnsFormField::Topic, "topic".to_string());
    let u = b.validate().unwrap();
    assert_eq!(u.topic.as_deref(), Some("topic"));
    assert!(u.auth.is_none());
    assert_eq!(apns_update_step(&u), ApnsUpdateStep::StoreTopicAndFinish);

    b.set_bytes(ApnsFormField::Certificate, b"cert");
    assert!(matches!(b.validate(), Err(Error::InvalidMultipartBody)));
    b.set_text(ApnsFormField::CertificatePassword, "pw".to_string());
    let u = b.validate().unwrap();
    match &u.auth {
        Some(TenantApnsUpdateAuth::Certificate { apns_certificate, apns_certificate_password }) => {
            assert_eq!(apns_certificate, "Y2VydA==");
            assert_eq!(apns_certificate_password, "pw");
        }
        _ => panic!("expected certificate credentials"),
    }
    assert_eq!(apns_update_step(&u), ApnsUpdateStep::StoreTopicThenCredentials);

    b.set_text(ApnsFormField::KeyId, "kid".to_string());
    assert!(matches!(b.validate(), Err(Error::InvalidMultipartBody)));

    let mut t = ApnsUpdateBody::new();
    t.set_bytes(ApnsFormField::Pkcs8Pem, b"pem");
    t.set_text(ApnsFormField::KeyId, "kid".to_string());
    t.set_text(ApnsFormField::TeamId, "team".to_string());
    let u = t.validate().unwrap();
    assert!(u.topic.is_none());
    match &u.auth {
        Some(TenantApnsUpdateAuth::Token { apns_pkcs8_pem, apns_key_id, apns_team_id }) => {
            assert_eq!(apns_pkcs8_pem, "cGVt");
            assert_eq!(apns_key_id, "kid");
            assert_eq!(apns_team_id, "team");
        }
        _ => panic!("expected token credentials"),
    }
    assert_eq!(apns_update_step(&u), ApnsUpdateStep::StoreCredentials);
    assert!(apns_credentials_check(true).is_ok());
    assert!(matches!(apns_credentials_check(false), Err(Error::BadApnsCredentials)));
}

#[test]
fn fcm_forms() {
    let mut b = FcmUpdateBody::new();
    b.read_field("other", "x".to_string());
    assert!(matches!(b.into_params(), Err(Error::InvalidMultipartBody)));
    let mut b = FcmUpdateBody::new();
    b.read_field("API_KEY", "secret".to_string());
    assert_eq!(b.into_params().unwrap().fcm_api_key, "secret");
    assert!(fcm_key_check(false).is_ok());
    assert!(matches!(fcm_key_check(true), Err(Error::BadFcmApiKey)));

    let mut b = FcmV1UpdateBody::new();
    b.read_field("Credentials", "{}".to_string());
    assert_eq!(b.into_params().unwrap().fcm_v1_credentials, "{}");
    assert!(matches!(FcmV1UpdateBody::new().into_params(), Err(Error::InvalidMultipartBody)));
    match fcm_v1_credentials_check(Some("missing field".to_string()), true) {
        Err(Error::FcmV1InvalidServiceAccountKey(m)) => assert_eq!(m, "missing field"),
        other => panic!("unexpected {:?}", other),
    }
    assert!(fcm_v1_credentials_check(None, true).is_ok());
    assert!(matches!(fcm_v1_credentials_check(None, false), Err(Error::BadFcmV1Credentials)));
}

#[test]
fn blob_decoding() {
    assert_eq!(blob_json_bytes("eyJ0aXRsZSI6IkEifQ==").unwrap(), b"{\"title\":\"A\"}".to_vec());
    assert!(matches!(blob_json_bytes("***"), Err(Error::DecryptedNotificationDecode(_))));
}

#[test]
fn default_response() {
    let r = Response::default();
    assert_eq!(r.status, ResponseStatus::Success);
    assert_eq!(r.status_code, 200);
    assert!(r.errors.is_none());
    assert_eq!(ResponseStatus::Failure.as_str(), "FAILURE");
    assert_eq!(ErrorLocation::Header.as_str(), "header");
}

#[test]
fn error_answers() {
    let r = Error::ClientNotFound.to_response("");
    assert_eq!(r.status_code, 202);
    assert_eq!(r.status, ResponseStatus::Success);

    let r = Error::BadDeviceToken("Bad device token".to_string()).to_response("");
    assert_eq!(r.status_code, 400);
    assert_eq!(names(&r), vec!["invalid_token"]);
    assert_eq!(r.errors.as_ref().unwrap()[0].message, "Bad device token");
    let f = r.fields.unwrap();
    assert_eq!(f[0].field, "token");
    assert_eq!(f[0].location, ErrorLocation::Body);

    let r = Error::ProviderNotAvailable("apns".to_string()).to_response("");
    assert_eq!(r.status_code, 400);
    assert_eq!(
        r.errors.unwrap()[0].message,
        "The requested provider (apns) is not currently available"
    );

    let r = Error::Store(StoreError::NotFound("tenant".to_string(), "t1".to_string())).to_response("");
    assert_eq!(r.status_code, 404);
    let f = r.fields.unwrap();
    assert_eq!(f[0].field, "tenant.id");
    assert_eq!(f[0].description, "Cannot find tenant with specified identifier t1");

    let r = Error::InvalidAuthentication.to_response("");
    assert_eq!(r.status_code, 401);
    assert_eq!(names(&r), vec!["authentication"]);

    let r = Error::TenantSuspended.to_response("");
    assert_eq!(r.status_code, 202);
    assert_eq!(names(&r), vec!["tenant_suspended"]);

    let r = Error::MissmatchedTenantId.to_response("");
    assert_eq!(r.status_code, 400);
    assert_eq!(r.fields.unwrap().len(), 2);

    let r = Error::MultipartError("boundary".to_string()).to_response("");
    assert_eq!(names(&r), vec!["body", "multipart"]);

    let r = Error::NoApnsConfigured.to_response("NoApnsConfigured");
    assert_eq!(r.status_code, 500);
    assert_eq!(names(&r), vec!["unknown_error", "dbg"]);
    assert_eq!(r.errors.unwrap()[1].message, "NoApnsConfigured");

    let r = Error::MissingAllSignatureHeader.to_response("");
    assert_eq!(r.status_code, 401);
    assert_eq!(r.fields.unwrap().len(), 2);

    let r = Error::InvalidApnsType("pw".to_string()).to_response("");
    assert_eq!(r.errors.unwrap()[0].message, "failed to decode apns type, \"pw\" is invalid");
}

#[test]
fn uploaded_certificate_reaches_the_client_unchanged() {
    let uploaded: Vec<u8> = vec![0x30, 0x82, 0x00, 0xff, 0x10, 0x7f, 0x80];
    let mut form = ApnsUpdateBody::new();
    form.set_text(ApnsFormField::Topic, "com.example".to_string());
    form.set_bytes(ApnsFormField::Certificate, &uploaded);
    form.set_text(ApnsFormField::CertificatePassword, "pw".to_string());
    let update = form.validate().unwrap();
    let (certificate, password) = match update.auth.unwrap() {
        TenantApnsUpdateAuth::Certificate { apns_certificate, apns_certificate_password } => {
            (apns_certificate, apns_certificate_password)
        }
        _ => panic!("expected certificate credentials"),
    };
    let mut t = tenant();
    t.apns_type = Some(ApnsType::Certificate);
    t.apns_topic = update.topic;
    t.apns_certificate = Some(certificate);
    t.apns_certificate_password = Some(password);
    match t.provider(&ProviderKind::Apns) {
        Ok(echo_server::stores::tenant::ProviderSetup::ApnsCertificate { certificate, sandbox, .. }) => {
            assert_eq!(certificate, uploaded);
            assert!(!sandbox);
        }
        _ => panic!("expected the apns certificate setup"),
    }
}
