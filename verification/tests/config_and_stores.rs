use echo_server::config::{
    default_cors_allowed_origins, default_disable_header, default_is_test, default_log_level,
    default_log_level_otel, default_port, default_validate_signatures, Config,
};
use echo_server::environment::{default_relay_url, default_tenant_id, Config as EnvConfig};
use echo_server::error::Error;
use echo_server::providers::ProviderKind;
use echo_server::request_id::get_req_id;
use echo_server::store::{Client as LegacyClient, MemoryClientStore};
use echo_server::stores::client::{plan_registration, Client, ClientWrite, ExistingClient};
use echo_server::stores::tenant::{
    ApnsType, DefaultTenantStore, ProviderSetup, Tenant, DEFAULT_TENANT_ID,
};

const ID: &str = "0000-0000-0000-0000";
const PUSH_TOKEN: &str = "0000-0000-0000-0000";

fn config() -> Config {
    Config {
        port: default_port(),
        public_url: "http://localhost:3000".to_string(),
        log_level: default_log_level(),
        log_level_otel: default_log_level_otel(),
        disable_header: default_disable_header(),
        relay_public_key: "ff".repeat(32),
        validate_signatures: default_validate_signatures(),
        database_url: "postgres://localhost/echo".to_string(),
        is_test: default_is_test(),
        cors_allowed_origins: default_cors_allowed_origins(),
        otel_exporter_otlp_endpoint: None,
        telemetry_prometheus_port: None,
        apns_type: None,
        apns_topic: None,
        apns_certificate: None,
        apns_certificate_password: None,
        apns_pkcs8_pem: None,
        apns_key_id: None,
        apns_team_id: None,
        fcm_api_key: None,
        fcm_v1_credentials: None,
        tenant_database_url: None,
    }
}

fn env_config() -> EnvConfig {
    EnvConfig {
        port: 3000,
        log_level: "WARN".to_string(),
        log_level_otel: "info".to_string(),
        disable_header: false,
        relay_url: default_relay_url(),
        validate_signatures: true,
        database_url: "postgres://localhost/echo".to_string(),
        tenant_database_url: None,
        default_tenant_id: default_tenant_id(),
        is_test: false,
        otel_exporter_otlp_endpoint: None,
        telemetry_prometheus_port: None,
        apns_certificate: None,
        apns_certificate_password: None,
        apns_topic: None,
        fcm_api_key: None,
    }
}

fn tenant() -> Tenant {
    Tenant {
        id: "tenant-1".to_string(),
        fcm_api_key: None,
        fcm_v1_credentials: None,
        apns_type: None,
        apns_topic: None,
        apns_certificate: None,
        apns_certificate_password: None,
        apns_pkcs8_pem: None,
        apns_key_id: None,
        apns_team_id: None,
        suspended: false,
        suspended_reason: None,
        created_at: 0,
        updated_at: 0,
    }
}

#[test]
fn config_defaults() {
    assert_eq!(default_port(), 3000);
    assert_eq!(default_log_level(), "info,echo-server=info");
    assert_eq!(default_log_level_otel(), "info,echo-server=trace");
    assert!(!default_disable_header());
    assert!(default_validate_signatures());
    assert!(!default_is_test());
    assert_eq!(default_cors_allowed_origins(), vec!["*".to_string()]);
    assert_eq!(default_relay_url(), "https://relay.walletconnect.com");
    assert_eq!(default_tenant_id(), "0000-0000-0000-0000");
}

#[test]
fn config_valid() {
    assert!(config().is_valid().is_ok());
}

#[test]
fn config_multi_tenant_with_its_own_database() {
    let mut c = config();
    c.tenant_database_url = Some("postgres://localhost/tenants".to_string());
    assert!(c.is_valid().is_ok());
}

#[test]
fn config_multi_tenant_sharing_the_database() {
    let mut c = config();
    c.tenant_database_url = Some(c.database_url.clone());
    c.relay_public_key = String::new();
    match c.is_valid() {
        Err(Error::InvalidConfiguration(m)) => {
            assert_eq!(m, "`TENANT_DATABASE_URL` is equal to `DATABASE_URL`, this is not allowed")
        }
        other => panic!("unexpected {:?}", other),
    }
}

#[test]
fn config_without_relay_key() {
    let mut c = config();
    c.relay_public_key = String::new();
    match c.is_valid() {
        Err(Error::InvalidConfiguration(m)) => assert_eq!(m, "`RELAY_PUBLIC_KEY` cannot be empty"),
        other => panic!("unexpected {:?}", other),
    }
}

#[test]
fn config_incomplete_apns() {
    let mut c = config();
    c.apns_type = Some(ApnsType::Token);
    c.apns_topic = Some("topic".to_string());
    let expected =
        "APNS_TYPE of Certificate requires specific variables, please check the documentation.";
    match c.get_apns_type() {
        Err(Error::InvalidConfiguration(m)) => assert_eq!(m, expected),
        other => panic!("unexpected {:?}", other),
    }
    match c.is_valid() {
        Err(Error::InvalidConfiguration(m)) => assert_eq!(m, expected),
        other => panic!("unexpected {:?}", other),
    }
}

#[test]
fn config_complete_apns_is_not_reported() {
    let mut c = config();
    c.apns_type = Some(ApnsType::Certificate);
    c.apns_topic = Some("topic".to_string());
    c.apns_certificate = Some("cert".to_string());
    c.apns_certificate_password = Some("pw".to_string());
    assert!(matches!(c.get_apns_type(), Err(Error::NoApnsConfigured)));
    assert!(c.is_valid().is_ok());
    assert!(matches!(config().get_apns_type(), Err(Error::NoApnsConfigured)));
}

#[test]
fn config_providers() {
    assert_eq!(config().single_tenant_supported_providers(), vec![ProviderKind::Noop]);
    let mut c = config();
    c.fcm_api_key = Some("key".to_string());
    assert_eq!(
        c.single_tenant_supported_providers(),
        vec![ProviderKind::Fcm, ProviderKind::Noop]
    );
}

#[test]
fn env_config_providers_and_validity() {
    let c = env_config();
    assert_eq!(c.single_tenant_supported_providers(), vec![ProviderKind::Noop]);
    assert!(c.is_valid().is_ok());

    let mut c = env_config();
    c.apns_certificate = Some("cert".to_string());
    c.apns_certificate_password = Some("pw".to_string());
    c.fcm_api_key = Some("key".to_string());
    assert_eq!(
        c.single_tenant_supported_providers(),
        vec![ProviderKind::ApnsSandbox, ProviderKind::Apns, ProviderKind::Fcm, ProviderKind::Noop]
    );
    c.tenant_database_url = Some("postgres://tenants".to_string());
    match c.is_valid() {
        Err(Error::InvalidConfiguration(m)) => {
            assert_eq!(m, "tenant database and providers keys found in config")
        }
        other => panic!("unexpected {:?}", other),
    }

    let mut c = env_config();
    c.tenant_database_url = Some("postgres://tenants".to_string());
    assert!(c.single_tenant_supported_providers().is_empty());
    assert!(c.is_valid().is_ok());
}

#[test]
fn request_ids() {
    assert_eq!(get_req_id(None), "unknown-m");
    assert_eq!(get_req_id(Some(None)), "unknown-f");
    assert_eq!(get_req_id(Some(Some("abc-123"))), "abc-123");
}

#[test]
fn apns_type_names() {
    assert_eq!(ApnsType::Certificate.as_str(), "certificate");
    assert_eq!(ApnsType::Token.as_str(), "token");
    assert_eq!(ApnsType::try_from("CERTIFICATE").unwrap(), ApnsType::Certificate);
    assert_eq!(ApnsType::try_from(ApnsType::Token.as_str()).unwrap(), ApnsType::Token);
    match ApnsType::try_from("password") {
        Err(Error::InvalidApnsType(t)) => assert_eq!(t, "password"),
        other => panic!("unexpected {:?}", other),
    }
}

#[test]
fn tenant_providers() {
    let mut t = tenant();
    assert_eq!(t.providers(), vec![ProviderKind::Noop]);
    t.fcm_api_key = Some("key".to_string());
    t.apns_type = Some(ApnsType::Token);
    t.apns_topic = Some("topic".to_string());
    t.apns_pkcs8_pem = Some("cGVt".to_string());
    t.apns_key_id = Some("kid".to_string());
    t.apns_team_id = Some("team".to_string());
    assert_eq!(t.get_apns_type(), Some(ApnsType::Token));
    assert_eq!(
        t.providers(),
        vec![ProviderKind::Apns, ProviderKind::ApnsSandbox, ProviderKind::Fcm, ProviderKind::Noop]
    );
    t.apns_key_id = None;
    assert_eq!(t.get_apns_type(), None);
}

#[test]
fn tenant_provider_setups() {
    let mut t = tenant();
    match t.provider(&ProviderKind::Fcm) {
        Err(Error::ProviderNotAvailable(p)) => assert_eq!(p, "fcm"),
        _ => panic!("fcm should not be available"),
    }
    assert!(matches!(t.provider(&ProviderKind::Noop), Ok(ProviderSetup::Noop)));
    t.fcm_api_key = Some("key".to_string());
    match t.provider(&ProviderKind::Fcm) {
        Ok(ProviderSetup::Fcm { api_key }) => assert_eq!(api_key, "key"),
        _ => panic!("expected the legacy fcm setup"),
    }
    t.fcm_v1_credentials = Some("{\"type\":\"service_account\"}".to_string());
    match t.provider(&ProviderKind::Fcm) {
        Ok(ProviderSetup::FcmV1 { credentials }) => {
            assert_eq!(credentials, "{\"type\":\"service_account\"}")
        }
        _ => panic!("expected the fcm v1 setup"),
    }
    t.apns_type = Some(ApnsType::Certificate);
    t.apns_topic = Some("topic".to_string());
    t.apns_certificate = Some("Y2VydA==".to_string());
    t.apns_certificate_password = Some("pw".to_string());
    match t.provider(&ProviderKind::ApnsSandbox) {
        Ok(ProviderSetup::ApnsCertificate { certificate, password, sandbox, topic }) => {
            assert_eq!(certificate, b"cert".to_vec());
            assert_eq!(password, "pw");
            assert!(sandbox);
            assert_eq!(topic, "topic");
        }
        _ => panic!("expected the apns certificate setup"),
    }
    t.apns_certificate = Some("not base64!".to_string());
    assert!(matches!(t.provider(&ProviderKind::Apns), Err(Error::Base64Decode(_))));
}

#[test]
fn noop_test_fetch_provider() {
    let store = DefaultTenantStore::new(&config()).expect("Failed to create state");
    let tenant = store.get_tenant("noop");
    assert_eq!(tenant.id, DEFAULT_TENANT_ID);
    match tenant.provider(&ProviderKind::try_from("noop").unwrap()) {
        Ok(ProviderSetup::Noop) => {}
        _ => panic!("`get_provider` didn't return a noop provider"),
    }
}

#[test]
fn fcm_test_fetch_provider() {
    let mut c = config();
    c.fcm_api_key = Some("api-key".to_string());
    let store = DefaultTenantStore::new(&c).expect("Failed to create state");
    let tenant = store.get_tenant(DEFAULT_TENANT_ID);
    match tenant.provider(&ProviderKind::try_from("fcm").unwrap()) {
        Ok(ProviderSetup::Fcm { api_key }) => assert_eq!(api_key, "api-key"),
        _ => panic!("`get_provider` didn't return a fcm provider"),
    }
}

fn client(tenant_id: &str, token: &str) -> Client {
    Client {
        tenant_id: tenant_id.to_string(),
        push_type: ProviderKind::Fcm,
        token: token.to_string(),
        always_raw: false,
    }
}

fn existing(id: &str, token: &str, tenant_id: &str) -> Option<ExistingClient> {
    Some(ExistingClient {
        id: id.to_string(),
        device_token: token.to_string(),
        tenant_id: tenant_id.to_string(),
    })
}

#[test]
fn registration_of_a_new_client_inserts() {
    match plan_registration("t1", "c1", &client("other", "tok"), None) {
        ClientWrite::Insert { id, client } => {
            assert_eq!(id, "c1");
            assert_eq!(client.tenant_id, "t1");
            assert_eq!(client.token, "tok");
        }
        _ => panic!("expected an insert"),
    }
}

#[test]
fn registration_with_a_new_token_updates_it() {
    match plan_registration("t1", "c1", &client("t1", "new"), existing("c1", "old", "t1")) {
        ClientWrite::UpdateDeviceToken { id, client } => {
            assert_eq!(id, "c1");
            assert_eq!(client.token, "new");
        }
        _ => panic!("expected a token update"),
    }
}

#[test]
fn registration_of_a_known_token_takes_the_row_over() {
    match plan_registration("t2", "c2", &client("t2", "tok"), existing("c1", "tok", "t1")) {
        ClientWrite::ReassignId { old_id, old_tenant_id, id, client } => {
            assert_eq!(old_id, "c1");
            assert_eq!(old_tenant_id, "t1");
            assert_eq!(id, "c2");
            assert_eq!(client.tenant_id, "t2");
        }
        _ => panic!("expected the row to change hands"),
    }
}

#[test]
fn registration_of_the_same_client_updates_attributes() {
    match plan_registration("t1", "c1", &client("t1", "tok"), existing("c1", "tok", "t1")) {
        ClientWrite::UpdateAttributes { id, client } => {
            assert_eq!(id, "c1");
            assert_eq!(client.push_type, ProviderKind::Fcm);
        }
        _ => panic!("expected an attribute update"),
    }
}

fn setup_filled_test_store() -> MemoryClientStore {
    let mut store = MemoryClientStore::new();
    store
        .create_client(
            ID.to_string(),
            LegacyClient { push_type: ProviderKind::Noop, token: PUSH_TOKEN.to_string() },
        )
        .expect("Failed to insert test client during setup phase");
    store
}

#[test]
fn insert_client() {
    let mut store = MemoryClientStore::new();
    let res = store
        .create_client(
            ID.to_string(),
            LegacyClient { push_type: ProviderKind::Noop, token: PUSH_TOKEN.to_string() },
        )
        .expect("Failed to insert client into store");
    assert_eq!(res, ())
}

#[test]
fn fetch_client() {
    let store = setup_filled_test_store();
    let client = store.get_client(&ID.to_string()).expect("Failed to fetch client");
    assert_eq!(client.is_some(), true);
    assert_eq!(
        client.unwrap(),
        &LegacyClient { push_type: ProviderKind::Noop, token: PUSH_TOKEN.to_string() }
    )
}

#[test]
fn delete_client() {
    let mut store = setup_filled_test_store();
    let res = store.delete_client(&ID.to_string()).expect("Failed to delete client from store");
    assert_eq!(res, ())
}

#[test]
fn memory_store_reads_what_was_written() {
    let mut store = setup_filled_test_store();
    store
        .create_client(
            ID.to_string(),
            LegacyClient { push_type: ProviderKind::Fcm, token: "other".to_string() },
        )
        .unwrap();
    store
        .create_client(
            "second".to_string(),
            LegacyClient { push_type: ProviderKind::Apns, token: "t2".to_string() },
        )
        .unwrap();
    assert_eq!(store.get_client(ID).unwrap().unwrap().token, "other");
    assert_eq!(store.get_client("second").unwrap().unwrap().push_type, ProviderKind::Apns);
    store.delete_client(ID).unwrap();
    assert!(store.get_client(ID).unwrap().is_none());
    assert!(store.get_client("second").unwrap().is_some());
    store.delete_client("missing").unwrap();
    assert!(store.get_client("second").unwrap().is_some());
}
