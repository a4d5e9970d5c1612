//! Reading a tenant's settings (multi-tenant deployments).
use crate::handlers::create_tenant::{tenant_url, tenant_url_of};
use crate::providers::{ProviderKind, PROVIDER_FCM_V1};
use crate::stores::tenant::{ApnsType, Tenant};
use vstd::prelude::*;

verus! {

/// What a tenant's owner is told about it.
#[derive(Debug)]
pub struct GetTenantResponse {
    pub url: String,
    pub enabled_providers: Vec<String>,
    pub apns_topic: Option<String>,
    pub apns_type: Option<ApnsType>,
    pub suspended: bool,
    pub suspended_reason: Option<String>,
}

/// The characters of each string.
pub open spec fn string_views(v: Seq<String>) -> Seq<Seq<char>> {
    v.map_values(|s: String| s@)
}

/// The name of each provider kind.
pub open spec fn kind_names(v: Seq<ProviderKind>) -> Seq<Seq<char>> {
    v.map_values(|k: ProviderKind| k.name())
}

/// The names listed as enabled: the tenant's providers, then `fcm_v1` when
/// FCM v1 credentials are set (the FCM provider serves both kinds of token).
pub open spec fn enabled_provider_names(t: Tenant) -> Seq<Seq<char>> {
    kind_names(t.provider_kinds()) + (if t.fcm_v1_credentials is Some {
        seq![PROVIDER_FCM_V1@]
    } else {
        Seq::empty()
    })
}

/// `r` is the answer `for_tenant` gives for tenant `t` under `public_url`.
pub open spec fn answers_for(r: GetTenantResponse, public_url: Seq<char>, t: Tenant) -> bool {
    &&& r.url@ == tenant_url(public_url, t.id@)
    &&& string_views(r.enabled_providers@) == enabled_provider_names(t)
    &&& t.provider_kinds().contains(ProviderKind::Apns) ==> r.apns_topic == t.apns_topic && r.apns_type == t.apns_type
    &&& !t.provider_kinds().contains(ProviderKind::Apns) ==> r.apns_topic is None && r.apns_type is None
    &&& r.suspended == t.suspended
    &&& r.suspended_reason == t.suspended_reason
}

impl GetTenantResponse {
    /// The answer for `tenant`; its APNS topic and type are shown only when
    /// APNS is enabled for it.
    pub fn for_tenant(public_url: &str, tenant: Tenant) -> (r: GetTenantResponse)
        ensures
            answers_for(r, public_url@, tenant),
    {
        let providers = tenant.providers();
        let mut names: Vec<String> = Vec::new();
        let mut has_apns = false;
        let mut i: usize = 0;
        while i < providers.len()
            invariant
                providers@ == tenant.provider_kinds(),
                i <= providers.len(),
                string_views(names@) == kind_names(providers@.take(i as int)),
                has_apns == providers@.take(i as int).contains(ProviderKind::Apns),
            decreases providers.len() - i,
        {
            let k = providers[i];
            let ghost before = names@;
            names.push(String::from_str(k.as_str()));
            if k == ProviderKind::Apns {
                has_apns = true;
            }
            assert(providers@.take(i + 1) =~= providers@.take(i as int).push(k));
            assert(string_views(names@) =~= string_views(before).push(k.name()));
            proof {
                vstd::seq_lib::lemma_seq_contains_after_push(providers@.take(i as int), k,
                    ProviderKind::Apns);
            }
            assert(kind_names(providers@.take(i + 1)) =~= kind_names(providers@.take(i as int)).push(
                k.name()));
            i = i + 1;
        }
        assert(providers@.take(i as int) =~= providers@);
        if tenant.fcm_v1_credentials.is_some() {
            let ghost before = names@;
            names.push(String::from_str(PROVIDER_FCM_V1));
            assert(string_views(names@) =~= string_views(before).push(PROVIDER_FCM_V1@));
        }
        assert(string_views(names@) =~= enabled_provider_names(tenant));
        let url = tenant_url_of(public_url, tenant.id.as_str());
        if has_apns {
            GetTenantResponse {
                url,
                enabled_providers: names,
                apns_topic: tenant.apns_topic,
                apns_type: tenant.apns_type,
                suspended: tenant.suspended,
                suspended_reason: tenant.suspended_reason,
            }
        } else {
            GetTenantResponse {
                url,
                enabled_providers: names,
                apns_topic: None,
                apns_type: None,
                suspended: tenant.suspended,
                suspended_reason: tenant.suspended_reason,
            }
        }
    }
}

/// The providers an answer lists are the names of the tenant's provider kinds,
/// in order, followed by `fcm_v1` when the tenant has FCM v1 credentials. No
/// provider kind is named `fcm_v1`, so the answer names it exactly when those
/// credentials are set, and then as its last entry.
pub proof fn lemma_enabled_providers_report_fcm_v1(t: Tenant, r: GetTenantResponse)
    requires
        string_views(r.enabled_providers@) == enabled_provider_names(t),
    ensures
        forall|i: int| 0 <= i < t.provider_kinds().len() ==> #[trigger] r.enabled_providers@[i]@ == t.provider_kinds()[i].name(),
        t.fcm_v1_credentials is Some ==> r.enabled_providers@.len() == t.provider_kinds().len() + 1
            && r.enabled_providers@.last()@ == "fcm_v1"@,
        t.fcm_v1_credentials is None ==> r.enabled_providers@.len() == t.provider_kinds().len()
            && forall|i: int| 0 <= i < r.enabled_providers@.len() ==> #[trigger] r.enabled_providers@[i]@ != "fcm_v1"@,
{
    reveal_strlit("apns");
    reveal_strlit("apns-sandbox");
    reveal_strlit("fcm");
    reveal_strlit("noop");
    reveal_strlit("fcm_v1");
    let names = string_views(r.enabled_providers@);
    let kinds = t.provider_kinds();
    assert(names.len() == r.enabled_providers@.len());
    assert forall|i: int| 0 <= i < kinds.len() implies #[trigger] r.enabled_providers@[i]@ == kinds[i].name() by {
        assert(names[i] == r.enabled_providers@[i]@);
        assert(names[i] == kind_names(kinds)[i]);
    }
    if t.fcm_v1_credentials is Some {
        assert(names[names.len() - 1] == r.enabled_providers@.last()@);
    } else {
        assert forall|i: int| 0 <= i < r.enabled_providers@.len() implies #[trigger] r.enabled_providers@[i]@
            != "fcm_v1"@ by {
            assert(names[i] == r.enabled_providers@[i]@);
            assert(names[i] == kind_names(kinds)[i]);
            let k = kinds[i];
            assert(k.name().len() != 6);
        }
    }
}

/// An answer gives the tenant's URL (the public URL, a slash and the tenant
/// id), its suspension as stored, and its APNS topic and type exactly when the
/// tenant's APNS settings are complete for their type (a topic, key, key id and
/// team id for tokens; a topic, certificate and password for certificates).
pub proof fn lemma_tenant_answer_fields(public_url: Seq<char>, t: Tenant, r: GetTenantResponse)
    requires
        answers_for(r, public_url, t),
    ensures
        r.url@ == public_url + "/"@ + t.id@,
        r.suspended == t.suspended,
        r.suspended_reason == t.suspended_reason,
        r.apns_type is Some ==> r.apns_type == t.apns_type && r.apns_topic == t.apns_topic,
        r.apns_type is None ==> r.apns_topic is None,
        t.apns_type == Some(ApnsType::Token) && t.apns_topic is Some && t.apns_pkcs8_pem is Some
            && t.apns_key_id is Some && t.apns_team_id is Some ==> r.apns_type == t.apns_type && r.apns_topic
            == t.apns_topic,
        t.apns_type == Some(ApnsType::Certificate) && t.apns_topic is Some && t.apns_certificate is Some
            && t.apns_certificate_password is Some ==> r.apns_type == t.apns_type && r.apns_topic == t.apns_topic,
        t.apns_type == Some(ApnsType::Token) && !(t.apns_topic is Some && t.apns_pkcs8_pem is Some
            && t.apns_key_id is Some && t.apns_team_id is Some) ==> r.apns_type is None,
        t.apns_type == Some(ApnsType::Certificate) && !(t.apns_topic is Some && t.apns_certificate is Some
            && t.apns_certificate_password is Some) ==> r.apns_type is None,
        t.apns_type is None ==> r.apns_type is None && r.apns_topic is None,
{
    let kinds = t.provider_kinds();
    if t.apns_kind() is Some {
        assert(kinds[0] == ProviderKind::Apns);
        assert(kinds.contains(ProviderKind::Apns));
    } else {
        assert(!kinds.contains(ProviderKind::Apns)) by {
            assert forall|i: int| 0 <= i < kinds.len() implies kinds[i] != ProviderKind::Apns by {}
        }
    }
}

} // verus!
