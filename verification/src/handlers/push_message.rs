//! Delivering one push request: the decisions between the store and provider
//! calls, as a state machine that the service drives.
use crate::error::Error;
use crate::handlers::{bare_client_id, strip_did_prefix, STATUS_ACCEPTED, STATUS_OK};
use crate::providers::{LegacyPushMessage, PushMessage, RawPushMessage};
use crate::stores::client::Client;
use crate::stores::tenant::{ProviderSetup, Tenant, DEFAULT_TENANT_ID};
use crate::stores::StoreError;
use crate::text::str_eq;
use vstd::prelude::*;

verus! {

/// A push request body: the raw shape, the legacy shape, or both.
#[derive(Clone, Debug, PartialEq, Eq)]
pub struct PushMessageBody {
    pub raw: Option<RawPushMessage>,
    /// Legacy (deprecated) fields.
    pub legacy: Option<LegacyPushMessage>,
}

/// The message a client receives: the raw shape for clients that asked for
/// raw messages, the legacy shape for the others.
pub open spec fn selected_message(always_raw: bool, body: PushMessageBody) -> Option<PushMessage> {
    if always_raw {
        match body.raw {
            Some(r) => Some(PushMessage::RawPushMessage(r)),
            None => None,
        }
    } else {
        match body.legacy {
            Some(l) => Some(PushMessage::LegacyPushMessage(l)),
            None => None,
        }
    }
}

/// Where a push request stands: which answer it waits for.
#[derive(Clone, Copy, Debug, PartialEq, Eq, Structural)]
pub enum PushStage {
    AwaitClient,
    AwaitLookup,
    AwaitStore,
    AwaitTenant,
    AwaitProvider,
    AwaitSend,
    AwaitDelete,
    AwaitSuspend,
    Finished,
}

impl PushStage {
    /// Stages in the order a request passes them.
    pub open spec fn rank(self) -> nat {
        match self {
            PushStage::AwaitClient => 0,
            PushStage::AwaitLookup => 1,
            PushStage::AwaitStore => 2,
            PushStage::AwaitTenant => 3,
            PushStage::AwaitProvider => 4,
            PushStage::AwaitSend => 5,
            PushStage::AwaitDelete => 6,
            PushStage::AwaitSuspend => 7,
            PushStage::Finished => 8,
        }
    }
}

/// What the service learned from the last action it performed.
pub enum PushEvent {
    /// The client record, or why it could not be read.
    ClientFetched(Result<Client, StoreError>),
    /// Whether the notification was already recorded.
    NotificationFound(bool),
    /// The number of payloads recorded for the notification once stored.
    NotificationStored(Result<usize, StoreError>),
    TenantFetched(Result<Tenant, Error>),
    ProviderBuilt(Result<(), Error>),
    Sent(Result<(), Error>),
    ClientDeleted(Result<(), StoreError>),
    TenantSuspended(Result<(), Error>),
}

/// What the service must do next. `Respond` and `Fail` end the request.
pub enum PushAction {
    FetchClient { tenant_id: String, client_id: String },
    LookupNotification { message_id: String, client_id: String, tenant_id: String },
    /// Record the notification with the request body as its payload.
    StoreNotification { message_id: String, tenant_id: String, client_id: String },
    FetchTenant { tenant_id: String },
    BuildProvider(ProviderSetup),
    Send { token: String, message: PushMessage },
    DeleteClient { tenant_id: String, client_id: String },
    SuspendTenant { tenant_id: String, reason: String },
    /// Answer with this status code and an empty body.
    Respond(u16),
    /// Answer with this error.
    Fail(Error),
}

/// Why a tenant is suspended after a failed send, if the failure is one that
/// suspends it.
pub open spec fn suspension_reason(e: Error) -> Option<Seq<char>> {
    match e {
        Error::BadApnsCredentials => Some("Invalid APNS Credentials"@),
        Error::ApnsCertificateExpired => Some("APNs certificate expired"@),
        Error::ApnsCertificateUnknownCA => Some("Unknown APNs certificate's CA"@),
        Error::BadFcmApiKey => Some("Invalid FCM Credentials"@),
        _ => None,
    }
}

/// What the send step answers for the send's `result`: success is accepted,
/// a bad device token deletes the client, a failure that suspends the tenant
/// does so with its reason, and any other failure is the answer.
pub open spec fn sent_outcome(flow: PushFlow, result: Result<(), Error>, next: PushFlow, action: PushAction) -> bool {
    match result {
        Ok(()) => action matches PushAction::Respond(s) && s == STATUS_ACCEPTED,
        Err(Error::BadDeviceToken(_)) => {
            &&& next.stage() == PushStage::AwaitDelete
            &&& action matches PushAction::DeleteClient { tenant_id, client_id }
                && tenant_id == flow.tenant_id() && client_id == flow.client_id()
        },
        Err(e) => match suspension_reason(e) {
            Some(r) => {
                &&& next.stage() == PushStage::AwaitSuspend
                &&& action matches PushAction::SuspendTenant { tenant_id, reason }
                    && tenant_id == flow.tenant_id() && reason@ == r
            },
            None => action == PushAction::Fail(e),
        },
    }
}

/// A client registered with `client_tenant` may receive pushes of the
/// request's tenant: it is that tenant, or, in a multi-tenant deployment, the
/// default tenant (clients registered before tenants existed).
pub open spec fn client_of_tenant(multitenant: bool, tenant_id: Seq<char>, client_tenant: Seq<char>) -> bool {
    client_tenant == tenant_id || (multitenant && client_tenant == DEFAULT_TENANT_ID@)
}

/// How a request may come to a stage: which stage it was in and which answer
/// moved it on. No step enters `AwaitClient`; any step may end the request.
pub open spec fn entered_by(
    multitenant: bool,
    tenant_id: Seq<char>,
    before: PushStage,
    event: PushEvent,
    after: PushStage,
) -> bool {
    match after {
        PushStage::AwaitClient => false,
        PushStage::AwaitLookup => before == PushStage::AwaitClient && (event matches PushEvent::ClientFetched(
            Ok(c),
        ) && client_of_tenant(multitenant, tenant_id, c.tenant_id@)),
        PushStage::AwaitStore => before == PushStage::AwaitLookup && (event matches PushEvent::NotificationFound(
            false,
        )),
        PushStage::AwaitTenant => before == PushStage::AwaitStore && (event matches PushEvent::NotificationStored(
            Ok(n),
        ) && n <= 1),
        PushStage::AwaitProvider => before == PushStage::AwaitTenant && (event matches PushEvent::TenantFetched(
            Ok(t),
        ) && !t.suspended),
        PushStage::AwaitSend => before == PushStage::AwaitProvider && (event matches PushEvent::ProviderBuilt(
            Ok(_),
        )),
        PushStage::AwaitDelete => before == PushStage::AwaitSend && (event matches PushEvent::Sent(
            Err(Error::BadDeviceToken(_)),
        )),
        PushStage::AwaitSuspend => before == PushStage::AwaitSend && (event matches PushEvent::Sent(Err(e))
            && suspension_reason(e) is Some),
        PushStage::Finished => true,
    }
}

/// The state of one push request.
pub struct PushFlow {
    tenant_id: String,
    client_id: String,
    body: PushMessageBody,
    raw_message_id: String,
    stage: PushStage,
    client: Option<Client>,
    message: Option<PushMessage>,
    message_id: String,
    multitenant: bool,
}

impl PushFlow {
    pub closed spec fn stage(&self) -> PushStage {
        self.stage
    }

    /// Whether the deployment serves many tenants.
    pub closed spec fn multitenant(&self) -> bool {
        self.multitenant
    }

    /// The tenant the request is for.
    pub closed spec fn tenant_id(&self) -> String {
        self.tenant_id
    }

    /// The client id: as requested until the client is fetched, then without
    /// its `did:key:` prefix.
    pub closed spec fn client_id(&self) -> String {
        self.client_id
    }

    pub closed spec fn body(&self) -> PushMessageBody {
        self.body
    }

    /// The id a raw message has (as the relay derives it).
    pub closed spec fn raw_message_id(&self) -> String {
        self.raw_message_id
    }

    /// The client record, once fetched.
    pub closed spec fn client(&self) -> Client {
        self.client->0
    }

    /// The message to deliver, once chosen.
    pub closed spec fn message(&self) -> PushMessage {
        self.message->0
    }

    /// The id of the message to deliver, once chosen.
    pub closed spec fn message_id(&self) -> String {
        self.message_id
    }

    pub closed spec fn wf(&self) -> bool {
        &&& self.stage.rank() >= 1 && self.stage != PushStage::Finished ==> self.client is Some
            && self.message is Some
    }

    /// Starts a request for `client_id` of `tenant_id`; `raw_message_id` is
    /// the id of the body's raw message (unused for legacy messages), and
    /// `multitenant` tells whether the deployment serves many tenants.
    pub fn start(
        tenant_id: String,
        client_id: String,
        body: PushMessageBody,
        raw_message_id: String,
        multitenant: bool,
    ) -> (res: (
        PushFlow,
        PushAction,
    ))
        ensures
            res.0.wf(),
            res.0.stage() == PushStage::AwaitClient,
            res.0.tenant_id() == tenant_id,
            res.0.client_id() == client_id,
            res.0.body() == body,
            res.0.raw_message_id() == raw_message_id,
            res.0.multitenant() == multitenant,
            res.1 matches PushAction::FetchClient { tenant_id: t, client_id: c } && t == tenant_id
                && c == client_id,
    {
        let action = PushAction::FetchClient { tenant_id: tenant_id.clone(), client_id: client_id.clone() };
        (
            PushFlow {
                tenant_id,
                client_id,
                body,
                raw_message_id,
                stage: PushStage::AwaitClient,
                client: None,
                message: None,
                message_id: String::new(),
                multitenant,
            },
            action,
        )
    }

    fn finish(self, action: PushAction) -> (res: (PushFlow, PushAction))
        ensures
            res.0.wf(),
            res.0.stage() == PushStage::Finished,
            res.1 == action,
            res.0.tenant_id() == self.tenant_id(),
            res.0.client_id() == self.client_id(),
            res.0.body() == self.body(),
            res.0.raw_message_id() == self.raw_message_id(),
            res.0.message_id() == self.message_id(),
            res.0.client() == self.client(),
            res.0.message() == self.message(),
            res.0.multitenant() == self.multitenant(),
    {
        (PushFlow { stage: PushStage::Finished, ..self }, action)
    }

    /// Takes the answer to the last action and decides the next one.
    pub fn step(self, event: PushEvent) -> (res: (PushFlow, PushAction))
        requires
            self.wf(),
        ensures
            res.0.wf(),
            res.0.tenant_id() == self.tenant_id(),
            res.0.body() == self.body(),
            res.0.raw_message_id() == self.raw_message_id(),
            res.0.multitenant() == self.multitenant(),
            // past the client step, the request keeps the client it fetched,
            // the message it chose and their ids
            self.stage() != PushStage::AwaitClient ==> keeps_fetched(self, res.0),
            // every step moves the request forward
            res.0.stage().rank() > self.stage().rank() || (self.stage() == PushStage::Finished
                && res.0.stage() == PushStage::Finished),
            // each stage is entered only by the answer that clears it
            entered_by(self.multitenant(), self.tenant_id()@, self.stage(), event, res.0.stage()),
            // only an answer ends it
            res.0.stage() == PushStage::Finished <==> (res.1 is Respond || res.1 is Fail),
            // a notification is sent only once its provider is built
            res.1 is Send ==> self.stage() == PushStage::AwaitProvider && res.0.stage()
                == PushStage::AwaitSend,
            // an answer that does not fit the stage is an internal error
            !Self::fits(self.stage(), event) ==> (res.1 matches PushAction::Fail(Error::InternalServerError)),
            // the client: read failures, message choice, tenant check
            self.stage() == PushStage::AwaitClient ==> match event {
                PushEvent::ClientFetched(Err(StoreError::NotFound(_, _))) => res.1 matches PushAction::Fail(
                    Error::ClientNotFound),
                PushEvent::ClientFetched(Err(StoreError::Database(m))) => res.1 matches PushAction::Fail(
                    Error::Store(StoreError::Database(d))) && d == m,
                PushEvent::ClientFetched(Ok(c)) => match selected_message(c.always_raw, self.body()) {
                    None => res.1 matches PushAction::Fail(Error::EmptyField(f)) && f@ == (if c.always_raw {
                        "missing topic, tag, or message field"@
                    } else {
                        "missing id or payload field"@
                    }),
                    Some(m) => if !client_of_tenant(self.multitenant(), self.tenant_id()@, c.tenant_id@) {
                        res.1 matches PushAction::Fail(Error::MissmatchedTenantId)
                    } else {
                        &&& res.0.client() == c
                        &&& res.0.message() == m
                        &&& res.0.client_id()@ == bare_client_id(self.client_id()@)
                        &&& res.0.message_id()@ == (match m {
                            PushMessage::RawPushMessage(_) => self.raw_message_id()@,
                            PushMessage::LegacyPushMessage(l) => l.id@,
                        })
                        &&& res.0.stage() == PushStage::AwaitLookup
                        &&& res.1 matches PushAction::LookupNotification { message_id, client_id, tenant_id }
                            && message_id == res.0.message_id() && client_id == res.0.client_id()
                            && tenant_id == self.tenant_id()
                    },
                },
                _ => true,
            },
            // a notification already received is answered with success, once
            self.stage() == PushStage::AwaitLookup ==> match event {
                PushEvent::NotificationFound(true) => res.1 matches PushAction::Respond(s) && s == STATUS_OK,
                PushEvent::NotificationFound(false) => {
                    &&& res.0.stage() == PushStage::AwaitStore
                    &&& res.1 matches PushAction::StoreNotification { message_id, tenant_id, client_id }
                        && message_id == self.message_id() && tenant_id == self.tenant_id() && client_id
                        == self.client_id()
                },
                _ => true,
            },
            self.stage() == PushStage::AwaitStore ==> match event {
                PushEvent::NotificationStored(Err(e)) => res.1 matches PushAction::Fail(Error::Store(s)) && s == e,
                PushEvent::NotificationStored(Ok(n)) => if n > 1 {
                    res.1 matches PushAction::Respond(s) && s == STATUS_OK
                } else {
                    &&& res.0.stage() == PushStage::AwaitTenant
                    &&& res.1 matches PushAction::FetchTenant { tenant_id } && tenant_id == self.tenant_id()
                },
                _ => true,
            },
            // a suspended tenant is never sent to
            self.stage() == PushStage::AwaitTenant ==> match event {
                PushEvent::TenantFetched(Err(e)) => res.1 == PushAction::Fail(e),
                PushEvent::TenantFetched(Ok(t)) => if t.suspended {
                    res.1 matches PushAction::Fail(Error::TenantSuspended)
                } else {
                    match res.1 {
                        PushAction::BuildProvider(setup) => res.0.stage() == PushStage::AwaitProvider
                            && t.provider_result(self.client().push_type, Ok(setup)),
                        PushAction::Fail(e) => t.provider_result(self.client().push_type, Err(e)),
                        _ => false,
                    }
                },
                _ => true,
            },
            self.stage() == PushStage::AwaitProvider ==> match event {
                PushEvent::ProviderBuilt(Err(e)) => res.1 == PushAction::Fail(e),
                PushEvent::ProviderBuilt(Ok(())) => res.1 matches PushAction::Send { token, message }
                    && token == self.client().token && message == self.message(),
                _ => true,
            },
            // what a failed send leads to
            self.stage() == PushStage::AwaitSend ==> match event {
                PushEvent::Sent(result) => sent_outcome(self, result, res.0, res.1),
                _ => true,
            },
            self.stage() == PushStage::AwaitDelete ==> match event {
                PushEvent::ClientDeleted(Ok(())) => res.1 matches PushAction::Fail(Error::ClientDeleted),
                PushEvent::ClientDeleted(Err(e)) => res.1 matches PushAction::Fail(Error::Store(s)) && s == e,
                _ => true,
            },
            self.stage() == PushStage::AwaitSuspend ==> match event {
                PushEvent::TenantSuspended(Ok(())) => res.1 matches PushAction::Fail(Error::TenantSuspended),
                PushEvent::TenantSuspended(Err(e)) => res.1 == PushAction::Fail(e),
                _ => true,
            },
    {
        if !self.event_fits(&event) {
            return self.finish(PushAction::Fail(Error::InternalServerError));
        }
        match event {
            PushEvent::ClientFetched(result) => self.on_client(result),
            PushEvent::NotificationFound(found) => {
                if found {
                    self.finish(PushAction::Respond(STATUS_OK))
                } else {
                    let action = PushAction::StoreNotification {
                        message_id: self.message_id.clone(),
                        tenant_id: self.tenant_id.clone(),
                        client_id: self.client_id.clone(),
                    };
                    (PushFlow { stage: PushStage::AwaitStore, ..self }, action)
                }
            },
            PushEvent::NotificationStored(result) => match result {
                Err(e) => self.finish(PushAction::Fail(Error::Store(e))),
                Ok(n) => {
                    if n > 1 {
                        self.finish(PushAction::Respond(STATUS_OK))
                    } else {
                        let action = PushAction::FetchTenant { tenant_id: self.tenant_id.clone() };
                        (PushFlow { stage: PushStage::AwaitTenant, ..self }, action)
                    }
                },
            },
            PushEvent::TenantFetched(result) => match result {
                Err(e) => self.finish(PushAction::Fail(e)),
                Ok(tenant) => {
                    if tenant.suspended {
                        return self.finish(PushAction::Fail(Error::TenantSuspended));
                    }
                    let push_type = match &self.client {
                        Some(c) => c.push_type,
                        None => {
                            return self.finish(PushAction::Fail(Error::InternalServerError));
                        },
                    };
                    match tenant.provider(&push_type) {
                        Err(e) => self.finish(PushAction::Fail(e)),
                        Ok(setup) => (PushFlow { stage: PushStage::AwaitProvider, ..self }, PushAction::BuildProvider(setup)),
                    }
                },
            },
            PushEvent::ProviderBuilt(result) => match result {
                Err(e) => self.finish(PushAction::Fail(e)),
                Ok(()) => {
                    let PushFlow { tenant_id, client_id, body, raw_message_id, stage, client, message, message_id, multitenant } = self;
                    match (client, message) {
                        (Some(c), Some(m)) => {
                            let action = PushAction::Send { token: c.token.clone(), message: m.clone_message() };
                            (
                                PushFlow {
                                    tenant_id,
                                    client_id,
                                    body,
                                    raw_message_id,
                                    stage: PushStage::AwaitSend,
                                    client: Some(c),
                                    message: Some(m),
                                    message_id,
                                    multitenant,
                                },
                                action,
                            )
                        },
                        (client, message) => (
                            PushFlow {
                                tenant_id,
                                client_id,
                                body,
                                raw_message_id,
                                stage: PushStage::Finished,
                                client,
                                message,
                                message_id,
                                multitenant,
                            },
                            PushAction::Fail(Error::InternalServerError),
                        ),
                    }
                },
            },
            PushEvent::Sent(result) => match result {
                Ok(()) => self.finish(PushAction::Respond(STATUS_ACCEPTED)),
                Err(Error::BadDeviceToken(_)) => {
                    let action = PushAction::DeleteClient {
                        tenant_id: self.tenant_id.clone(),
                        client_id: self.client_id.clone(),
                    };
                    (PushFlow { stage: PushStage::AwaitDelete, ..self }, action)
                },
                Err(e) => {
                    let reason = match e {
                        Error::BadApnsCredentials => "Invalid APNS Credentials",
                        Error::ApnsCertificateExpired => "APNs certificate expired",
                        Error::ApnsCertificateUnknownCA => "Unknown APNs certificate's CA",
                        Error::BadFcmApiKey => "Invalid FCM Credentials",
                        _ => {
                            return self.finish(PushAction::Fail(e));
                        },
                    };
                    let action = PushAction::SuspendTenant {
                        tenant_id: self.tenant_id.clone(),
                        reason: String::from_str(reason),
                    };
                    (PushFlow { stage: PushStage::AwaitSuspend, ..self }, action)
                },
            },
            PushEvent::ClientDeleted(result) => match result {
                Ok(()) => self.finish(PushAction::Fail(Error::ClientDeleted)),
                Err(e) => self.finish(PushAction::Fail(Error::Store(e))),
            },
            PushEvent::TenantSuspended(result) => match result {
                Ok(()) => self.finish(PushAction::Fail(Error::TenantSuspended)),
                Err(e) => self.finish(PushAction::Fail(e)),
            },
        }
    }

    /// The answer is the one the stage waits for.
    pub open spec fn fits(stage: PushStage, event: PushEvent) -> bool {
        match event {
            PushEvent::ClientFetched(_) => stage == PushStage::AwaitClient,
            PushEvent::NotificationFound(_) => stage == PushStage::AwaitLookup,
            PushEvent::NotificationStored(_) => stage == PushStage::AwaitStore,
            PushEvent::TenantFetched(_) => stage == PushStage::AwaitTenant,
            PushEvent::ProviderBuilt(_) => stage == PushStage::AwaitProvider,
            PushEvent::Sent(_) => stage == PushStage::AwaitSend,
            PushEvent::ClientDeleted(_) => stage == PushStage::AwaitDelete,
            PushEvent::TenantSuspended(_) => stage == PushStage::AwaitSuspend,
        }
    }

    fn event_fits(&self, event: &PushEvent) -> (r: bool)
        ensures
            r == Self::fits(self.stage(), *event),
    {
        match event {
            PushEvent::ClientFetched(_) => self.stage == PushStage::AwaitClient,
            PushEvent::NotificationFound(_) => self.stage == PushStage::AwaitLookup,
            PushEvent::NotificationStored(_) => self.stage == PushStage::AwaitStore,
            PushEvent::TenantFetched(_) => self.stage == PushStage::AwaitTenant,
            PushEvent::ProviderBuilt(_) => self.stage == PushStage::AwaitProvider,
            PushEvent::Sent(_) => self.stage == PushStage::AwaitSend,
            PushEvent::ClientDeleted(_) => self.stage == PushStage::AwaitDelete,
            PushEvent::TenantSuspended(_) => self.stage == PushStage::AwaitSuspend,
        }
    }

    /// The client has been read (or not).
    fn on_client(self, result: Result<Client, StoreError>) -> (res: (PushFlow, PushAction))
        requires
            self.wf(),
            self.stage() == PushStage::AwaitClient,
        ensures
            res.0.wf(),
            res.0.tenant_id() == self.tenant_id(),
            res.0.stage() == PushStage::AwaitLookup || res.0.stage() == PushStage::Finished,
            res.0.body() == self.body(),
            res.0.raw_message_id() == self.raw_message_id(),
            res.0.multitenant() == self.multitenant(),
            entered_by(self.multitenant(), self.tenant_id()@, self.stage(), PushEvent::ClientFetched(result), res.0.stage()),
            res.0.stage() == PushStage::Finished <==> (res.1 is Respond || res.1 is Fail),
            match result {
                Err(StoreError::NotFound(_, _)) => res.1 matches PushAction::Fail(Error::ClientNotFound),
                Err(StoreError::Database(m)) => res.1 matches PushAction::Fail(
                    Error::Store(StoreError::Database(d))) && d == m,
                Ok(c) => match selected_message(c.always_raw, self.body()) {
                    None => res.1 matches PushAction::Fail(Error::EmptyField(f)) && f@ == (if c.always_raw {
                        "missing topic, tag, or message field"@
                    } else {
                        "missing id or payload field"@
                    }),
                    Some(m) => if !client_of_tenant(self.multitenant(), self.tenant_id()@, c.tenant_id@) {
                        res.1 matches PushAction::Fail(Error::MissmatchedTenantId)
                    } else {
                        &&& res.0.client() == c
                        &&& res.0.message() == m
                        &&& res.0.client_id()@ == bare_client_id(self.client_id()@)
                        &&& res.0.message_id()@ == (match m {
                            PushMessage::RawPushMessage(_) => self.raw_message_id()@,
                            PushMessage::LegacyPushMessage(l) => l.id@,
                        })
                        &&& res.0.stage() == PushStage::AwaitLookup
                        &&& res.1 matches PushAction::LookupNotification { message_id, client_id, tenant_id }
                            && message_id == res.0.message_id() && client_id == res.0.client_id()
                            && tenant_id == self.tenant_id()
                    },
                },
            },
    {
        let client = match result {
            Err(StoreError::NotFound(_, _)) => {
                return self.finish(PushAction::Fail(Error::ClientNotFound));
            },
            Err(e) => {
                return self.finish(PushAction::Fail(Error::Store(e)));
            },
            Ok(c) => c,
        };
        let PushFlow {
            tenant_id,
            client_id,
            body,
            raw_message_id,
            stage,
            client: _,
            message: _,
            message_id,
            multitenant,
        } = self;
        let PushMessageBody { raw, legacy } = body;
        let ghost old_body = PushMessageBody { raw, legacy };
        let message = if client.always_raw {
            match &raw {
                Some(r) => PushMessage::RawPushMessage(r.clone_raw()),
                None => {
                    let flow = PushFlow {
                        tenant_id,
                        client_id,
                        body: PushMessageBody { raw, legacy },
                        raw_message_id,
                        stage: PushStage::Finished,
                        client: None,
                        message: None,
                        message_id,
                        multitenant,
                    };
                    return (flow, PushAction::Fail(Error::EmptyField(String::from_str(
                        "missing topic, tag, or message field",
                    ))));
                },
            }
        } else {
            match &legacy {
                Some(l) => PushMessage::LegacyPushMessage(l.clone_legacy()),
                None => {
                    let flow = PushFlow {
                        tenant_id,
                        client_id,
                        body: PushMessageBody { raw, legacy },
                        raw_message_id,
                        stage: PushStage::Finished,
                        client: None,
                        message: None,
                        message_id,
                        multitenant,
                    };
                    return (flow, PushAction::Fail(Error::EmptyField(String::from_str(
                        "missing id or payload field",
                    ))));
                },
            }
        };
        let body = PushMessageBody { raw, legacy };
        assert(body == old_body);
        let new_message_id = message.message_id(raw_message_id.as_str());
        let bare_id = strip_did_prefix(client_id.as_str());
        if !str_eq(tenant_id.as_str(), client.tenant_id.as_str()) && !(multitenant && str_eq(
            client.tenant_id.as_str(),
            DEFAULT_TENANT_ID,
        )) {
            let flow = PushFlow {
                tenant_id,
                client_id: bare_id,
                body,
                raw_message_id,
                stage: PushStage::Finished,
                client: Some(client),
                message: Some(message),
                message_id: new_message_id,
                multitenant,
            };
            return (flow, PushAction::Fail(Error::MissmatchedTenantId));
        }
        let action = PushAction::LookupNotification {
            message_id: new_message_id.clone(),
            client_id: bare_id.clone(),
            tenant_id: tenant_id.clone(),
        };
        let flow = PushFlow {
            tenant_id,
            client_id: bare_id,
            body,
            raw_message_id,
            stage: PushStage::AwaitLookup,
            client: Some(client),
            message: Some(message),
            message_id: new_message_id,
            multitenant,
        };
        (flow, action)
    }
}

/// `after` has the client, message, client id and message id of `before`.
pub open spec fn keeps_fetched(before: PushFlow, after: PushFlow) -> bool {
    &&& after.client() == before.client()
    &&& after.message() == before.message()
    &&& after.client_id() == before.client_id()
    &&& after.message_id() == before.message_id()
}

/// What a request sends, and which client a bad token deletes, are those of
/// the client step: along a run of flows whose steps after the client step
/// keep what was fetched (as `step` ensures), every later flow has the client,
/// message and ids that the client step chose.
pub proof fn lemma_run_keeps_fetched(flows: Seq<PushFlow>, j: int)
    requires
        flows.len() >= 2,
        forall|i: int|
            1 <= i < flows.len() - 1 ==> (#[trigger] flows[i].stage() != PushStage::AwaitClient
                ==> keeps_fetched(flows[i], flows[i + 1])),
        forall|i: int| 1 <= i < flows.len() ==> #[trigger] flows[i].stage() != PushStage::AwaitClient,
        1 <= j < flows.len(),
    ensures
        keeps_fetched(flows[1], flows[j]),
    decreases j,
{
    if j > 1 {
        lemma_run_keeps_fetched(flows, j - 1);
        let k = j - 1;
        assert(flows[k].stage() != PushStage::AwaitClient);
        assert(keeps_fetched(flows[k], flows[k + 1]));
    }
}

/// The stages a request passes, one per answer taken.
pub open spec fn progresses(stages: Seq<PushStage>) -> bool {
    forall|i: int|
        0 <= i < stages.len() - 1 ==> #[trigger] stages[i + 1].rank() > stages[i].rank() || (stages[i]
            == PushStage::Finished && stages[i + 1] == PushStage::Finished)
}

/// A push request sends its notification at most once: along any run of
/// steps (each moving the request forward, a send only out of `AwaitProvider`),
/// at most one step sends.
pub proof fn lemma_sends_at_most_once(stages: Seq<PushStage>, sends: Seq<bool>, i: int, j: int)
    requires
        progresses(stages),
        sends.len() == stages.len() - 1,
        forall|k: int| 0 <= k < sends.len() && #[trigger] sends[k] ==> stages[k]
            == PushStage::AwaitProvider && stages[k + 1] == PushStage::AwaitSend,
        0 <= i < j < sends.len(),
    ensures
        !(sends[i] && sends[j]),
{
    if sends[i] && sends[j] {
        assert(stages[i + 1] == PushStage::AwaitSend);
        assert(stages[j] == PushStage::AwaitProvider);
        assert forall|k: int| i + 1 <= k <= j implies #[trigger] stages[k].rank() >= 5 by {
            lemma_rank_monotone(stages, i + 1, k);
        }
        assert(stages[j].rank() >= 5);
    }
}

proof fn lemma_rank_monotone(stages: Seq<PushStage>, a: int, b: int)
    requires
        progresses(stages),
        0 <= a <= b < stages.len(),
    ensures
        stages[b].rank() >= stages[a].rank(),
    decreases b - a,
{
    if a < b {
        lemma_rank_monotone(stages, a, b - 1);
        let k = b - 1;
        assert(stages[k + 1].rank() > stages[k].rank() || (stages[k] == PushStage::Finished
            && stages[k + 1] == PushStage::Finished));
    }
}


/// A request sends its notification only after every check passed, in order:
/// along any run of steps from the start (each stage entered as `entered_by`
/// allows), a step that moves to `AwaitSend` is the fifth, and the answers
/// before it were the client (registered with the request's tenant), no
/// earlier copy of the notification, its first recording, an active tenant,
/// and the built provider.
pub proof fn lemma_send_follows_checks(multitenant: bool, tenant_id: Seq<char>, stages: Seq<PushStage>, events: Seq<PushEvent>, k: int)
    requires
        stages.len() == events.len() + 1,
        stages[0] == PushStage::AwaitClient,
        forall|i: int| 0 <= i < events.len() ==> #[trigger] entered_by(multitenant, tenant_id, stages[i], events[i], stages[i + 1]),
        0 <= k < events.len(),
        stages[k + 1] == PushStage::AwaitSend,
    ensures
        k == 4,
        events[0] matches PushEvent::ClientFetched(Ok(c)) && client_of_tenant(multitenant, tenant_id, c.tenant_id@),
        events[1] matches PushEvent::NotificationFound(false),
        events[2] matches PushEvent::NotificationStored(Ok(n)) && n <= 1,
        events[3] matches PushEvent::TenantFetched(Ok(t)) && !t.suspended,
        events[4] matches PushEvent::ProviderBuilt(Ok(_)),
{
    assert(entered_by(multitenant, tenant_id, stages[k], events[k], stages[k + 1]));
    assert(stages[k] == PushStage::AwaitProvider);
    let j1 = k - 1;
    assert(entered_by(multitenant, tenant_id, stages[j1], events[j1], stages[j1 + 1]));
    assert(stages[j1] == PushStage::AwaitTenant);
    let j2 = k - 2;
    assert(entered_by(multitenant, tenant_id, stages[j2], events[j2], stages[j2 + 1]));
    assert(stages[j2] == PushStage::AwaitStore);
    let j3 = k - 3;
    assert(entered_by(multitenant, tenant_id, stages[j3], events[j3], stages[j3 + 1]));
    assert(stages[j3] == PushStage::AwaitLookup);
    let j4 = k - 4;
    assert(entered_by(multitenant, tenant_id, stages[j4], events[j4], stages[j4 + 1]));
    assert(stages[j4] == PushStage::AwaitClient);
    if k > 4 {
        let j5 = k - 5;
        assert(entered_by(multitenant, tenant_id, stages[j5], events[j5], stages[j5 + 1]));
    }
}

/// A failed send suspends the tenant only when the provider refused the
/// tenant's own credentials: bad APNS credentials, an expired APNS
/// certificate, an APNS certificate of an unknown CA, or a bad FCM key. The
/// suspension is of the request's tenant and names that failure. Any other
/// failure, except a bad device token (which deletes the client), is the
/// request's answer as it is, and the tenant is left as it was.
pub proof fn lemma_only_credential_failures_suspend(flow: PushFlow, e: Error, next: PushFlow, action: PushAction)
    requires
        sent_outcome(flow, Err(e), next, action),
        !(e is BadDeviceToken),
    ensures
        action is SuspendTenant <==> (e is BadApnsCredentials || e is ApnsCertificateExpired
            || e is ApnsCertificateUnknownCA || e is BadFcmApiKey),
        !(e is BadApnsCredentials || e is ApnsCertificateExpired || e is ApnsCertificateUnknownCA
            || e is BadFcmApiKey) ==> action == PushAction::Fail(e),
        action matches PushAction::SuspendTenant { tenant_id, reason } ==> tenant_id == flow.tenant_id() && reason@
            == (match e {
            Error::BadApnsCredentials => "Invalid APNS Credentials"@,
            Error::ApnsCertificateExpired => "APNs certificate expired"@,
            Error::ApnsCertificateUnknownCA => "Unknown APNs certificate's CA"@,
            _ => "Invalid FCM Credentials"@,
        }),
{
}

/// A send that went through is answered `202 Accepted`; a device token the
/// provider calls bad makes the request delete that client (of the request's
/// tenant, by its id) before answering; a failed send is never answered as a
/// success.
pub proof fn lemma_send_success_and_bad_token(flow: PushFlow, result: Result<(), Error>, next: PushFlow, action: PushAction)
    requires
        sent_outcome(flow, result, next, action),
    ensures
        result is Ok ==> action == PushAction::Respond(202),
        result matches Err(Error::BadDeviceToken(_)) ==> (action matches PushAction::DeleteClient { tenant_id, client_id }
            && tenant_id == flow.tenant_id() && client_id == flow.client_id()),
        result is Err ==> !(action is Respond),
{
}

} // verus!
