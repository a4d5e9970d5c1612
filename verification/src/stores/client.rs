//! Registered wallet clients and how a registration updates the clients table.
use crate::providers::ProviderKind;
use crate::text::str_eq;
use vstd::prelude::*;

verus! {

/// A registered client: the tenant it belongs to, its provider and device token.
#[derive(Debug, Clone, PartialEq, Eq)]
pub struct Client {
    pub tenant_id: String,
    pub push_type: ProviderKind,
    /// The device token (column `device_token`).
    pub token: String,
    pub always_raw: bool,
}

/// A row of the clients table, apart from its id.
pub struct ClientRow {
    pub tenant_id: Seq<char>,
    pub push_type: ProviderKind,
    pub token: Seq<char>,
    pub always_raw: bool,
}

impl View for Client {
    type V = ClientRow;

    open spec fn view(&self) -> ClientRow {
        ClientRow {
            tenant_id: self.tenant_id@,
            push_type: self.push_type,
            token: self.token@,
            always_raw: self.always_raw,
        }
    }
}

/// The row that a registration finds, locked, before it writes: the one whose
/// id or device token is the registration's.
pub struct ExistingClient {
    pub id: String,
    pub device_token: String,
    pub tenant_id: String,
}

/// What a registration writes to the clients table.
pub enum ClientWrite {
    /// The id is known with another token: the row takes the new token and
    /// attributes.
    UpdateDeviceToken { id: String, client: Client },
    /// The token belongs to another id: that client's notifications are
    /// deleted and its row is taken over by the new id.
    ReassignId { old_id: String, old_tenant_id: String, id: String, client: Client },
    /// The row is the registration's already: only its attributes change.
    UpdateAttributes { id: String, client: Client },
    /// Neither the id nor the token is known: a new row.
    Insert { id: String, client: Client },
}

/// The table in the model: rows by client id.
pub type ClientTable = Map<Seq<char>, ClientRow>;

/// No two rows share a device token.
pub open spec fn tokens_unique(table: ClientTable) -> bool {
    forall|a: Seq<char>, b: Seq<char>|
        #![trigger table[a], table[b]]
        table.contains_key(a) && table.contains_key(b) && a != b ==> table[a].token != table[b].token
}

/// The rows that the registration's lookup matches: by id or by token.
pub open spec fn matches_registration(table: ClientTable, id: Seq<char>, token: Seq<char>, k: Seq<char>) -> bool {
    table.contains_key(k) && (k == id || table[k].token == token)
}

/// What a registration writes, given the row its lookup found.
pub open spec fn registration_write(
    existing: Option<ExistingClient>,
    id: Seq<char>,
    client: ClientRow,
) -> ClientWriteKind {
    match existing {
        Some(e) => if e.id@ == id && e.device_token@ != client.token {
            ClientWriteKind::UpdateDeviceToken
        } else if e.device_token@ == client.token && e.id@ != id {
            ClientWriteKind::ReassignId
        } else {
            ClientWriteKind::UpdateAttributes
        },
        None => ClientWriteKind::Insert,
    }
}

/// The four shapes of a registration's write.
#[derive(PartialEq, Eq, Structural)]
pub enum ClientWriteKind {
    UpdateDeviceToken,
    ReassignId,
    UpdateAttributes,
    Insert,
}

impl ClientWrite {
    pub open spec fn kind(self) -> ClientWriteKind {
        match self {
            ClientWrite::UpdateDeviceToken { .. } => ClientWriteKind::UpdateDeviceToken,
            ClientWrite::ReassignId { .. } => ClientWriteKind::ReassignId,
            ClientWrite::UpdateAttributes { .. } => ClientWriteKind::UpdateAttributes,
            ClientWrite::Insert { .. } => ClientWriteKind::Insert,
        }
    }

    /// The id the written row ends with.
    pub open spec fn id(self) -> Seq<char> {
        match self {
            ClientWrite::UpdateDeviceToken { id, .. } => id@,
            ClientWrite::ReassignId { id, .. } => id@,
            ClientWrite::UpdateAttributes { id, .. } => id@,
            ClientWrite::Insert { id, .. } => id@,
        }
    }

    /// The client the write carries.
    pub open spec fn client(self) -> ClientRow {
        match self {
            ClientWrite::UpdateDeviceToken { client, .. } => client@,
            ClientWrite::ReassignId { client, .. } => client@,
            ClientWrite::UpdateAttributes { client, .. } => client@,
            ClientWrite::Insert { client, .. } => client@,
        }
    }

    /// What the write's statements do to the table.
    pub open spec fn apply(self, table: ClientTable) -> ClientTable {
        match self {
            // UPDATE ... SET device_token, push_type, always_raw, tenant_id WHERE id
            ClientWrite::UpdateDeviceToken { id, client } => if table.contains_key(id@) {
                table.insert(id@, client@)
            } else {
                table
            },
            // UPDATE ... SET id, push_type, always_raw, tenant_id WHERE device_token
            ClientWrite::ReassignId { old_id, id, client, .. } => if table.contains_key(old_id@)
                && table[old_id@].token == client.token@ {
                table.remove(old_id@).insert(id@, client@)
            } else {
                table
            },
            // UPDATE ... SET push_type, always_raw, tenant_id WHERE id
            ClientWrite::UpdateAttributes { id, client } => if table.contains_key(id@) {
                table.insert(
                    id@,
                    ClientRow {
                        tenant_id: client.tenant_id@,
                        push_type: client.push_type,
                        token: table[id@].token,
                        always_raw: client.always_raw,
                    },
                )
            } else {
                table
            },
            ClientWrite::Insert { id, client } => table.insert(id@, client@),
        }
    }
}

/// A row of the notifications table: message id, client id and tenant id.
pub type NotificationKey = (Seq<char>, Seq<char>, Seq<char>);

impl ClientWrite {
    /// What the write's statements do to the notifications table: taking over
    /// another client's token first deletes that client's notifications (by
    /// its id and tenant); the other writes leave the table alone.
    pub open spec fn apply_notifications(self, notes: Set<NotificationKey>) -> Set<NotificationKey> {
        match self {
            // DELETE FROM notifications WHERE client_id AND tenant_id
            ClientWrite::ReassignId { old_id, old_tenant_id, .. } => notes.filter(
                |n: NotificationKey| !(n.1 == old_id@ && n.2 == old_tenant_id@),
            ),
            _ => notes,
        }
    }
}

/// Decides what registering `client` under `id` for `tenant_id` writes, given
/// the row that the locked lookup by id or token found. The written row
/// carries `tenant_id` as the client's tenant.
pub fn plan_registration(tenant_id: &str, id: &str, client: &Client, existing: Option<ExistingClient>) -> (w:
    ClientWrite)
    ensures
        w.kind() == registration_write(existing, id@, client@),
        w.id() == id@,
        w.client() == (ClientRow {
            tenant_id: tenant_id@,
            push_type: client.push_type,
            token: client.token@,
            always_raw: client.always_raw,
        }),
        w matches ClientWrite::ReassignId { old_id, old_tenant_id, .. } ==> existing matches Some(e)
            && old_id == e.id && old_tenant_id == e.tenant_id,
{
    let row = Client {
        tenant_id: String::from_str(tenant_id),
        push_type: client.push_type,
        token: client.token.clone(),
        always_raw: client.always_raw,
    };
    match existing {
        Some(e) => {
            let same_id = str_eq(e.id.as_str(), id);
            let same_token = str_eq(e.device_token.as_str(), client.token.as_str());
            if same_id && !same_token {
                ClientWrite::UpdateDeviceToken { id: String::from_str(id), client: row }
            } else if same_token && !same_id {
                ClientWrite::ReassignId {
                    old_id: e.id,
                    old_tenant_id: e.tenant_id,
                    id: String::from_str(id),
                    client: row,
                }
            } else {
                ClientWrite::UpdateAttributes { id: String::from_str(id), client: row }
            }
        },
        None => ClientWrite::Insert { id: String::from_str(id), client: row },
    }
}

/// A registration is an upsert keyed by both id and device token. When the
/// table has no two rows with one token, and the locked lookup found the one
/// row (if any) whose id or token is the registration's, then after the write
/// the id maps to the registered client, the rows the lookup matched are gone
/// otherwise, every other row is unchanged, and still no two rows share a token.
pub proof fn lemma_registration_upserts(
    table: ClientTable,
    existing: Option<ExistingClient>,
    w: ClientWrite,
)
    requires
        tokens_unique(table),
        // the lookup matched at most one row, and reports it
        forall|a: Seq<char>, b: Seq<char>|
            matches_registration(table, w.id(), w.client().token, a) && matches_registration(
                table,
                w.id(),
                w.client().token,
                b,
            ) ==> a == b,
        match existing {
            Some(e) => matches_registration(table, w.id(), w.client().token, e.id@)
                && e.device_token@ == table[e.id@].token,
            None => forall|k: Seq<char>| !matches_registration(table, w.id(), w.client().token, k),
        },
        // the write is the one planned for that row
        w.kind() == registration_write(existing, w.id(), w.client()),
        w matches ClientWrite::ReassignId { old_id, .. } ==> existing matches Some(e) && old_id == e.id,
    ensures
        w.apply(table).contains_key(w.id()),
        w.apply(table)[w.id()] == w.client(),
        forall|k: Seq<char>|
            k != w.id() ==> (w.apply(table).contains_key(k) <==> (table.contains_key(k)
                && !matches_registration(table, w.id(), w.client().token, k))),
        forall|k: Seq<char>|
            k != w.id() && #[trigger] w.apply(table).contains_key(k) ==> w.apply(table)[k] == table[k],
        tokens_unique(w.apply(table)),
{
    let id = w.id();
    let row = w.client();
    let after = w.apply(table);
    match existing {
        Some(e) => {
            assert(matches_registration(table, id, row.token, e.id@));
            if e.id@ == id {
                // the row by id has the registration's token, or no row has it
                assert forall|k: Seq<char>| k != id && table.contains_key(k) implies table[k].token
                    != row.token by {
                    if table[k].token == row.token {
                        assert(matches_registration(table, id, row.token, k));
                    }
                }
            } else {
                assert(table[e.id@].token == row.token);
                assert(!table.contains_key(id)) by {
                    if table.contains_key(id) {
                        assert(matches_registration(table, id, row.token, id));
                    }
                }
                assert forall|k: Seq<char>| k != e.id@ && table.contains_key(k) implies table[k].token
                    != row.token by {
                    if table[k].token == row.token {
                        assert(matches_registration(table, id, row.token, k));
                    }
                }
            }
        },
        None => {
            assert(!table.contains_key(id)) by {
                if table.contains_key(id) {
                    assert(matches_registration(table, id, row.token, id));
                }
            }
            assert forall|k: Seq<char>| table.contains_key(k) implies table[k].token != row.token by {
                assert(!matches_registration(table, id, row.token, k));
            }
        },
    }
    assert forall|a: Seq<char>, b: Seq<char>|
        #![trigger after[a], after[b]]
        after.contains_key(a) && after.contains_key(b) && a != b implies after[a].token
        != after[b].token by {
        if a != id && b != id {
            assert(table[a].token != table[b].token);
        }
    }
}


/// When the id and the token belong to two different rows, the lookup finds
/// one of them, and whichever it finds, the planned write would break a key of
/// the table: either the id's row takes a token another row has, or the token's
/// row takes an id another row has. The database, whose ids and tokens are
/// unique, refuses such a write, so the registration fails and changes nothing.
pub proof fn lemma_registration_conflict(
    table: ClientTable,
    existing: Option<ExistingClient>,
    w: ClientWrite,
    other: Seq<char>,
)
    requires
        tokens_unique(table),
        // the id has a row, and another row has the token
        table.contains_key(w.id()),
        table.contains_key(other),
        other != w.id(),
        table[other].token == w.client().token,
        // the lookup reports one of the rows it matched
        existing matches Some(e) && matches_registration(table, w.id(), w.client().token, e.id@)
            && e.device_token@ == table[e.id@].token,
        w.kind() == registration_write(existing, w.id(), w.client()),
        w matches ClientWrite::ReassignId { old_id, .. } ==> existing matches Some(e) && old_id == e.id,
    ensures
        w.kind() == ClientWriteKind::UpdateDeviceToken || w.kind() == ClientWriteKind::ReassignId,
        w.kind() == ClientWriteKind::UpdateDeviceToken ==> !tokens_unique(w.apply(table)),
        w matches ClientWrite::ReassignId { old_id, id, .. } ==> table.contains_key(id@) && old_id@ != id@,
{
    let id = w.id();
    let e = existing->0;
    if e.id@ == id {
        assert(table[id].token != table[other].token);
        assert(e.device_token@ != w.client().token);
        if w.kind() == ClientWriteKind::UpdateDeviceToken {
            let after = w.apply(table);
            assert(after[id].token == w.client().token);
            assert(after[other] == table[other]);
            assert(after.contains_key(id) && after.contains_key(other) && id != other
                && after[id].token == after[other].token);
        }
    } else {
        assert(table[e.id@].token == w.client().token);
    }
}

/// The lookup found another client with the registration's device token.
pub open spec fn takes_token_over(existing: Option<ExistingClient>, w: ClientWrite) -> bool {
    existing matches Some(e) && e.device_token@ == w.client().token && e.id@ != w.id()
}

/// A registration that takes a device token over from another client drops
/// that client's notifications and keeps every other one; any other
/// registration leaves the notifications as they were.
pub proof fn lemma_registration_notifications(
    existing: Option<ExistingClient>,
    w: ClientWrite,
    notes: Set<NotificationKey>,
)
    requires
        w.kind() == registration_write(existing, w.id(), w.client()),
        w matches ClientWrite::ReassignId { old_id, old_tenant_id, .. } ==> existing matches Some(e)
            && old_id == e.id && old_tenant_id == e.tenant_id,
    ensures
        takes_token_over(existing, w) ==> forall|n: NotificationKey|
            #[trigger] w.apply_notifications(notes).contains(n) <==> (notes.contains(n) && !(n.1
                == existing->0.id@ && n.2 == existing->0.tenant_id@)),
        !takes_token_over(existing, w)
            ==> w.apply_notifications(notes) == notes,
{
}

} // verus!
