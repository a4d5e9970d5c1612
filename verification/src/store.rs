//! Clients keyed by id alone, each only its provider and token. Beside
//! the database there is an in-memory store of clients by id.
use crate::error::Error;
use crate::providers::ProviderKind;
use crate::text::str_eq;
use vstd::prelude::*;

verus! {

/// A registered client: its provider and device token.
#[derive(Debug, Clone, PartialEq, Eq)]
pub struct Client {
    pub push_type: ProviderKind,
    /// The device token (column `device_token`).
    pub token: String,
}

/// The characters of a [`Client`].
pub struct ClientEntry {
    pub push_type: ProviderKind,
    pub token: Seq<char>,
}

impl View for Client {
    type V = ClientEntry;

    open spec fn view(&self) -> ClientEntry {
        ClientEntry { push_type: self.push_type, token: self.token@ }
    }
}

/// Clients by id, held in memory.
pub struct MemoryClientStore {
    entries: Vec<(String, Client)>,
}

pub open spec fn entry_id(e: (String, Client)) -> Seq<char> {
    e.0@
}

/// No two entries have one id.
pub open spec fn unique_ids(entries: Seq<(String, Client)>) -> bool {
    forall|i: int, j: int|
        0 <= i < entries.len() && 0 <= j < entries.len() && i != j ==> entry_id(#[trigger] entries[i])
            != entry_id(#[trigger] entries[j])
}

/// The clients by id that a list of entries holds.
pub open spec fn entries_map(entries: Seq<(String, Client)>) -> Map<Seq<char>, ClientEntry> {
    Map::new(
        |id: Seq<char>| exists|i: int| 0 <= i < entries.len() && entry_id(entries[i]) == id,
        |id: Seq<char>|
            {
                let i = choose|i: int| 0 <= i < entries.len() && entry_id(entries[i]) == id;
                entries[i].1@
            },
    )
}

proof fn lemma_lookup(entries: Seq<(String, Client)>, i: int)
    requires
        unique_ids(entries),
        0 <= i < entries.len(),
    ensures
        entries_map(entries).contains_key(entry_id(entries[i])),
        entries_map(entries)[entry_id(entries[i])] == entries[i].1@,
{
    let id = entry_id(entries[i]);
    assert(exists|k: int| 0 <= k < entries.len() && entry_id(entries[k]) == id);
    let k = choose|k: int| 0 <= k < entries.len() && entry_id(entries[k]) == id;
    assert(k == i);
}

impl MemoryClientStore {
    #[verifier::type_invariant]
    spec fn ids_unique(self) -> bool {
        unique_ids(self.entries@)
    }

    /// The clients by id.
    pub closed spec fn clients(self) -> Map<Seq<char>, ClientEntry> {
        entries_map(self.entries@)
    }

    /// Index of the entry for `id`, if there is one.
    fn position(&self, id: &str) -> (r: Option<usize>)
        ensures
            match r {
                Some(i) => i < self.entries@.len() && entry_id(self.entries@[i as int]) == id@,
                None => forall|i: int| 0 <= i < self.entries@.len() ==> entry_id(self.entries@[i]) != id@,
            },
    {
        let mut i: usize = 0;
        while i < self.entries.len()
            invariant
                i <= self.entries@.len(),
                forall|k: int| 0 <= k < i ==> entry_id(self.entries@[k]) != id@,
            decreases self.entries@.len() - i,
        {
            if str_eq(self.entries[i].0.as_str(), id) {
                return Some(i);
            }
            i = i + 1;
        }
        None
    }

    pub fn new() -> (s: MemoryClientStore)
        ensures
            s.clients() == Map::<Seq<char>, ClientEntry>::empty(),
    {
        let s = MemoryClientStore { entries: Vec::new() };
        assert(s.clients() =~= Map::<Seq<char>, ClientEntry>::empty());
        s
    }

    /// Stores `client` under `id`, in place of any client stored there.
    pub fn create_client(&mut self, id: String, client: Client) -> (res: Result<(), Error>)
        ensures
            res is Ok,
            final(self).clients() == old(self).clients().insert(id@, client@),
    {
        proof {
            use_type_invariant(&*self);
        }
        let ghost before = self.clients();
        let ghost key = id@;
        let ghost value = client@;
        match self.position(id.as_str()) {
            Some(i) => {
                let ghost old_entries = self.entries@;
                let mut entries: Vec<(String, Client)> = Vec::new();
                std::mem::swap(&mut entries, &mut self.entries);
                entries.set(i, (id, client));
                assert(unique_ids(entries@)) by {
                    assert forall|a: int, b: int|
                        0 <= a < entries@.len() && 0 <= b < entries@.len() && a != b implies entry_id(
                        #[trigger] entries@[a]) != entry_id(#[trigger] entries@[b]) by {
                        if a != i && b != i {
                            assert(entry_id(old_entries[a]) != entry_id(old_entries[b]));
                        } else if a == i {
                            assert(entry_id(old_entries[a]) != entry_id(old_entries[b]));
                        } else {
                            assert(entry_id(old_entries[a]) != entry_id(old_entries[b]));
                        }
                    }
                }
                self.entries = entries;
                proof {
                    assert forall|k: Seq<char>| #![auto] self.clients().contains_key(k) <==> before.insert(
                        key,
                        value,
                    ).contains_key(k) by {
                        if k == key {
                            assert(entry_id(self.entries@[i as int]) == key);
                        }
                        if k != key && before.contains_key(k) {
                            let j = choose|j: int| 0 <= j < old_entries.len() && entry_id(old_entries[j]) == k;
                            assert(j != i);
                            assert(self.entries@[j] == old_entries[j]);
                            assert(entry_id(self.entries@[j]) == k);
                        }
                        if self.clients().contains_key(k) && k != key {
                            let j = choose|j: int|
                                0 <= j < self.entries@.len() && entry_id(self.entries@[j]) == k;
                            assert(j != i);
                            assert(self.entries@[j] == old_entries[j]);
                            assert(entry_id(old_entries[j]) == k);
                        }
                    }
                    assert forall|k: Seq<char>| #[trigger] self.clients().contains_key(k) implies self.clients()[k]
                        == before.insert(key, value)[k] by {
                        let j = choose|j: int| 0 <= j < self.entries@.len() && entry_id(self.entries@[j]) == k;
                        lemma_lookup(self.entries@, j);
                        if k != key {
                            assert(entry_id(old_entries[j]) == k);
                            assert(old_entries[j] == self.entries@[j]);
                            lemma_lookup(old_entries, j);
                        }
                    }
                    assert(self.clients() =~= before.insert(key, value));
                }
            },
            None => {
                let ghost old_entries = self.entries@;
                let mut entries: Vec<(String, Client)> = Vec::new();
                std::mem::swap(&mut entries, &mut self.entries);
                entries.push((id, client));
                assert(unique_ids(entries@)) by {
                    assert forall|a: int, b: int|
                        0 <= a < entries@.len() && 0 <= b < entries@.len() && a != b implies entry_id(
                        #[trigger] entries@[a]) != entry_id(#[trigger] entries@[b]) by {
                        if a < old_entries.len() && b < old_entries.len() {
                            assert(entry_id(old_entries[a]) != entry_id(old_entries[b]));
                        } else if a < old_entries.len() {
                            assert(entry_id(old_entries[a]) != key);
                        } else {
                            assert(entry_id(old_entries[b]) != key);
                        }
                    }
                }
                self.entries = entries;
                proof {
                    let n = old_entries.len() as int;
                    assert(entry_id(self.entries@[n]) == key);
                    assert forall|k: Seq<char>| #![auto] self.clients().contains_key(k) <==> before.insert(
                        key,
                        value,
                    ).contains_key(k) by {
                        if k != key && before.contains_key(k) {
                            let j = choose|j: int| 0 <= j < old_entries.len() && entry_id(old_entries[j]) == k;
                            assert(entry_id(self.entries@[j]) == k);
                        }
                        if self.clients().contains_key(k) && k != key {
                            let j = choose|j: int|
                                0 <= j < self.entries@.len() && entry_id(self.entries@[j]) == k;
                            assert(j < n);
                            assert(entry_id(old_entries[j]) == k);
                        }
                    }
                    assert forall|k: Seq<char>| #[trigger] self.clients().contains_key(k) implies self.clients()[k]
                        == before.insert(key, value)[k] by {
                        let j = choose|j: int| 0 <= j < self.entries@.len() && entry_id(self.entries@[j]) == k;
                        lemma_lookup(self.entries@, j);
                        if k != key {
                            assert(j < n);
                            assert(old_entries[j] == self.entries@[j]);
                            lemma_lookup(old_entries, j);
                        }
                    }
                    assert(self.clients() =~= before.insert(key, value));
                }
            },
        }
        Ok(())
    }

    /// The client stored under `id`, if any.
    pub fn get_client(&self, id: &str) -> (res: Result<Option<&Client>, Error>)
        ensures
            match res {
                Ok(Some(c)) => self.clients().contains_key(id@) && c@ == self.clients()[id@],
                Ok(None) => !self.clients().contains_key(id@),
                Err(_) => false,
            },
    {
        proof {
            use_type_invariant(self);
        }
        match self.position(id) {
            Some(i) => {
                proof {
                    lemma_lookup(self.entries@, i as int);
                }
                Ok(Some(&self.entries[i].1))
            },
            None => Ok(None),
        }
    }

    /// Removes the client stored under `id`, if any.
    pub fn delete_client(&mut self, id: &str) -> (res: Result<(), Error>)
        ensures
            res is Ok,
            final(self).clients() == old(self).clients().remove(id@),
    {
        proof {
            use_type_invariant(&*self);
        }
        let ghost before = self.clients();
        match self.position(id) {
            Some(i) => {
                let ghost old_entries = self.entries@;
                let mut entries: Vec<(String, Client)> = Vec::new();
                std::mem::swap(&mut entries, &mut self.entries);
                let _ = entries.remove(i);
                assert(unique_ids(entries@)) by {
                    assert forall|a: int, b: int|
                        0 <= a < entries@.len() && 0 <= b < entries@.len() && a != b implies entry_id(
                        #[trigger] entries@[a]) != entry_id(#[trigger] entries@[b]) by {
                        let oa = if a < i { a } else { a + 1 };
                        let ob = if b < i { b } else { b + 1 };
                        assert(entries@[a] == old_entries[oa]);
                        assert(entries@[b] == old_entries[ob]);
                        assert(entry_id(old_entries[oa]) != entry_id(old_entries[ob]));
                    }
                }
                self.entries = entries;
                proof {
                    assert forall|k: Seq<char>| #![auto] self.clients().contains_key(k) <==> before.remove(
                        id@,
                    ).contains_key(k) by {
                        if k != id@ && before.contains_key(k) {
                            let j = choose|j: int| 0 <= j < old_entries.len() && entry_id(old_entries[j]) == k;
                            if j < i {
                                assert(entry_id(self.entries@[j]) == k);
                            } else {
                                assert(j != i);
                                assert(entry_id(self.entries@[j - 1]) == k);
                            }
                        }
                        if self.clients().contains_key(k) {
                            let j = choose|j: int|
                                0 <= j < self.entries@.len() && entry_id(self.entries@[j]) == k;
                            if j < i {
                                assert(entry_id(old_entries[j]) == k);
                            } else {
                                assert(entry_id(old_entries[j + 1]) == k);
                                assert(j + 1 != i);
                            }
                        }
                    }
                    assert forall|k: Seq<char>| #[trigger] self.clients().contains_key(k) implies self.clients()[k]
                        == before.remove(id@)[k] by {
                        let j = choose|j: int| 0 <= j < self.entries@.len() && entry_id(self.entries@[j]) == k;
                        lemma_lookup(self.entries@, j);
                        if j < i {
                            assert(old_entries[j] == self.entries@[j]);
                            lemma_lookup(old_entries, j);
                        } else {
                            assert(old_entries[j + 1] == self.entries@[j]);
                            lemma_lookup(old_entries, j + 1);
                        }
                    }
                    assert(self.clients() =~= before.remove(id@));
                }
            },
            None => {
                proof {
                    assert(!before.contains_key(id@));
                    assert(before.remove(id@) =~= before);
                }
            },
        }
        Ok(())
    }
}

/// What a read gives back of a write: after storing a client under an id the
/// id reads as that client, other ids read as before; after deleting an id it
/// reads as absent, other ids read as before.
pub proof fn lemma_store_read_after_write(
    clients: Map<Seq<char>, ClientEntry>,
    id: Seq<char>,
    client: ClientEntry,
    other: Seq<char>,
)
    requires
        other != id,
    ensures
        clients.insert(id, client).contains_key(id),
        clients.insert(id, client)[id] == client,
        !clients.remove(id).contains_key(id),
        clients.insert(id, client).contains_key(other) == clients.contains_key(other),
        clients.remove(id).contains_key(other) == clients.contains_key(other),
        clients.contains_key(other) ==> clients.insert(id, client)[other] == clients[other]
            && clients.remove(id)[other] == clients[other],
{
}

} // verus!
