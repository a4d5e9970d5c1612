//! The no-op provider, a development aid: it delivers nothing and keeps
//! every message it was given, by device token.
use crate::error::Error;
use crate::providers::PushMessage;
use crate::text::str_eq;
use vstd::prelude::*;

verus! {

/// Messages kept by device token.
pub struct NoopProvider {
    notifications: Vec<(String, Vec<PushMessage>)>,
}

pub open spec fn token_of(e: (String, Vec<PushMessage>)) -> Seq<char> {
    e.0@
}

/// No two entries are for one token.
pub open spec fn tokens_distinct(entries: Seq<(String, Vec<PushMessage>)>) -> bool {
    forall|i: int, j: int|
        0 <= i < entries.len() && 0 <= j < entries.len() && i != j ==> token_of(#[trigger] entries[i])
            != token_of(#[trigger] entries[j])
}

/// The messages kept for each token that has any entry.
pub open spec fn kept(entries: Seq<(String, Vec<PushMessage>)>) -> Map<Seq<char>, Seq<PushMessage>> {
    Map::new(
        |t: Seq<char>| exists|i: int| 0 <= i < entries.len() && token_of(entries[i]) == t,
        |t: Seq<char>|
            {
                let i = choose|i: int| 0 <= i < entries.len() && token_of(entries[i]) == t;
                entries[i].1@
            },
    )
}

proof fn lemma_kept_at(entries: Seq<(String, Vec<PushMessage>)>, i: int)
    requires
        tokens_distinct(entries),
        0 <= i < entries.len(),
    ensures
        kept(entries).contains_key(token_of(entries[i])),
        kept(entries)[token_of(entries[i])] == entries[i].1@,
{
    let t = token_of(entries[i]);
    assert(exists|k: int| 0 <= k < entries.len() && token_of(entries[k]) == t);
    let k = choose|k: int| 0 <= k < entries.len() && token_of(entries[k]) == t;
    assert(k == i);
}

impl NoopProvider {
    #[verifier::type_invariant]
    spec fn one_entry_per_token(self) -> bool {
        tokens_distinct(self.notifications@)
    }

    /// The messages kept, by token.
    pub closed spec fn messages(self) -> Map<Seq<char>, Seq<PushMessage>> {
        kept(self.notifications@)
    }

    pub fn new() -> (p: NoopProvider)
        ensures
            p.messages() == Map::<Seq<char>, Seq<PushMessage>>::empty(),
    {
        let p = NoopProvider { notifications: Vec::new() };
        assert(p.messages() =~= Map::<Seq<char>, Seq<PushMessage>>::empty());
        p
    }

    /// Index of the entry for `token`, if there is one.
    fn position(&self, token: &str) -> (r: Option<usize>)
        ensures
            match r {
                Some(i) => i < self.notifications@.len() && token_of(self.notifications@[i as int]) == token@,
                None => forall|i: int|
                    0 <= i < self.notifications@.len() ==> token_of(self.notifications@[i]) != token@,
            },
    {
        let mut i: usize = 0;
        while i < self.notifications.len()
            invariant
                i <= self.notifications@.len(),
                forall|k: int| 0 <= k < i ==> token_of(self.notifications@[k]) != token@,
            decreases self.notifications@.len() - i,
        {
            if str_eq(self.notifications[i].0.as_str(), token) {
                return Some(i);
            }
            i = i + 1;
        }
        None
    }

    /// The messages kept for `token` (none for a token never seen).
    pub fn notifications_for(&self, token: &str) -> (r: &[PushMessage])
        ensures
            self.messages().contains_key(token@) ==> r@ == self.messages()[token@],
            !self.messages().contains_key(token@) ==> r@.len() == 0,
    {
        proof {
            use_type_invariant(self);
        }
        match self.position(token) {
            Some(i) => {
                proof {
                    lemma_kept_at(self.notifications@, i as int);
                }
                self.notifications[i].1.as_slice()
            },
            None => &[],
        }
    }

    /// Keeps `body` as the latest message for `token`. It never fails.
    pub fn send_notification(&mut self, token: String, body: PushMessage) -> (res: Result<(), Error>)
        ensures
            res is Ok,
            final(self).messages() == old(self).messages().insert(
                token@,
                (if old(self).messages().contains_key(token@) {
                    old(self).messages()[token@]
                } else {
                    Seq::empty()
                }).push(body),
            ),
    {
        proof {
            use_type_invariant(&*self);
        }
        let ghost before = self.messages();
        let ghost key = token@;
        let ghost old_entries = self.notifications@;
        let ghost value = (if before.contains_key(key) {
            before[key]
        } else {
            Seq::empty()
        }).push(body);
        let mut entries: Vec<(String, Vec<PushMessage>)> = Vec::new();
        std::mem::swap(&mut entries, &mut self.notifications);
        match self.position_in(&entries, token.as_str()) {
            Some(i) => {
                proof {
                    lemma_kept_at(old_entries, i as int);
                }
                let (t, mut list) = entries.remove(i);
                list.push(body);
                entries.insert(i, (t, list));
                assert(entries@ =~= old_entries.update(i as int, entries@[i as int]));
                assert(unique_after_update(old_entries, i as int, entries@[i as int])) by {
                    lemma_update_keeps_distinct(old_entries, i as int, entries@[i as int]);
                }
            },
            None => {
                let mut list: Vec<PushMessage> = Vec::new();
                list.push(body);
                entries.push((token, list));
                assert(entries@ =~= old_entries.push(entries@[old_entries.len() as int]));
                proof {
                    lemma_push_keeps_distinct(old_entries, entries@[old_entries.len() as int]);
                }
            },
        }
        proof {
            let n = entries@;
            assert forall|k: Seq<char>| #![auto] kept(n).contains_key(k) <==> before.insert(key, value).contains_key(k) by {
                if k == key {
                    let j = if exists|j: int| 0 <= j < old_entries.len() && token_of(old_entries[j]) == key {
                        choose|j: int| 0 <= j < old_entries.len() && token_of(old_entries[j]) == key
                    } else {
                        old_entries.len() as int
                    };
                    assert(token_of(n[j]) == key);
                }
                if k != key && before.contains_key(k) {
                    let j = choose|j: int| 0 <= j < old_entries.len() && token_of(old_entries[j]) == k;
                    assert(token_of(n[j]) == k);
                }
                if kept(n).contains_key(k) && k != key {
                    let j = choose|j: int| 0 <= j < n.len() && token_of(n[j]) == k;
                    assert(j < old_entries.len());
                    assert(token_of(old_entries[j]) == k);
                }
            }
            assert forall|k: Seq<char>| #[trigger] kept(n).contains_key(k) implies kept(n)[k] == before.insert(
                key,
                value,
            )[k] by {
                let j = choose|j: int| 0 <= j < n.len() && token_of(n[j]) == k;
                lemma_kept_at(n, j);
                if k != key {
                    assert(j < old_entries.len());
                    assert(n[j] == old_entries[j]);
                    lemma_kept_at(old_entries, j);
                } else if j < old_entries.len() {
                    lemma_kept_at(old_entries, j);
                }
            }
            assert(kept(n) =~= before.insert(key, value));
        }
        self.notifications = entries;
        Ok(())
    }

    fn position_in(&self, entries: &Vec<(String, Vec<PushMessage>)>, token: &str) -> (r: Option<usize>)
        ensures
            match r {
                Some(i) => i < entries@.len() && token_of(entries@[i as int]) == token@,
                None => forall|i: int| 0 <= i < entries@.len() ==> token_of(entries@[i]) != token@,
            },
    {
        let mut i: usize = 0;
        while i < entries.len()
            invariant
                i <= entries@.len(),
                forall|k: int| 0 <= k < i ==> token_of(entries@[k]) != token@,
            decreases entries@.len() - i,
        {
            if str_eq(entries[i].0.as_str(), token) {
                return Some(i);
            }
            i = i + 1;
        }
        None
    }
}

pub open spec fn unique_after_update(
    entries: Seq<(String, Vec<PushMessage>)>,
    i: int,
    e: (String, Vec<PushMessage>),
) -> bool {
    tokens_distinct(entries.update(i, e))
}

proof fn lemma_update_keeps_distinct(entries: Seq<(String, Vec<PushMessage>)>, i: int, e: (String, Vec<PushMessage>))
    requires
        tokens_distinct(entries),
        0 <= i < entries.len(),
        token_of(e) == token_of(entries[i]),
    ensures
        unique_after_update(entries, i, e),
{
    let n = entries.update(i, e);
    assert forall|a: int, b: int| 0 <= a < n.len() && 0 <= b < n.len() && a != b implies token_of(#[trigger] n[a])
        != token_of(#[trigger] n[b]) by {
        assert(token_of(entries[a]) != token_of(entries[b]));
    }
}

proof fn lemma_push_keeps_distinct(entries: Seq<(String, Vec<PushMessage>)>, e: (String, Vec<PushMessage>))
    requires
        tokens_distinct(entries),
        forall|i: int| 0 <= i < entries.len() ==> token_of(entries[i]) != token_of(e),
    ensures
        tokens_distinct(entries.push(e)),
{
    let n = entries.push(e);
    assert forall|a: int, b: int| 0 <= a < n.len() && 0 <= b < n.len() && a != b implies token_of(#[trigger] n[a])
        != token_of(#[trigger] n[b]) by {
        if a < entries.len() && b < entries.len() {
            assert(token_of(entries[a]) != token_of(entries[b]));
        } else if a < entries.len() {
            assert(n[b] == e);
        } else {
            assert(n[a] == e);
        }
    }
}

} // verus!
