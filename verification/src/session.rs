//! Sessions: the server-side record behind a cookie, and what it carries.

use crate::assoc::{keys_distinct, lemma_absent, lemma_empty, lemma_entry, lemma_push, lemma_remove, lemma_update, to_map};
use crate::clock::Timestamp;
use vstd::prelude::*;

verus! {

/// The opaque token that names a session. It is drawn from 128 random bits
/// by whoever creates the session.
#[derive(Clone, Copy, Debug, PartialEq, Eq, Hash, Structural)]
pub struct SessionId(pub u128);

/// The identifier of a user record.
pub type UserId = u64;

/// A login attempt that waits for the provider's callback.
#[derive(Debug, PartialEq, Eq)]
pub struct OAuthAttempt {
    /// The anti-forgery token that the callback has to bring back.
    pub csrf_state: String,
    /// When the attempt was started.
    pub created_at: Timestamp,
}

/// What an [`OAuthAttempt`] holds.
pub struct AttemptView {
    pub csrf_state: Seq<char>,
    pub created_at: Timestamp,
}

impl View for OAuthAttempt {
    type V = AttemptView;

    open spec fn view(&self) -> AttemptView {
        AttemptView { csrf_state: self.csrf_state@, created_at: self.created_at }
    }
}

impl Clone for OAuthAttempt {
    fn clone(&self) -> (copy: OAuthAttempt)
        ensures
            copy@ == self@,
    {
        OAuthAttempt { csrf_state: self.csrf_state.clone(), created_at: self.created_at }
    }
}

/// The view of an optional attempt.
pub open spec fn attempt_view(a: Option<OAuthAttempt>) -> Option<AttemptView> {
    match a {
        Some(a) => Some(a@),
        None => None,
    }
}

/// One entry of a session's data: a serialized value under a string key.
#[derive(Clone, Debug, PartialEq, Eq)]
pub struct Entry {
    pub key: String,
    pub value: Vec<u8>,
}

/// The entries of a session's data as key and value pairs.
pub open spec fn entry_pairs(entries: Seq<Entry>) -> Seq<(Seq<char>, Seq<u8>)> {
    Seq::new(entries.len(), |i: int| (entries[i].key@, entries[i].value@))
}

/// What a [`SessionData`] holds.
pub struct DataView {
    /// The authenticated identity, if any: at most one user at a time.
    pub identity: Option<UserId>,
    /// The login attempt that is pending, if any: at most one at a time.
    pub attempt: Option<AttemptView>,
    /// Everything else, by key.
    pub entries: Map<Seq<char>, Seq<u8>>,
}

/// The data with no identity, no pending attempt and no entry.
pub open spec fn empty_data() -> DataView {
    DataView { identity: None, attempt: None, entries: Map::empty() }
}

/// The data of a session: the identity that it is authenticated as, the
/// login attempt in flight, and a mapping from string keys to serialized
/// values.
#[derive(Debug)]
pub struct SessionData {
    identity: Option<UserId>,
    attempt: Option<OAuthAttempt>,
    entries: Vec<Entry>,
}

impl View for SessionData {
    type V = DataView;

    closed spec fn view(&self) -> DataView {
        DataView {
            identity: self.identity,
            attempt: attempt_view(self.attempt),
            entries: to_map(entry_pairs(self.entries@)),
        }
    }
}

impl SessionData {
    #[verifier::type_invariant]
    spec fn keys_are_distinct(self) -> bool {
        keys_distinct(entry_pairs(self.entries@))
    }

    /// Data that holds nothing.
    pub fn new() -> (data: SessionData)
        ensures
            data@ == empty_data(),
    {
        let data = SessionData { identity: None, attempt: None, entries: Vec::new() };
        proof {
            lemma_empty::<Seq<char>, Seq<u8>>();
            assert(entry_pairs(data.entries@) =~= Seq::<(Seq<char>, Seq<u8>)>::empty());
        }
        data
    }

    /// The user that the session is authenticated as.
    pub fn identity(&self) -> (user: Option<UserId>)
        ensures
            user == self@.identity,
    {
        self.identity
    }

    /// Makes `user` the session's identity, in place of any other.
    pub fn set_identity(&mut self, user: UserId)
        ensures
            final(self)@ == (DataView { identity: Some(user), ..old(self)@ }),
    {
        proof {
            use_type_invariant(&*self);
        }
        self.identity = Some(user);
    }

    /// Leaves the session without an identity.
    pub fn clear_identity(&mut self)
        ensures
            final(self)@ == (DataView { identity: None, ..old(self)@ }),
    {
        proof {
            use_type_invariant(&*self);
        }
        self.identity = None;
    }

    /// The login attempt that is pending.
    pub fn attempt(&self) -> (attempt: Option<&OAuthAttempt>)
        ensures
            match attempt {
                Some(a) => self@.attempt == Some(a@),
                None => self@.attempt is None,
            },
    {
        self.attempt.as_ref()
    }

    /// Makes `attempt` the pending login attempt, in place of any other.
    pub fn set_attempt(&mut self, attempt: OAuthAttempt)
        ensures
            final(self)@ == (DataView { attempt: Some(attempt@), ..old(self)@ }),
    {
        proof {
            use_type_invariant(&*self);
        }
        self.attempt = Some(attempt);
    }

    /// Takes the pending login attempt out of the session.
    pub fn take_attempt(&mut self) -> (attempt: Option<OAuthAttempt>)
        ensures
            attempt_view(attempt) == old(self)@.attempt,
            final(self)@ == (DataView { attempt: None, ..old(self)@ }),
    {
        proof {
            use_type_invariant(&*self);
        }
        let mut taken: Option<OAuthAttempt> = None;
        core::mem::swap(&mut self.attempt, &mut taken);
        taken
    }

    /// The position of the entry under `key`, if there is one.
    fn find(&self, key: &String) -> (at: Option<usize>)
        ensures
            match at {
                Some(i) => i < self.entries@.len() && self.entries@[i as int].key@ == key@,
                None => forall|j: int|
                    0 <= j < self.entries@.len() ==> (#[trigger] self.entries@[j]).key@ != key@,
            },
    {
        let mut i: usize = 0;
        while i < self.entries.len()
            invariant
                i <= self.entries@.len(),
                forall|j: int| 0 <= j < i ==> (#[trigger] self.entries@[j]).key@ != key@,
            decreases self.entries@.len() - i,
        {
            if self.entries[i].key == *key {
                return Some(i);
            }
            i += 1;
        }
        None
    }

    /// The value stored under `key`.
    pub fn get(&self, key: &String) -> (value: Option<&Vec<u8>>)
        ensures
            match value {
                Some(v) => self@.entries.contains_key(key@) && self@.entries[key@] == v@,
                None => !self@.entries.contains_key(key@),
            },
    {
        proof {
            use_type_invariant(self);
        }
        let ghost pairs = entry_pairs(self.entries@);
        match self.find(key) {
            Some(i) => {
                proof {
                    lemma_entry(pairs, i as int);
                }
                Some(&self.entries[i].value)
            },
            None => {
                proof {
                    assert forall|j: int| 0 <= j < pairs.len() implies (#[trigger] pairs[j]).0
                        != key@ by {
                        assert(self.entries@[j].key@ != key@);
                    }
                    lemma_absent(pairs, key@);
                }
                None
            },
        }
    }

    /// Stores `value` under `key`, in place of any value that was there.
    pub fn insert(&mut self, key: String, value: Vec<u8>)
        ensures
            final(self)@ == (DataView {
                entries: old(self)@.entries.insert(key@, value@),
                ..old(self)@
            }),
    {
        proof {
            use_type_invariant(&*self);
        }
        let ghost before = entry_pairs(self.entries@);
        let found = self.find(&key);
        let mut entries: Vec<Entry> = Vec::new();
        proof {
            assert(entry_pairs(entries@) =~= Seq::<(Seq<char>, Seq<u8>)>::empty());
        }
        core::mem::swap(&mut self.entries, &mut entries);
        let ghost k = key@;
        let ghost v = value@;
        match found {
            Some(i) => {
                entries.set(i, Entry { key, value });
                proof {
                    lemma_update(before, i as int, v);
                    assert(entry_pairs(entries@) =~= before.update(i as int, (before[i as int].0, v)));
                }
            },
            None => {
                entries.push(Entry { key, value });
                proof {
                    assert forall|j: int| 0 <= j < before.len() implies (#[trigger] before[j]).0
                        != k by {
                        assert(old(self).entries@[j].key@ != k);
                    }
                    lemma_absent(before, k);
                    lemma_push(before, k, v);
                    assert(entry_pairs(entries@) =~= before.push((k, v)));
                }
            },
        }
        self.entries = entries;
    }

    /// Removes the entry under `key`, if there is one.
    pub fn remove(&mut self, key: &String)
        ensures
            final(self)@ == (DataView {
                entries: old(self)@.entries.remove(key@),
                ..old(self)@
            }),
    {
        proof {
            use_type_invariant(&*self);
        }
        let ghost before = entry_pairs(self.entries@);
        match self.find(key) {
            Some(i) => {
                let mut entries: Vec<Entry> = Vec::new();
                proof {
                    assert(entry_pairs(entries@) =~= Seq::<(Seq<char>, Seq<u8>)>::empty());
                }
                core::mem::swap(&mut self.entries, &mut entries);
                entries.remove(i);
                proof {
                    lemma_remove(before, i as int);
                    assert(entry_pairs(entries@) =~= before.remove(i as int));
                }
                self.entries = entries;
            },
            None => {
                proof {
                    assert forall|j: int| 0 <= j < before.len() implies (#[trigger] before[j]).0
                        != key@ by {
                        assert(self.entries@[j].key@ != key@);
                    }
                    lemma_absent(before, key@);
                    assert(self@.entries =~= old(self)@.entries.remove(key@));
                }
            },
        }
    }

}

impl Clone for SessionData {
    fn clone(&self) -> (copy: SessionData)
        ensures
            copy@ == self@,
    {
        proof {
            use_type_invariant(self);
        }
        let attempt = match &self.attempt {
            Some(a) => Some(a.clone()),
            None => None,
        };
        let mut entries: Vec<Entry> = Vec::new();
        let mut i: usize = 0;
        while i < self.entries.len()
            invariant
                i <= self.entries@.len(),
                entries@.len() == i,
                forall|j: int|
                    0 <= j < i ==> (#[trigger] entries@[j]).key@ == self.entries@[j].key@
                        && entries@[j].value@ == self.entries@[j].value@,
            decreases self.entries@.len() - i,
        {
            let key = self.entries[i].key.clone();
            let value = self.entries[i].value.clone();
            assert(value@ =~= self.entries@[i as int].value@);
            entries.push(Entry { key, value });
            i += 1;
        }
        proof {
            assert(entry_pairs(entries@) =~= entry_pairs(self.entries@));
        }
        SessionData { identity: self.identity, attempt, entries }
    }
}

/// What a [`Session`] holds.
pub struct SessionView {
    pub id: SessionId,
    pub data: DataView,
    pub expiry: Timestamp,
    pub last_activity: Timestamp,
}

/// A session: the record that a cookie's token stands for.
#[derive(Debug)]
pub struct Session {
    /// The token by which the session is found.
    pub id: SessionId,
    /// What the session carries.
    pub data: SessionData,
    /// The instant from which on the session is no longer served.
    pub expiry: Timestamp,
    /// The instant at which the session was last saved.
    pub last_activity: Timestamp,
}

impl View for Session {
    type V = SessionView;

    open spec fn view(&self) -> SessionView {
        SessionView {
            id: self.id,
            data: self.data@,
            expiry: self.expiry,
            last_activity: self.last_activity,
        }
    }
}

/// Whether a session with this expiry is still served at `now`: its expiry
/// lies in the future.
pub open spec fn live_at(expiry: Timestamp, now: Timestamp) -> bool {
    expiry > now
}

impl Clone for Session {
    fn clone(&self) -> (copy: Session)
        ensures
            copy@ == self@,
    {
        Session {
            id: self.id,
            data: self.data.clone(),
            expiry: self.expiry,
            last_activity: self.last_activity,
        }
    }
}

impl Session {
    /// Whether the session is still served at `now`.
    pub fn is_live(&self, now: Timestamp) -> (live: bool)
        ensures
            live == live_at(self.expiry, now),
    {
        self.expiry > now
    }
}

} // verus!
