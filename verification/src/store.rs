//! The session store: creation, lookup, sliding expiry, deletion and the
//! sweep of expired records.

use crate::assoc::{keys_distinct, lemma_absent, lemma_empty, lemma_entry, lemma_push, lemma_remove, lemma_update, lemma_witness, to_map};
use crate::clock::{inactivity_window, Timestamp, SECONDS_PER_DAY};
use crate::session::{empty_data, live_at, Session, SessionData, SessionId, SessionView};
use vstd::prelude::*;

verus! {

/// Why the store refused a request.
#[derive(Clone, Copy, Debug, PartialEq, Eq, Structural)]
pub enum StoreError {
    /// No live session has the id.
    NotFound,
    /// The id offered for a new session already names a record.
    IdInUse,
}

/// The days for which a session may stay idle before it expires.
pub const INACTIVITY_DAYS: u32 = 1;

/// The records of a store, by id.
pub type Records = Map<SessionId, SessionView>;

/// The session that `create` makes: no data, last active now, expiring one
/// inactivity window from now.
pub open spec fn created(id: SessionId, now: Timestamp, window: u64) -> SessionView {
    SessionView { id, data: empty_data(), expiry: (now + window) as u64, last_activity: now }
}

/// The session as `save` stores it: last active now, expiring one
/// inactivity window from now, everything else as it was.
pub open spec fn touched(s: SessionView, now: Timestamp, window: u64) -> SessionView {
    SessionView { expiry: (now + window) as u64, last_activity: now, ..s }
}

/// What `load` finds under an id at `now`: the record, unless there is none
/// or its expiry has passed.
pub open spec fn spec_load(m: Records, id: SessionId, now: Timestamp) -> Option<SessionView> {
    if m.contains_key(id) && live_at(m[id].expiry, now) {
        Some(m[id])
    } else {
        None
    }
}

/// The records after `save` of a session at `now`.
pub open spec fn spec_save(m: Records, s: SessionView, now: Timestamp, window: u64) -> Records {
    m.insert(s.id, touched(s, now, window))
}

/// The records after a sweep at `now`: those whose expiry is not before
/// `now`.
pub open spec fn spec_sweep(m: Records, now: Timestamp) -> Records {
    Map::new(|id: SessionId| m.contains_key(id) && m[id].expiry >= now, |id: SessionId| m[id])
}

/// The stored sessions as pairs of id and record.
pub open spec fn record_pairs(records: Seq<Session>) -> Seq<(SessionId, SessionView)> {
    Seq::new(records.len(), |i: int| (records[i].id, records[i]@))
}

/// A store of sessions with a sliding expiry.
#[derive(Debug)]
pub struct SessionStore {
    records: Vec<Session>,
    window: u64,
}

impl View for SessionStore {
    type V = Records;

    closed spec fn view(&self) -> Records {
        to_map(record_pairs(self.records@))
    }
}

impl SessionStore {
    #[verifier::type_invariant]
    spec fn inv(self) -> bool {
        &&& keys_distinct(record_pairs(self.records@))
        &&& self.window > 0
    }

    /// The inactivity window in seconds.
    pub closed spec fn spec_window(&self) -> u64 {
        self.window
    }

    /// Whether a session saved at `now` gets an expiry that the clock can
    /// represent.
    pub open spec fn in_range(&self, now: Timestamp) -> bool {
        now + self.spec_window() <= u64::MAX
    }

    /// An empty store whose sessions expire `window` seconds after their last
    /// save.
    pub fn new(window: u64) -> (store: SessionStore)
        requires
            window > 0,
        ensures
            store@ == Map::<SessionId, SessionView>::empty(),
            store.spec_window() == window,
    {
        let store = SessionStore { records: Vec::new(), window };
        proof {
            lemma_empty::<SessionId, SessionView>();
            assert(record_pairs(store.records@) =~= Seq::<(SessionId, SessionView)>::empty());
        }
        store
    }

    /// An empty store with the standard inactivity window of one day.
    pub fn standard() -> (store: SessionStore)
        ensures
            store@ == Map::<SessionId, SessionView>::empty(),
            store.spec_window() == INACTIVITY_DAYS * SECONDS_PER_DAY,
    {
        SessionStore::new(inactivity_window(INACTIVITY_DAYS))
    }

    /// The inactivity window in seconds. It is never zero.
    pub fn window(&self) -> (window: u64)
        ensures
            window == self.spec_window(),
            window > 0,
    {
        proof {
            use_type_invariant(self);
        }
        self.window
    }

    /// Whether `now` is early enough for a session saved then to get an
    /// expiry.
    pub fn accepts(&self, now: Timestamp) -> (ok: bool)
        ensures
            ok == self.in_range(now),
    {
        now <= u64::MAX - self.window
    }

    /// The position of the record with the id, if there is one.
    fn find(&self, id: SessionId) -> (at: Option<usize>)
        ensures
            match at {
                Some(i) => i < self.records@.len() && self.records@[i as int].id == id
                    && self@.contains_key(id) && self@[id] == self.records@[i as int]@,
                None => !self@.contains_key(id),
            },
    {
        proof {
            use_type_invariant(self);
        }
        let ghost pairs = record_pairs(self.records@);
        let mut i: usize = 0;
        while i < self.records.len()
            invariant
                i <= self.records@.len(),
                pairs == record_pairs(self.records@),
                keys_distinct(pairs),
                forall|j: int| 0 <= j < i ==> (#[trigger] pairs[j]).0 != id,
            decreases self.records@.len() - i,
        {
            if self.records[i].id == id {
                proof {
                    lemma_entry(pairs, i as int);
                }
                return Some(i);
            }
            i += 1;
        }
        proof {
            lemma_absent(pairs, id);
        }
        None
    }

    /// Whether a record, live or not, has the id.
    pub fn contains(&self, id: SessionId) -> (held: bool)
        ensures
            held == self@.contains_key(id),
    {
        self.find(id).is_some()
    }

    /// Creates a session under the id `fresh`, with no data, last active at
    /// `now`. The id is refused where it already names a record.
    pub fn create(&mut self, fresh: SessionId, now: Timestamp) -> (made: Result<
        Session,
        StoreError,
    >)
        requires
            old(self).in_range(now),
        ensures
            final(self).spec_window() == old(self).spec_window(),
            match made {
                Ok(s) => {
                    &&& !old(self)@.contains_key(fresh)
                    &&& s@ == created(fresh, now, old(self).spec_window())
                    &&& final(self)@ == old(self)@.insert(fresh, s@)
                },
                Err(e) => {
                    &&& e == StoreError::IdInUse
                    &&& old(self)@.contains_key(fresh)
                    &&& final(self)@ == old(self)@
                },
            },
    {
        proof {
            use_type_invariant(&*self);
        }
        if self.find(fresh).is_some() {
            return Err(StoreError::IdInUse);
        }
        let expiry = now + self.window;
        let stored = Session { id: fresh, data: SessionData::new(), expiry, last_activity: now };
        let handed = Session { id: fresh, data: SessionData::new(), expiry, last_activity: now };
        let ghost before = record_pairs(self.records@);
        let mut records: Vec<Session> = Vec::new();
        proof {
            assert(record_pairs(records@) =~= Seq::<(SessionId, SessionView)>::empty());
        }
        core::mem::swap(&mut self.records, &mut records);
        records.push(stored);
        proof {
            lemma_push(before, fresh, stored@);
            assert(record_pairs(records@) =~= before.push((fresh, stored@)));
        }
        self.records = records;
        Ok(handed)
    }

    /// Loads the session with the id. A record whose expiry has passed is
    /// treated as absent.
    pub fn load(&self, id: SessionId, now: Timestamp) -> (found: Result<Session, StoreError>)
        ensures
            match found {
                Ok(s) => spec_load(self@, id, now) == Some(s@),
                Err(e) => e == StoreError::NotFound && spec_load(self@, id, now) is None,
            },
    {
        match self.find(id) {
            Some(i) => {
                if self.records[i].is_live(now) {
                    Ok(self.records[i].clone())
                } else {
                    Err(StoreError::NotFound)
                }
            },
            None => Err(StoreError::NotFound),
        }
    }

    /// Saves the session under its id, in place of any record there, after
    /// making `now` its last activity and moving its expiry one inactivity
    /// window past `now`.
    pub fn save(&mut self, session: &mut Session, now: Timestamp)
        requires
            old(self).in_range(now),
        ensures
            final(self).spec_window() == old(self).spec_window(),
            final(session)@ == touched(old(session)@, now, old(self).spec_window()),
            final(self)@ == spec_save(old(self)@, old(session)@, now, old(self).spec_window()),
    {
        proof {
            use_type_invariant(&*self);
        }
        session.last_activity = now;
        session.expiry = now + self.window;
        let stored = session.clone();
        let found = self.find(session.id);
        let ghost before = record_pairs(self.records@);
        let mut records: Vec<Session> = Vec::new();
        proof {
            assert(record_pairs(records@) =~= Seq::<(SessionId, SessionView)>::empty());
        }
        core::mem::swap(&mut self.records, &mut records);
        match found {
            Some(i) => {
                records.set(i, stored);
                proof {
                    lemma_update(before, i as int, stored@);
                    assert(record_pairs(records@) =~= before.update(
                        i as int,
                        (before[i as int].0, stored@),
                    ));
                }
            },
            None => {
                records.push(stored);
                proof {
                    lemma_push(before, stored.id, stored@);
                    assert(record_pairs(records@) =~= before.push((stored.id, stored@)));
                }
            },
        }
        self.records = records;
    }

    /// Deletes the record with the id; does nothing where there is none.
    pub fn delete(&mut self, id: SessionId)
        ensures
            final(self).spec_window() == old(self).spec_window(),
            final(self)@ == old(self)@.remove(id),
    {
        proof {
            use_type_invariant(&*self);
        }
        match self.find(id) {
            Some(i) => {
                let ghost before = record_pairs(self.records@);
                let mut records: Vec<Session> = Vec::new();
                proof {
                    assert(record_pairs(records@) =~= Seq::<(SessionId, SessionView)>::empty());
                }
                core::mem::swap(&mut self.records, &mut records);
                records.remove(i);
                proof {
                    lemma_remove(before, i as int);
                    assert(record_pairs(records@) =~= before.remove(i as int));
                }
                self.records = records;
            },
            None => {
                proof {
                    assert(self@ =~= old(self)@.remove(id));
                }
            },
        }
    }

    /// Deletes every record whose expiry lies before `now`.
    pub fn sweep_expired(&mut self, now: Timestamp)
        ensures
            final(self).spec_window() == old(self).spec_window(),
            final(self)@ == spec_sweep(old(self)@, now),
    {
        proof {
            use_type_invariant(&*self);
        }
        let ghost before = to_map(record_pairs(self.records@));
        let mut records: Vec<Session> = Vec::new();
        proof {
            assert(record_pairs(records@) =~= Seq::<(SessionId, SessionView)>::empty());
        }
        core::mem::swap(&mut self.records, &mut records);
        let mut i: usize = 0;
        while i < records.len()
            invariant
                i <= records@.len(),
                keys_distinct(record_pairs(records@)),
                forall|j: int| 0 <= j < i ==> (#[trigger] records@[j]).expiry >= now,
                forall|id: SessionId| #[trigger]
                    to_map(record_pairs(records@)).contains_key(id) ==> before.contains_key(id)
                        && before[id] == to_map(record_pairs(records@))[id],
                forall|id: SessionId|
                    before.contains_key(id) && before[id].expiry >= now ==> #[trigger] to_map(
                        record_pairs(records@),
                    ).contains_key(id),
            decreases records@.len() - i,
        {
            if records[i].expiry < now {
                let ghost pairs = record_pairs(records@);
                proof {
                    lemma_entry(pairs, i as int);
                    lemma_remove(pairs, i as int);
                }
                records.remove(i);
                proof {
                    assert(record_pairs(records@) =~= pairs.remove(i as int));
                }
            } else {
                i += 1;
            }
        }
        proof {
            let pairs = record_pairs(records@);
            let after = to_map(pairs);
            assert forall|id: SessionId| after.contains_key(id) implies #[trigger] spec_sweep(
                before,
                now,
            ).contains_key(id) by {
                let j = lemma_witness(pairs, id);
                assert(records@[j].expiry >= now);
            }
            assert(after =~= spec_sweep(before, now));
        }
        self.records = records;
    }

    /// Gives the session the id `fresh` and deletes the record under its old
    /// id, so that the old id names nothing any more. The session's data
    /// and times stay as they are; it is stored under the new id when it is
    /// next saved. The id is refused where it is the session's own or
    /// already names a record.
    pub fn rotate(&mut self, session: &mut Session, fresh: SessionId) -> (done: Result<
        (),
        StoreError,
    >)
        ensures
            final(self).spec_window() == old(self).spec_window(),
            match done {
                Ok(_) => {
                    &&& fresh != old(session).id
                    &&& !old(self)@.contains_key(fresh)
                    &&& final(session)@ == (SessionView { id: fresh, ..old(session)@ })
                    &&& final(self)@ == old(self)@.remove(old(session).id)
                },
                Err(e) => {
                    &&& e == StoreError::IdInUse
                    &&& fresh == old(session).id || old(self)@.contains_key(fresh)
                    &&& final(session)@ == old(session)@
                    &&& final(self)@ == old(self)@
                },
            },
    {
        if fresh == session.id || self.contains(fresh) {
            return Err(StoreError::IdInUse);
        }
        self.delete(session.id);
        session.id = fresh;
        Ok(())
    }
}

/// A session that was just saved loads again, with an expiry in the future
/// and the data that it was saved with.
pub proof fn law_saved_session_loads(m: Records, s: SessionView, now: Timestamp, window: u64)
    requires
        window > 0,
        now + window <= u64::MAX,
    ensures
        spec_load(spec_save(m, s, now, window), s.id, now) == Some(touched(s, now, window)),
        touched(s, now, window).expiry > now,
        touched(s, now, window).data == s.data,
        touched(s, now, window).id == s.id,
{
}

/// A session created under an unused id loads again at the same instant,
/// with no data.
pub proof fn law_created_session_loads(m: Records, id: SessionId, now: Timestamp, window: u64)
    requires
        window > 0,
        now + window <= u64::MAX,
    ensures
        spec_load(m.insert(id, created(id, now, window)), id, now) == Some(
            created(id, now, window),
        ),
        created(id, now, window).data == empty_data(),
{
}

/// Once the expiry of a record has been reached, loading its id finds
/// nothing, whether or not a sweep has run in between.
pub proof fn law_expired_session_is_not_found(
    m: Records,
    id: SessionId,
    swept_at: Timestamp,
    now: Timestamp,
)
    requires
        m.contains_key(id),
        m[id].expiry <= now,
    ensures
        spec_load(m, id, now) is None,
        spec_load(spec_sweep(m, swept_at), id, now) is None,
{
}

/// A sweep deletes exactly the records whose expiry lies before its
/// instant, and never one that a load at that instant would still find.
pub proof fn law_sweep_spares_live_sessions(m: Records, id: SessionId, now: Timestamp)
    ensures
        spec_load(spec_sweep(m, now), id, now) == spec_load(m, id, now),
        spec_sweep(m, now).contains_key(id) <==> m.contains_key(id) && !(m[id].expiry < now),
{
}

/// Saving is idempotent: saving what a save stored, at the same instant,
/// changes nothing.
pub proof fn law_save_is_idempotent(m: Records, s: SessionView, now: Timestamp, window: u64)
    ensures
        spec_save(spec_save(m, s, now, window), touched(s, now, window), now, window)
            == spec_save(m, s, now, window),
{
    assert(spec_save(spec_save(m, s, now, window), touched(s, now, window), now, window)
        =~= spec_save(m, s, now, window));
}

/// Of two saves of the same id the later one wins.
pub proof fn law_last_save_wins(
    m: Records,
    a: SessionView,
    b: SessionView,
    t1: Timestamp,
    t2: Timestamp,
    window: u64,
)
    requires
        a.id == b.id,
    ensures
        spec_save(spec_save(m, a, t1, window), b, t2, window) == spec_save(m, b, t2, window),
{
    assert(spec_save(spec_save(m, a, t1, window), b, t2, window) =~= spec_save(
        m,
        b,
        t2,
        window,
    ));
}

} // verus!
