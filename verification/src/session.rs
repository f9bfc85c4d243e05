//! Login sessions and their manager: creation with a collision-avoiding
//! id, lookup, deletion, and the cleanup sweep that evicts expired
//! sessions from the durable store.

use vstd::prelude::*;
use vstd::string::StringExecFns;
use vstd::seq_lib::seq_to_set_is_finite;
use vstd::set::axiom_set_remove_len;
use vstd::set_lib::lemma_len_subset;

use crate::config::SessionManager as SessionConfig;
use crate::random::{fresh_rng, sample_alphanumeric};
use crate::store::{stored_sessions, SessionDb, SessionError, SessionRecord};
use crate::text::is_alphanumeric_char;

verus! {

/// The number of characters in a session id.
pub open spec fn session_id_len() -> int {
    7
}

/// A well-formed session id: a short alphanumeric string.
pub open spec fn is_session_id(s: Seq<char>) -> bool {
    s.len() == session_id_len() && forall|i: int|
        0 <= i < s.len() ==> is_alphanumeric_char(#[trigger] s[i])
}

/// A session: a server-issued, time-bounded proof of prior successful
/// login. Timestamps are epoch milliseconds.
#[derive(Clone, Debug)]
pub struct Session {
    pub user_id: i64,
    pub session_id: String,
    pub expires: i64,
    pub created: i64,
}

/// A session flattened to the persisted four-field layout
/// `(user id, session id, expiry epoch-millis, created epoch-millis)`.
pub type SessionTuple = (i64, String, i64, i64);

impl Session {
    /// The three stored fields of this session, as the store keeps them.
    pub open spec fn record(&self) -> SessionRecord {
        SessionRecord { user_id: self.user_id, expires: self.expires, created: self.created }
    }

    /// Rebuilds a session from its persisted tuple form.
    pub fn from_tuple(tuple: SessionTuple) -> (r: Session)
        ensures
            r.user_id == tuple.0,
            r.session_id@ == tuple.1@,
            r.expires == tuple.2,
            r.created == tuple.3,
    {
        let (user_id, session_id, expires, created) = tuple;
        Session { user_id, session_id, expires, created }
    }

    /// Whether this session's expiry lies before `now`. Lookups return
    /// sessions regardless of expiry, so a reader that must not accept a
    /// stale session — even one the sweep has not reached yet — asks
    /// this.
    pub fn is_expired(&self, now: i64) -> (r: bool)
        ensures
            r == (self.expires < now),
    {
        self.expires < now
    }

    /// This session in its persisted tuple form.
    pub fn as_tuple(&self) -> (r: SessionTuple)
        ensures
            r.0 == self.user_id,
            r.1@ == self.session_id@,
            r.2 == self.expires,
            r.3 == self.created,
    {
        (self.user_id, self.session_id.clone(), self.expires, self.created)
    }
}

impl PartialEq for Session {
    fn eq(&self, other: &Session) -> (r: bool) {
        self.user_id == other.user_id && crate::text::str_eq(
            self.session_id.as_str(),
            other.session_id.as_str(),
        ) && self.expires == other.expires && self.created == other.created
    }
}

impl vstd::std_specs::cmp::PartialEqSpecImpl for Session {
    open spec fn obeys_eq_spec() -> bool {
        true
    }

    open spec fn eq_spec(&self, other: &Session) -> bool {
        self.user_id == other.user_id && self.session_id@ == other.session_id@ && self.expires
            == other.expires && self.created == other.created
    }
}

/// Generates a fresh session id: draws short alphanumeric ids and probes
/// the store for each, resampling on every hit. With 62 characters in
/// seven positions a collision is already freak chance; after a large
/// fixed number of hits in a row the function stops trying rather than
/// spin forever, and reports the store as full of ids.
pub fn create_session_id(db: &SessionDb) -> (r: Result<String, SessionError>)
    ensures
        match r {
            Ok(id) => is_session_id(id@) && !stored_sessions(*db).contains_key(id@),
            Err(_) => true,
        },
{
    let mut rng = fresh_rng();
    let mut attempts: usize = 0;
    while attempts < 65536
        decreases 65536 - attempts,
    {
        let id = sample_alphanumeric(&mut rng, 7);
        match db.get(id.as_str()) {
            Ok(Some(_)) => {
            },
            Ok(None) => {
                return Ok(id);
            },
            Err(e) => {
                return Err(e);
            },
        }
        attempts += 1;
    }
    Err(SessionError::IdExhausted)
}

/// The sessions of `m` that are still live at `now`: everything whose
/// expiry has not yet passed. This is what one cleanup sweep leaves
/// behind.
pub open spec fn live_sessions(m: Map<Seq<char>, SessionRecord>, now: i64) -> Map<
    Seq<char>,
    SessionRecord,
> {
    m.filter_keys(|k: Seq<char>| m[k].expires >= now)
}

/// Owns the embedded session store; creates, fetches, deletes sessions,
/// and sweeps out the expired ones.
pub struct SessionManager {
    config: SessionConfig,
    db: SessionDb,
}

impl SessionManager {
    /// The sessions currently held, keyed by session id.
    pub closed spec fn sessions(&self) -> Map<Seq<char>, SessionRecord> {
        stored_sessions(self.db)
    }

    /// The configuration this manager was built with.
    pub closed spec fn spec_config(&self) -> SessionConfig {
        self.config
    }

    /// Opens (or creates) the session database named by the configuration.
    pub fn new(config: SessionConfig) -> (r: Result<SessionManager, SessionError>)
        ensures
            match r {
                Ok(m) => m.spec_config() == config,
                Err(_) => true,
            },
    {
        let db = SessionDb::create(config.database_location.as_str())?;
        Ok(SessionManager { config, db })
    }

    /// A manager over a fresh in-memory store, holding no sessions.
    pub fn new_in_memory(config: SessionConfig) -> (r: Result<SessionManager, SessionError>)
        ensures
            match r {
                Ok(m) => m.spec_config() == config && m.sessions() == Map::<
                    Seq<char>,
                    SessionRecord,
                >::empty(),
                Err(_) => true,
            },
    {
        let db = SessionDb::in_memory()?;
        Ok(SessionManager { config, db })
    }

    /// Creates a session for `user_id` that lives for `life` milliseconds
    /// from `now`: generates an id no live session uses, writes the record
    /// in one transaction, and returns the new session. On any storage
    /// failure the store is left unchanged.
    pub fn create_session(&mut self, user_id: i64, life: i64, now: i64) -> (r: Result<
        Session,
        SessionError,
    >)
        requires
            0 <= life,
            now + life <= i64::MAX,
        ensures
            match r {
                Ok(s) => {
                    &&& s.user_id == user_id
                    &&& s.created == now
                    &&& s.expires == now + life
                    &&& is_session_id(s.session_id@)
                    &&& !old(self).sessions().contains_key(s.session_id@)
                    &&& final(self).sessions() == old(self).sessions().insert(
                        s.session_id@,
                        s.record(),
                    )
                },
                Err(_) => final(self).sessions() == old(self).sessions(),
            },
            final(self).spec_config() == old(self).spec_config(),
    {
        let session_id = match create_session_id(&self.db) {
            Ok(id) => id,
            Err(e) => {
                return Err(e);
            },
        };
        let expires = now + life;
        let rec = SessionRecord { user_id, expires, created: now };
        match self.db.insert(session_id.as_str(), rec) {
            Ok(_) => Ok(Session { user_id, session_id, expires, created: now }),
            Err(e) => Err(e),
        }
    }

    /// Looks the id up in one read transaction. Returns `None` exactly when
    /// no session is stored under it, regardless of expiry: expiry is the
    /// caller's to check.
    pub fn get_session(&self, session_id: &str) -> (r: Result<Option<Session>, SessionError>)
        ensures
            match r {
                Ok(found) => match found {
                    Some(s) => self.sessions().contains_key(session_id@) && s.session_id@
                        == session_id@ && s.record() == self.sessions()[session_id@],
                    None => !self.sessions().contains_key(session_id@),
                },
                Err(_) => true,
            },
    {
        match self.db.get(session_id)? {
            Some(rec) => Ok(
                Some(
                    Session {
                        user_id: rec.user_id,
                        session_id: String::from_str(session_id),
                        expires: rec.expires,
                        created: rec.created,
                    },
                ),
            ),
            None => Ok(None),
        }
    }

    /// Removes the session in one write transaction and returns what was
    /// stored, or `None` if the id was unknown. On failure nothing changes.
    pub fn delete_session(&mut self, session_id: &str) -> (r: Result<
        Option<Session>,
        SessionError,
    >)
        ensures
            match r {
                Ok(found) => {
                    &&& final(self).sessions() == old(self).sessions().remove(session_id@)
                    &&& match found {
                        Some(s) => old(self).sessions().contains_key(session_id@) && s.session_id@
                            == session_id@ && s.record() == old(self).sessions()[session_id@],
                        None => !old(self).sessions().contains_key(session_id@),
                    }
                },
                Err(_) => final(self).sessions() == old(self).sessions(),
            },
            final(self).spec_config() == old(self).spec_config(),
    {
        match self.db.remove(session_id)? {
            Some(rec) => Ok(
                Some(
                    Session {
                        user_id: rec.user_id,
                        session_id: String::from_str(session_id),
                        expires: rec.expires,
                        created: rec.created,
                    },
                ),
            ),
            None => Ok(None),
        }
    }

    /// One cleanup sweep: removes every session whose expiry lies before
    /// `now` and nothing else, and returns how many were removed. If a
    /// removal fails midway, whatever was removed so far was expired and
    /// everything else is still in place.
    #[verifier::loop_isolation(false)]
    pub fn clean_inner(&mut self, now: i64) -> (r: Result<usize, SessionError>)
        ensures
            match r {
                Ok(n) => final(self).sessions() == live_sessions(old(self).sessions(), now) && n
                    as int == old(self).sessions().dom().len() - final(self).sessions().dom().len(),
                Err(_) => {
                    &&& final(self).sessions().submap_of(old(self).sessions())
                    &&& forall|k: Seq<char>|
                        #[trigger] old(self).sessions().contains_key(k)
                            && !(final(self).sessions().contains_key(k)) ==> old(
                            self,
                        ).sessions()[k].expires < now
                },
            },
            final(self).spec_config() == old(self).spec_config(),
    {
        let ghost m0 = self.sessions();
        let entries = match self.db.entries() {
            Ok(es) => es,
            Err(e) => {
                return Err(e);
            },
        };
        proof {
            let keys = Seq::new(entries@.len(), |i: int| entries@[i].0@);
            assert forall|k: Seq<char>| m0.dom().contains(k) implies keys.to_set().contains(
                k,
            ) by {
                let i = choose|i: int| 0 <= i < entries@.len() && entries@[i].0@ == k;
                assert(keys[i] == k);
            }
            seq_to_set_is_finite(keys);
            lemma_len_subset(m0.dom(), keys.to_set());
        }
        let mut to_remove: Vec<String> = Vec::new();
        let mut i: usize = 0;
        while i < entries.len()
            invariant
                m0 == self.sessions(),
                i <= entries@.len(),
                forall|j: int|
                    0 <= j < to_remove@.len() ==> m0.contains_key(#[trigger] to_remove@[j]@)
                        && m0[to_remove@[j]@].expires < now,
                forall|a: int, b: int|
                    0 <= a < b < to_remove@.len() ==> #[trigger] to_remove@[a]@
                        != #[trigger] to_remove@[b]@,
                forall|j: int|
                    0 <= j < i && (#[trigger] entries@[j].1).expires < now ==> exists|a: int|
                        0 <= a < to_remove@.len() && #[trigger] to_remove@[a]@ == entries@[j].0@,
                forall|a: int|
                    0 <= a < to_remove@.len() ==> exists|j: int|
                        0 <= j < i && #[trigger] to_remove@[a]@ == entries@[j].0@,
            decreases entries@.len() - i,
        {
            let ghost pre = to_remove@;
            let entry_expires = entries[i].1.expires;
            if entry_expires < now {
                to_remove.push(entries[i].0.clone());
                proof {
                    assert(to_remove@[to_remove@.len() - 1]@ == entries@[i as int].0@);
                    assert forall|a: int, b: int|
                        0 <= a < b < to_remove@.len() implies #[trigger] to_remove@[a]@
                        != #[trigger] to_remove@[b]@ by {
                        if b == to_remove@.len() - 1 {
                            let j = choose|j: int| 0 <= j < i && #[trigger] pre[a]@ == entries@[j].0@;
                            assert(entries@[j].0@ != entries@[i as int].0@);
                        }
                    }
                }
            }
            proof {
                assert forall|j: int|
                    0 <= j < i + 1 && (#[trigger] entries@[j].1).expires < now implies exists|a: int|
                    0 <= a < to_remove@.len() && #[trigger] to_remove@[a]@ == entries@[j].0@ by {
                    if j < i {
                        let a = choose|a: int| 0 <= a < pre.len() && #[trigger] pre[a]@ == entries@[j].0@;
                        assert(to_remove@[a]@ == entries@[j].0@);
                    } else {
                        assert(to_remove@[to_remove@.len() - 1]@ == entries@[j].0@);
                    }
                }
            }
            i += 1;
        }
        let mut removed: usize = 0;
        let mut k: usize = 0;
        while k < to_remove.len()
            invariant
                k <= to_remove@.len(),
                removed == k,
                forall|j: int|
                    0 <= j < to_remove@.len() ==> m0.contains_key(#[trigger] to_remove@[j]@)
                        && m0[to_remove@[j]@].expires < now,
                forall|a: int, b: int|
                    0 <= a < b < to_remove@.len() ==> #[trigger] to_remove@[a]@
                        != #[trigger] to_remove@[b]@,
                forall|key: Seq<char>|
                    #[trigger] m0.contains_key(key) && m0[key].expires < now ==> exists|a: int|
                        0 <= a < to_remove@.len() && #[trigger] to_remove@[a]@ == key,
                forall|key: Seq<char>|
                    #[trigger] self.sessions().contains_key(key) <==> (m0.contains_key(key)
                        && !exists|a: int|
                        0 <= a < k && #[trigger] to_remove@[a]@ == key),
                forall|key: Seq<char>|
                    #[trigger] self.sessions().contains_key(key) ==> self.sessions()[key]
                        == m0[key],
                self.sessions().dom().finite(),
                self.sessions().dom().len() + k == m0.dom().len(),
                self.spec_config() == old(self).spec_config(),
            decreases to_remove@.len() - k,
        {
            let ghost before = self.sessions();
            match self.db.remove(to_remove[k].as_str()) {
                Ok(_) => {
                },
                Err(e) => {
                    proof {
                        assert forall|key: Seq<char>|
                            m0.contains_key(key) && !self.sessions().contains_key(
                                key,
                            ) implies m0[key].expires < now by {
                            let a = choose|a: int|
                                0 <= a < k && #[trigger] to_remove@[a]@ == key;
                        }
                        assert(self.sessions().submap_of(m0));
                    }
                    return Err(e);
                },
            }
            proof {
                assert(before.contains_key(to_remove@[k as int]@));
                axiom_set_remove_len(before.dom(), to_remove@[k as int]@);
                assert(self.sessions().dom() =~= before.dom().remove(to_remove@[k as int]@));
            }
            removed += 1;
            k += 1;
        }
        proof {
            assert forall|key: Seq<char>|
                m0.contains_key(key) && !self.sessions().contains_key(key) implies m0[key].expires
                < now by {
                let a = choose|a: int| 0 <= a < to_remove@.len() && #[trigger] to_remove@[a]@ == key;
            }
            assert(self.sessions() =~= live_sessions(m0, now));
        }
        Ok(removed)
    }
}

/// After a session is written under a fresh id, looking that id up in the
/// resulting store finds exactly the record that was written: creating a
/// session and immediately fetching it returns it unchanged.
pub proof fn lemma_created_session_is_found(
    m: Map<Seq<char>, SessionRecord>,
    id: Seq<char>,
    rec: SessionRecord,
)
    ensures
        m.insert(id, rec).contains_key(id),
        m.insert(id, rec)[id] == rec,
{
}

/// After a session id is removed from the store, looking it up in the
/// resulting store finds nothing: deleting a session makes subsequent
/// lookups of its id return none.
pub proof fn lemma_deleted_session_is_gone(m: Map<Seq<char>, SessionRecord>, id: Seq<char>)
    ensures
        !m.remove(id).contains_key(id),
{
}

/// One cleanup sweep removes exactly the expired sessions: a session
/// survives the sweep at `now` if and only if it was present and its
/// expiry has not passed. In particular a sweep over only future-expiring
/// sessions removes none of them.
pub proof fn lemma_sweep_removes_exactly_expired(m: Map<Seq<char>, SessionRecord>, now: i64)
    ensures
        forall|k: Seq<char>|
            #[trigger] live_sessions(m, now).contains_key(k) <==> (m.contains_key(k)
                && m[k].expires >= now),
        forall|k: Seq<char>|
            #[trigger] live_sessions(m, now).contains_key(k) ==> live_sessions(m, now)[k] == m[k],
        (forall|k: Seq<char>| #[trigger] m.contains_key(k) ==> m[k].expires >= now)
            ==> live_sessions(m, now) == m,
{
    if forall|k: Seq<char>| #[trigger] m.contains_key(k) ==> m[k].expires >= now {
        assert(live_sessions(m, now) =~= m);
    }
}

} // verus!
