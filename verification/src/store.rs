//! The embedded session store: durable key/value storage for session
//! records with transactional read/write semantics.
//!
//! The store is backed by a `redb` database holding one table that maps a
//! session id to the fixed four-field tuple
//! `(user id, session id, expiry epoch-millis, created epoch-millis)`.
//! Every access opens its own transaction, so each operation below is
//! atomic: it either takes full effect or leaves the table unchanged.

use redb::ReadableDatabase;
use redb::ReadableTable;
use vstd::prelude::*;

verus! {

/// What the store keeps for one session id: the remaining three fields of
/// the persisted tuple (the id itself is the key).
#[derive(Clone, Copy, Debug, PartialEq, Eq, Structural)]
pub struct SessionRecord {
    pub user_id: i64,
    pub expires: i64,
    pub created: i64,
}

/// The ways a store operation can fail, one per transaction stage.
#[derive(Clone, Copy, Debug, PartialEq, Eq, Structural)]
pub enum SessionError {
    /// A transaction could not be started.
    Transaction,
    /// The session table could not be opened.
    Table,
    /// A read or write inside the transaction failed.
    Storage,
    /// The commit failed; the transaction took no effect.
    Commit,
    /// The database file could not be created or opened.
    Database,
    /// Session-id generation gave up: every sampled id was already taken.
    IdExhausted,
}

/// The embedded session store. All access to the underlying database goes
/// through the methods below, so `stored_sessions` tracks it exactly; the
/// struct is opaque to the verifier because it holds the raw database
/// handle.
#[verifier::external_body]
pub struct SessionDb {
    db: redb::Database,
}

/// The sessions held by the store, keyed by session id.
pub uninterp spec fn stored_sessions(db: SessionDb) -> Map<Seq<char>, SessionRecord>;

impl SessionDb {
    /// The sessions currently in the store, keyed by session id.
    pub open spec fn contents(&self) -> Map<Seq<char>, SessionRecord> {
        stored_sessions(*self)
    }

    /// Opens or creates the database file at `path` and makes sure the
    /// session table exists. What the file already holds is unknown.
    ///
    /// Relies on `redb::Database::create`, which opens the file if it
    /// exists and creates it otherwise, and on `WriteTransaction::open_table`
    /// creating a missing table.
    #[verifier::external_body]
    pub fn create(path: &str) -> (r: Result<SessionDb, SessionError>) {
        let db = redb::Database::create(path).map_err(|_| SessionError::Database)?;
        let txn = db.begin_write().map_err(|_| SessionError::Transaction)?;
        let def: redb::TableDefinition<&str, (i64, &str, i64, i64)> =
            redb::TableDefinition::new("sessions");
        txn.open_table(def).map_err(|_| SessionError::Table)?;
        txn.commit().map_err(|_| SessionError::Commit)?;
        Ok(SessionDb { db })
    }

    /// A fresh store kept in memory, for tests and ephemeral deployments.
    ///
    /// Relies on `redb::backends::InMemoryBackend`: a newly created
    /// in-memory database holds no data.
    #[verifier::external_body]
    pub fn in_memory() -> (r: Result<SessionDb, SessionError>)
        ensures
            match r {
                Ok(db) => stored_sessions(db) == Map::<Seq<char>, SessionRecord>::empty(),
                Err(_) => true,
            },
    {
        let backend = redb::backends::InMemoryBackend::new();
        let db = redb::Database::builder()
            .create_with_backend(backend)
            .map_err(|_| SessionError::Database)?;
        let txn = db.begin_write().map_err(|_| SessionError::Transaction)?;
        let def: redb::TableDefinition<&str, (i64, &str, i64, i64)> =
            redb::TableDefinition::new("sessions");
        txn.open_table(def).map_err(|_| SessionError::Table)?;
        txn.commit().map_err(|_| SessionError::Commit)?;
        Ok(SessionDb { db })
    }

    /// Reads the record stored under `key`, in one read transaction.
    ///
    /// Relies on `redb::ReadOnlyTable::get` returning the value most
    /// recently committed for the key, or `None` if the key is absent.
    #[verifier::external_body]
    pub fn get(&self, key: &str) -> (r: Result<Option<SessionRecord>, SessionError>)
        ensures
            match r {
                Ok(found) => match found {
                    Some(rec) => stored_sessions(*self).contains_key(key@) && rec
                        == stored_sessions(*self)[key@],
                    None => !stored_sessions(*self).contains_key(key@),
                },
                Err(_) => true,
            },
    {
        let txn = self.db.begin_read().map_err(|_| SessionError::Transaction)?;
        let def: redb::TableDefinition<&str, (i64, &str, i64, i64)> =
            redb::TableDefinition::new("sessions");
        let table = txn.open_table(def).map_err(|_| SessionError::Table)?;
        let found = table.get(key).map_err(|_| SessionError::Storage)?;
        Ok(found.map(|guard| {
            let (user_id, _, expires, created) = guard.value();
            SessionRecord { user_id, expires, created }
        }))
    }

    /// Writes `rec` under `key` in one write transaction, replacing any
    /// previous record for that key. On any failure nothing changes.
    ///
    /// Relies on `redb::Table::insert` and on the atomicity of
    /// `WriteTransaction`: an uncommitted transaction takes no effect.
    #[verifier::external_body]
    pub fn insert(&mut self, key: &str, rec: SessionRecord) -> (r: Result<(), SessionError>)
        ensures
            match r {
                Ok(_) => stored_sessions(*final(self)) == stored_sessions(*old(self)).insert(
                    key@,
                    rec,
                ),
                Err(_) => stored_sessions(*final(self)) == stored_sessions(*old(self)),
            },
    {
        let txn = self.db.begin_write().map_err(|_| SessionError::Transaction)?;
        let def: redb::TableDefinition<&str, (i64, &str, i64, i64)> =
            redb::TableDefinition::new("sessions");
        let mut table = txn.open_table(def).map_err(|_| SessionError::Table)?;
        table
            .insert(key, (rec.user_id, key, rec.expires, rec.created))
            .map_err(|_| SessionError::Storage)?;
        drop(table);
        txn.commit().map_err(|_| SessionError::Commit)?;
        Ok(())
    }

    /// Removes the record under `key` in one write transaction and returns
    /// it, or `None` if the key was absent. On any failure nothing changes.
    ///
    /// Relies on `redb::Table::remove` returning the old value and on the
    /// atomicity of `WriteTransaction`.
    #[verifier::external_body]
    pub fn remove(&mut self, key: &str) -> (r: Result<Option<SessionRecord>, SessionError>)
        ensures
            match r {
                Ok(found) => {
                    &&& stored_sessions(*final(self)) == stored_sessions(*old(self)).remove(key@)
                    &&& match found {
                        Some(rec) => stored_sessions(*old(self)).contains_key(key@) && rec
                            == stored_sessions(*old(self))[key@],
                        None => !stored_sessions(*old(self)).contains_key(key@),
                    }
                },
                Err(_) => stored_sessions(*final(self)) == stored_sessions(*old(self)),
            },
    {
        let txn = self.db.begin_write().map_err(|_| SessionError::Transaction)?;
        let def: redb::TableDefinition<&str, (i64, &str, i64, i64)> =
            redb::TableDefinition::new("sessions");
        let mut table = txn.open_table(def).map_err(|_| SessionError::Table)?;
        let found = table.remove(key).map_err(|_| SessionError::Storage)?.map(|guard| {
            let (user_id, _, expires, created) = guard.value();
            SessionRecord { user_id, expires, created }
        });
        drop(table);
        txn.commit().map_err(|_| SessionError::Commit)?;
        Ok(found)
    }

    /// Lists every entry of the store, in one read transaction: each stored
    /// key appears exactly once, paired with its record.
    ///
    /// Relies on `redb::ReadableTable::iter` visiting every entry of the
    /// table exactly once.
    #[verifier::external_body]
    pub fn entries(&self) -> (r: Result<Vec<(String, SessionRecord)>, SessionError>)
        ensures
            match r {
                Ok(list) => {
                    &&& forall|i: int|
                        0 <= i < list@.len() ==> stored_sessions(*self).contains_key(
                            #[trigger] list@[i].0@,
                        ) && stored_sessions(*self)[list@[i].0@] == list@[i].1
                    &&& forall|k: Seq<char>|
                        stored_sessions(*self).contains_key(k) ==> exists|i: int|
                            0 <= i < list@.len() && #[trigger] list@[i].0@ == k
                    &&& forall|i: int, j: int|
                        0 <= i < j < list@.len() ==> #[trigger] list@[i].0@
                            != #[trigger] list@[j].0@
                },
                Err(_) => true,
            },
    {
        let txn = self.db.begin_read().map_err(|_| SessionError::Transaction)?;
        let def: redb::TableDefinition<&str, (i64, &str, i64, i64)> =
            redb::TableDefinition::new("sessions");
        let table = txn.open_table(def).map_err(|_| SessionError::Table)?;
        table
            .iter()
            .map_err(|_| SessionError::Storage)?
            .map(|row| {
                row.map(|(key, guard)| {
                    let (user_id, _, expires, created) = guard.value();
                    (key.value().to_string(), SessionRecord { user_id, expires, created })
                })
            })
            .collect::<Result<Vec<_>, _>>()
            .map_err(|_| SessionError::Storage)
    }
}

} // verus!
