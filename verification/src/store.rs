//! The durable session store.
//!
//! One session record lives under a single well-known key in a local
//! key-value store. Saving overwrites any prior record; loading yields the
//! session exactly when a well-formed record is present — a corrupt or
//! absent record reads back as no session, never as a failure; clearing
//! removes the record on logout.

use vstd::prelude::*;
use crate::session::{
    decode_session, decode_spec, encode_session, encode_spec, session_fits, session_model,
    AuthSession,
};
use crate::StoreError;

verus! {

#[verifier::external_type_specification]
#[verifier::external_body]
pub struct ExDb(sled::Db);

/// What the backing store holds, as a map from keys to values.
///
/// The store is opened by one process and reached through one handle,
/// never cloned, as the single-writer design prescribes; its contents are
/// then a function of the handle the mutating operations thread through.
pub uninterp spec fn db_map(db: sled::Db) -> Map<Seq<u8>, Seq<u8>>;

/// Relies on `sled::open`: opens (creating if absent) the store rooted at
/// the path. Its contents are whatever the disk holds, so nothing is
/// promised of them.
#[verifier::external_body]
fn db_open(path: &str) -> (r: Result<sled::Db, StoreError>)
{
    match sled::open(path) {
        Ok(d) => Ok(d),
        Err(_) => Err(StoreError::Io),
    }
}

/// Relies on `sled::Tree::insert` (through `Db`'s deref): on success the
/// key maps to the value and no other entry changes.
#[verifier::external_body]
fn db_insert(db: &mut sled::Db, key: &[u8], value: &[u8]) -> (r: Result<(), StoreError>)
    ensures
        r is Ok ==> db_map(*final(db)) == db_map(*old(db)).insert(key@, value@),
        r matches Err(e) ==> e is Io,
{
    match (&*db).insert(key, value) {
        Ok(_) => Ok(()),
        Err(_) => Err(StoreError::Io),
    }
}

/// Relies on `sled::Tree::get` (through `Db`'s deref): on success it
/// yields the value at the key, or nothing when the key is absent.
#[verifier::external_body]
fn db_get(db: &sled::Db, key: &[u8]) -> (r: Result<Option<Vec<u8>>, StoreError>)
    ensures
        r matches Ok(v) ==> match v {
            Some(b) => db_map(*db).contains_key(key@) && b@ == db_map(*db)[key@],
            None => !db_map(*db).contains_key(key@),
        },
        r matches Err(e) ==> e is Io,
{
    match db.get(key) {
        Ok(Some(iv)) => Ok(Some(iv.to_vec())),
        Ok(None) => Ok(None),
        Err(_) => Err(StoreError::Io),
    }
}

/// Relies on `sled::Tree::remove` (through `Db`'s deref): on success the
/// key is absent and no other entry changes.
#[verifier::external_body]
fn db_remove(db: &mut sled::Db, key: &[u8]) -> (r: Result<(), StoreError>)
    ensures
        r is Ok ==> db_map(*final(db)) == db_map(*old(db)).remove(key@),
        r matches Err(e) ==> e is Io,
{
    match (&*db).remove(key) {
        Ok(_) => Ok(()),
        Err(_) => Err(StoreError::Io),
    }
}

/// The well-known key under which the one session record is stored.
pub open spec fn session_key() -> Seq<u8> {
    vstd::utf8::encode_utf8("session"@)
}

/// The durable session store.
pub struct SessionStore {
    db: sled::Db,
}

impl View for SessionStore {
    type V = Map<Seq<u8>, Seq<u8>>;

    closed spec fn view(&self) -> Map<Seq<u8>, Seq<u8>> {
        db_map(self.db)
    }
}

impl SessionStore {
    /// Opens the store rooted at `path`, creating it if absent.
    pub fn open(path: &str) -> (r: Result<SessionStore, StoreError>) {
        match db_open(path) {
            Ok(db) => Ok(SessionStore { db }),
            Err(e) => Err(e),
        }
    }

    /// Persists the session under the well-known key, overwriting any
    /// prior record. Fails with `TooLarge` exactly when a field outgrows
    /// its length prefix; a backing I/O failure surfaces as `Io`.
    pub fn save(&mut self, s: &AuthSession) -> (r: Result<(), StoreError>)
        ensures
            r is Ok ==> final(self)@ == old(self)@.insert(session_key(), encode_spec(s)),
            (r matches Err(e) && e is TooLarge) <==> !session_fits(s),
    {
        match encode_session(s) {
            None => Err(StoreError::TooLarge),
            Some(bytes) => db_insert(&mut self.db, "session".as_bytes(), bytes.as_slice()),
        }
    }

    /// Retrieves the stored session. An absent or corrupt record — or a
    /// backing read failure — reads back as no session.
    pub fn load(&self) -> (r: Option<AuthSession>)
        ensures
            r matches Some(s) ==> self@.contains_key(session_key()) && decode_spec(
                self@[session_key()],
            ) == Some(session_model(&s)),
            !self@.contains_key(session_key()) ==> r is None,
            (self@.contains_key(session_key()) && decode_spec(self@[session_key()]) is None)
                ==> r is None,
    {
        match db_get(&self.db, "session".as_bytes()) {
            Err(_) => None,
            Ok(None) => None,
            Ok(Some(bytes)) => decode_session(bytes.as_slice()),
        }
    }

    /// Removes the stored session; used on logout.
    pub fn clear(&mut self) -> (r: Result<(), StoreError>)
        ensures
            r is Ok ==> final(self)@ == old(self)@.remove(session_key()),
    {
        db_remove(&mut self.db, "session".as_bytes())
    }
}

/// Round trip through the store's contents: after a successful `save`,
/// the record under the well-known key decodes to exactly the saved
/// session; after `clear`, the entry is absent.
pub proof fn lemma_store_round_trip(m: Map<Seq<u8>, Seq<u8>>, s: &AuthSession)
    requires
        session_fits(s),
    ensures
        ({
            let m2 = m.insert(session_key(), encode_spec(s));
            m2.contains_key(session_key()) && decode_spec(m2[session_key()]) == Some(
                session_model(s),
            )
        }),
        !m.remove(session_key()).contains_key(session_key()),
{
    crate::session::lemma_codec_round_trip(s);
}

} // verus!
