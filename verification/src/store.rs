//! The storage adapter: a session table behind a pooled SQLite connection.
//!
//! Every operation acquires one connection from the pool, runs its
//! statement, and releases the connection on every exit path. The database
//! file itself is outside state: the trusted wrappers below state only what
//! holds of every outcome of a call, and the decision logic around them —
//! expiry filtering, decoding, error mapping, the identifier-collision retry
//! — is verified against exact contracts.

use vstd::prelude::*;

use r2d2_sqlite::rusqlite::OptionalExtension;

use crate::codec::{
    decode_record, encode_record, spec_blob_wf, spec_decoded_data, spec_decoded_expiry,
    spec_decoded_id,
};
use crate::errors::{SqliteStoreError, StoreError};
use crate::record::{Record, SessionId};

verus! {

/// The connection pool the store draws from. r2d2's pool type is generic
/// over one of r2d2's own traits, which keeps Verus from declaring the pool
/// type itself, so this handle holds the pool opaquely; callers build the
/// pool and wrap it here.
#[verifier::external_body]
pub struct PoolHandle {
    /// The pool itself.
    pub pool: r2d2::Pool<r2d2_sqlite::SqliteConnectionManager>,
}

/// One connection checked out of the pool, held for a single operation and
/// returned to the pool when the handle is dropped. Opaque for the same
/// reason as the pool handle.
#[verifier::external_body]
struct ConnHandle {
    conn: r2d2::PooledConnection<r2d2_sqlite::SqliteConnectionManager>,
}

#[verifier::external_type_specification]
#[verifier::external_body]
pub struct ExR2d2Error(r2d2::Error);

#[verifier::external_type_specification]
#[verifier::external_body]
pub struct ExSqlError(r2d2_sqlite::rusqlite::Error);

/// The textual primary key a session identifier is stored under: a function
/// of the identifier alone, so every operation on one identifier addresses
/// one row.
pub uninterp spec fn id_key_of(id: i128) -> Seq<char>;

/// Relies on tower_sessions_core::session::Id's Display impl: the key is
/// the base64 text of the identifier's bytes, a function of the identifier
/// alone.
#[verifier::external_body]
fn id_key(id: i128) -> (r: String)
    ensures
        r@ == id_key_of(id),
{
    tower_sessions_core::session::Id(id).to_string()
}

/// Relies on r2d2::Pool::get: one pooled connection for the caller's sole
/// use, or a pool error; the outcome depends on the pool's state.
#[verifier::external_body]
fn pool_get(pool: &PoolHandle) -> (r: Result<ConnHandle, r2d2::Error>) {
    match pool.pool.get() {
        Ok(conn) => Ok(ConnHandle { conn }),
        Err(e) => Err(e),
    }
}

/// Relies on r2d2::Pool::clone: a new handle to the same underlying pool.
#[verifier::external_body]
fn pool_clone(pool: &PoolHandle) -> (r: PoolHandle)
    ensures
        r == *pool,
{
    PoolHandle { pool: pool.pool.clone() }
}

/// Relies on r2d2::Error's Display impl for the diagnostic message.
#[verifier::external_body]
fn r2d2_error_message(e: &r2d2::Error) -> (r: String) {
    e.to_string()
}

/// Relies on rusqlite::Error's Display impl for the diagnostic message.
#[verifier::external_body]
fn sql_error_message(e: &r2d2_sqlite::rusqlite::Error) -> (r: String) {
    e.to_string()
}

/// Relies on rusqlite::Connection::execute running `create table if not
/// exists`: creates the session table when absent, leaves an existing
/// table's contents and schema untouched; the outcome depends on the
/// database file.
#[verifier::external_body]
fn exec_create_table(
    conn: &ConnHandle,
) -> (r: Result<(), r2d2_sqlite::rusqlite::Error>) {
    let query = "create table if not exists tower_sessions (id text primary key not null, data blob not null, expiry_date integer not null)";
    conn.conn.execute(query, []).map(|_| ())
}

/// Relies on rusqlite::Connection::query_row running `select exists(...)`:
/// whether the table holds a row under the given key; the outcome depends
/// on the database file.
#[verifier::external_body]
fn query_id_exists(
    conn: &ConnHandle,
    key: &str,
) -> (r: Result<bool, r2d2_sqlite::rusqlite::Error>) {
    conn.conn.query_row("select exists(select 1 from tower_sessions where id = ?1)", [key], |row| {
        row.get(0)
    })
}

/// Relies on rusqlite::Connection::execute running an insert with an
/// `on conflict(id) do update` clause: stores the blob and expiry under the
/// key, overwriting the data and expiry of an existing row with that key
/// and never producing a second row for it; the outcome depends on the
/// database file.
#[verifier::external_body]
fn exec_upsert(
    conn: &ConnHandle,
    key: &str,
    blob: &[u8],
    expiry: i64,
) -> (r: Result<(), r2d2_sqlite::rusqlite::Error>) {
    let query = "insert into tower_sessions (id, data, expiry_date) values (?1, ?2, ?3) on conflict(id) do update set data = excluded.data, expiry_date = excluded.expiry_date";
    conn.conn.execute(query, (key, blob, expiry)).map(|_| ())
}

/// Relies on rusqlite::Connection::query_row and OptionalExtension::optional:
/// the stored blob and expiry of the row under the key, or None when no such
/// row exists; the outcome depends on the database file.
#[verifier::external_body]
fn query_row_by_id(
    conn: &ConnHandle,
    key: &str,
) -> (r: Result<Option<(Vec<u8>, i64)>, r2d2_sqlite::rusqlite::Error>) {
    conn.conn.query_row("select data, expiry_date from tower_sessions where id = ?1", [key], |row| {
        Ok((row.get(0)?, row.get(1)?))
    }).optional()
}

/// Relies on rusqlite::Connection::execute running `delete`: removes the
/// row under the key if one exists; a key without a row is not an error,
/// the statement then simply touches zero rows.
#[verifier::external_body]
fn exec_delete(
    conn: &ConnHandle,
    key: &str,
) -> (r: Result<(), r2d2_sqlite::rusqlite::Error>) {
    conn.conn.execute("delete from tower_sessions where id = ?1", [key]).map(|_| ())
}

/// Relies on time::OffsetDateTime::now_utc and unix_timestamp: the current
/// wall clock in epoch seconds; the outcome depends on the machine's clock.
#[verifier::external_body]
fn now_epoch_seconds() -> (r: i64) {
    time::OffsetDateTime::now_utc().unix_timestamp()
}

/// Relies on tower_sessions_core::session::Id::default: a fresh identifier
/// drawn from a cryptographic random number generator; nothing relates two
/// draws.
#[verifier::external_body]
fn fresh_id() -> (r: i128) {
    tower_sessions_core::session::Id::default().0
}

/// How many candidate identifiers create tries before giving up. With
/// identifiers drawn at random from 128 bits, exhausting this bound has
/// negligible probability unless the generator is broken.
pub const MAX_CREATE_ATTEMPTS: u32 = 64;

/// The session store: one table behind a pooled SQLite connection.
pub struct SqliteStore {
    pool: PoolHandle,
}

impl Clone for SqliteStore {
    /// A new handle onto the same pool, and through it the same table.
    fn clone(&self) -> (r: Self)
        ensures
            r.spec_pool() == self.spec_pool(),
    {
        SqliteStore { pool: pool_clone(&self.pool) }
    }
}

/// What load returns for a row fetched for one identifier: an absent row
/// and an expired row both read as no session; a live row must decode, and
/// a live row that does not decode is a decode failure, never absence.
pub fn resolve_loaded_row(row: Option<(Vec<u8>, i64)>, now: i64) -> (r: Result<
    Option<Record>,
    StoreError,
>)
    ensures
        (match row {
            None => r matches Ok(None),
            Some(x) => if x.1 <= now {
                r matches Ok(None)
            } else if spec_blob_wf(x.0@) {
                r matches Ok(Some(rec)) && rec.id.0 == spec_decoded_id(x.0@) && rec.data@
                    == spec_decoded_data(x.0@) && rec.expiry_date == spec_decoded_expiry(x.0@)
            } else {
                r matches Err(StoreError::Decode(_))
            },
        }),
{
    match row {
        None => Ok(None),
        Some((blob, expiry)) => {
            if expiry <= now {
                Ok(None)
            } else {
                match decode_record(blob.as_slice()) {
                    Ok(rec) => Ok(Some(rec)),
                    Err(e) => Err(e.into_store_error()),
                }
            }
        },
    }
}

impl SqliteStore {
    /// The pool this store runs its operations against.
    pub closed spec fn spec_pool(&self) -> PoolHandle {
        self.pool
    }

    /// A store over the given connection pool.
    pub fn new(r2d2_conn_pool: PoolHandle) -> (r: Self)
        ensures
            r.spec_pool() == r2d2_conn_pool,
    {
        SqliteStore { pool: r2d2_conn_pool }
    }

    /// Creates the session table if it is absent. Idempotent: safe on every
    /// startup, no effect on an existing table. Every failure is a backend
    /// error.
    pub fn migrate(&self) -> (r: Result<(), StoreError>)
        ensures
            r matches Err(e) ==> e matches StoreError::Backend(_),
    {
        let conn = match pool_get(&self.pool) {
            Ok(c) => c,
            Err(e) => {
                return Err(SqliteStoreError::R2d2(r2d2_error_message(&e)).into_store_error());
            },
        };
        match exec_create_table(&conn) {
            Ok(_) => Ok(()),
            Err(e) => Err(SqliteStoreError::Rusqlite(sql_error_message(&e)).into_store_error()),
        }
    }

    /// Whether a row already exists under the record's identifier. Every
    /// failure is a backend error.
    fn try_create_with_conn(&self, record: &Record) -> (r: Result<bool, StoreError>)
        ensures
            r matches Err(e) ==> e matches StoreError::Backend(_),
    {
        let conn = match pool_get(&self.pool) {
            Ok(c) => c,
            Err(e) => {
                return Err(SqliteStoreError::R2d2(r2d2_error_message(&e)).into_store_error());
            },
        };
        let key = id_key(record.id.0);
        match query_id_exists(&conn, key.as_str()) {
            Ok(b) => Ok(b),
            Err(e) => Err(SqliteStoreError::Rusqlite(sql_error_message(&e)).into_store_error()),
        }
    }

    /// Serializes the record and upserts it under its identifier. A record
    /// whose framed blob would not fit in memory is rejected as an encode
    /// failure before any write is attempted; any other failure is a
    /// backend error.
    fn save_with_conn(&self, record: &Record) -> (r: Result<(), StoreError>)
        ensures
            record.data@.len() + 32 > usize::MAX ==> r matches Err(StoreError::Encode(_)),
            record.data@.len() + 32 <= usize::MAX ==> (r is Ok || r matches Err(
                StoreError::Backend(_),
            )),
    {
        let blob = match encode_record(record) {
            Ok(v) => v,
            Err(e) => { return Err(e.into_store_error()) },
        };
        let conn = match pool_get(&self.pool) {
            Ok(c) => c,
            Err(e) => {
                return Err(SqliteStoreError::R2d2(r2d2_error_message(&e)).into_store_error());
            },
        };
        let key = id_key(record.id.0);
        match exec_upsert(&conn, key.as_str(), blob.as_slice(), record.expiry_date) {
            Ok(_) => Ok(()),
            Err(e) => Err(SqliteStoreError::Rusqlite(sql_error_message(&e)).into_store_error()),
        }
    }

    /// Stores the record under an identifier no existing row uses. The
    /// record's current identifier is the first candidate; as long as the
    /// existence check finds a row under the candidate, a fresh random
    /// identifier replaces it. The confirmed identifier is written back
    /// into the caller's record; payload and expiry are never touched. The
    /// upsert underneath remains the safety net against a racing writer
    /// claiming the same identifier between check and insert.
    pub fn create(&self, record: &mut Record) -> (r: Result<(), StoreError>)
        ensures
            final(record).data@ == old(record).data@,
            final(record).expiry_date == old(record).expiry_date,
            old(record).data@.len() + 32 > usize::MAX ==> r is Err,
            old(record).data@.len() + 32 <= usize::MAX ==> (r is Ok || r matches Err(
                StoreError::Backend(_),
            )),
    {
        let mut attempts: u32 = 0;
        loop
            invariant
                record.data@ == old(record).data@,
                record.expiry_date == old(record).expiry_date,
                attempts < MAX_CREATE_ATTEMPTS,
            ensures
                record.data@ == old(record).data@,
                record.expiry_date == old(record).expiry_date,
            decreases MAX_CREATE_ATTEMPTS - attempts,
        {
            match self.try_create_with_conn(record) {
                Ok(false) => { break },
                Ok(true) => { record.id = SessionId(fresh_id()) },
                Err(e) => { return Err(e) },
            }
            attempts = attempts + 1;
            if attempts >= MAX_CREATE_ATTEMPTS {
                return Err(
                    StoreError::Backend("gave up looking for an unused session id".to_string()),
                );
            }
        }
        self.save_with_conn(record)
    }

    /// Serializes the record and upserts it under its identifier: a new row
    /// if the identifier is unused, otherwise a full replace of that row's
    /// data and expiry. An oversized payload is an encode failure before
    /// any write; any other failure is a backend error.
    pub fn save(&self, record: &Record) -> (r: Result<(), StoreError>)
        ensures
            record.data@.len() + 32 > usize::MAX ==> r matches Err(StoreError::Encode(_)),
            record.data@.len() + 32 <= usize::MAX ==> (r is Ok || r matches Err(
                StoreError::Backend(_),
            )),
    {
        self.save_with_conn(record)
    }

    /// Fetches the row under the identifier and resolves it at the current
    /// wall clock: no row and an expired row read as no session, a live
    /// row is decoded, and a live row that does not decode surfaces as a
    /// decode failure, never as absence.
    pub fn load(&self, session_id: &SessionId) -> (r: Result<Option<Record>, StoreError>)
        ensures
            r matches Err(e) ==> (e matches StoreError::Backend(_) || e matches StoreError::Decode(
                _,
            )),
    {
        let conn = match pool_get(&self.pool) {
            Ok(c) => c,
            Err(e) => {
                return Err(SqliteStoreError::R2d2(r2d2_error_message(&e)).into_store_error());
            },
        };
        let key = id_key(session_id.0);
        let row = match query_row_by_id(&conn, key.as_str()) {
            Ok(row) => row,
            Err(e) => {
                return Err(SqliteStoreError::Rusqlite(sql_error_message(&e)).into_store_error());
            },
        };
        let now = now_epoch_seconds();
        resolve_loaded_row(row, now)
    }

    /// Removes the row under the identifier if one exists; an identifier
    /// without a row is not an error. Every failure is a backend error.
    pub fn delete(&self, session_id: &SessionId) -> (r: Result<(), StoreError>)
        ensures
            r matches Err(e) ==> e matches StoreError::Backend(_),
    {
        let conn = match pool_get(&self.pool) {
            Ok(c) => c,
            Err(e) => {
                return Err(SqliteStoreError::R2d2(r2d2_error_message(&e)).into_store_error());
            },
        };
        let key = id_key(session_id.0);
        match exec_delete(&conn, key.as_str()) {
            Ok(_) => Ok(()),
            Err(e) => Err(SqliteStoreError::Rusqlite(sql_error_message(&e)).into_store_error()),
        }
    }
}

} // verus!
