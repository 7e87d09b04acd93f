//! Error taxonomy of the store.
//!
//! Internally each failure source keeps its own variant; externally exactly
//! three kinds are visible. The translation is a single total function, so no
//! internal failure is ever dropped or re-classified along the way.

use vstd::prelude::*;

verus! {

/// Internal error taxonomy: one variant per low-level failure source, each
/// carrying the diagnostic message of the failure it records.
#[derive(Debug)]
pub enum SqliteStoreError {
    /// A query or statement failed at the database layer.
    Rusqlite(String),
    /// Acquiring a connection from the pool failed.
    R2d2(String),
    /// Serializing a record into its stored blob failed.
    Encode(String),
    /// Deserializing a stored blob back into a record failed.
    Decode(String),
}

/// Store-level error kinds surfaced to the caller: backend trouble (pool or
/// query), encode failure on write, decode failure on read.
#[derive(Debug)]
pub enum StoreError {
    /// A connection could not be acquired or a statement failed.
    Backend(String),
    /// A record could not be serialized; nothing was written.
    Encode(String),
    /// A stored blob could not be deserialized; the data is corrupt or of
    /// another format.
    Decode(String),
}

/// The store-level kind that an internal failure maps to: pool and query
/// failures are backend errors, codec failures keep their kind, and the
/// diagnostic message is carried along unchanged.
pub open spec fn spec_store_error_of(e: SqliteStoreError) -> StoreError {
    match e {
        SqliteStoreError::Rusqlite(m) => StoreError::Backend(m),
        SqliteStoreError::R2d2(m) => StoreError::Backend(m),
        SqliteStoreError::Encode(m) => StoreError::Encode(m),
        SqliteStoreError::Decode(m) => StoreError::Decode(m),
    }
}

impl SqliteStoreError {
    /// Total mapping from the internal taxonomy onto the three store-level
    /// kinds; every variant lands on exactly one kind.
    pub fn into_store_error(self) -> (r: StoreError)
        ensures
            r == spec_store_error_of(self),
    {
        match self {
            SqliteStoreError::Rusqlite(m) => StoreError::Backend(m),
            SqliteStoreError::R2d2(m) => StoreError::Backend(m),
            SqliteStoreError::Encode(m) => StoreError::Encode(m),
            SqliteStoreError::Decode(m) => StoreError::Decode(m),
        }
    }
}

impl StoreError {
    /// The diagnostic message carried by the error.
    pub fn message(self) -> (r: String)
        ensures
            r == (match self {
                StoreError::Backend(m) => m,
                StoreError::Encode(m) => m,
                StoreError::Decode(m) => m,
            }),
    {
        match self {
            StoreError::Backend(m) => m,
            StoreError::Encode(m) => m,
            StoreError::Decode(m) => m,
        }
    }
}

} // verus!
