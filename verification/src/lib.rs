//! A persistent session store backed by a pooled SQLite connection.
//!
//! Session records (identifier, opaque payload, expiry timestamp) are kept in
//! a single relational table. The store offers idempotent schema migration,
//! create with identifier-collision retry, upsert-style save, expiry-filtered
//! load, and idempotent delete. Low-level pool, query and codec failures are
//! mapped into a small store-level error taxonomy.

pub mod codec;
pub mod errors;
pub mod record;
pub mod store;

pub use errors::SqliteStoreError;
pub use errors::StoreError;
pub use record::Record;
pub use record::SessionId;
pub use store::PoolHandle;
pub use store::SqliteStore;
