//! The unit of storage: one session record.

use vstd::prelude::*;

verus! {

/// A session identifier: 128 bits, drawn at random when a fresh session is
/// created, globally unique among active records with overwhelming
/// probability.
#[derive(Debug, Clone, Copy, PartialEq, Eq, Structural)]
pub struct SessionId(pub i128);

/// One session record: identifier, opaque payload bytes, and the absolute
/// expiry timestamp in epoch seconds after which the record counts as
/// expired.
#[derive(Debug, Clone, PartialEq)]
pub struct Record {
    /// Primary key of the record's row.
    pub id: SessionId,
    /// The serialized session payload; the store never inspects it.
    pub data: Vec<u8>,
    /// Epoch seconds; a record is live while this lies strictly in the
    /// future.
    pub expiry_date: i64,
}

} // verus!
