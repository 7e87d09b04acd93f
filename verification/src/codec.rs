//! The record codec: the binary blob format under which a record is stored.
//!
//! The layout is fixed-width little-endian framing followed by the payload:
//! bytes 0..16 hold the identifier, bytes 16..24 the expiry timestamp,
//! bytes 24..32 the payload length, and the payload itself follows. The
//! format is an internal contract between save and load; a blob is accepted
//! by the decoder exactly when its length field agrees with the bytes that
//! are actually present.

use vstd::bytes::*;
use vstd::prelude::*;
use vstd::slice::{slice_subrange, slice_to_vec};

use crate::errors::SqliteStoreError;
use crate::record::{Record, SessionId};

verus! {

/// The stored blob for a record: identifier, expiry and payload length as
/// little-endian fields, then the payload bytes.
pub open spec fn spec_encode_record(r: Record) -> Seq<u8> {
    spec_u128_to_le_bytes(r.id.0 as u128) + spec_u64_to_le_bytes(r.expiry_date as u64)
        + spec_u64_to_le_bytes(r.data@.len() as u64) + r.data@
}

/// A blob is well formed when the framing is present and its length field
/// counts exactly the payload bytes that follow it.
pub open spec fn spec_blob_wf(b: Seq<u8>) -> bool {
    &&& b.len() >= 32
    &&& b.len() - 32 <= u64::MAX
    &&& spec_u64_from_le_bytes(b.subrange(24, 32)) == (b.len() - 32) as u64
}

/// The identifier a well-formed blob decodes to.
pub open spec fn spec_decoded_id(b: Seq<u8>) -> i128 {
    spec_u128_from_le_bytes(b.subrange(0, 16)) as i128
}

/// The expiry timestamp a well-formed blob decodes to.
pub open spec fn spec_decoded_expiry(b: Seq<u8>) -> i64 {
    spec_u64_from_le_bytes(b.subrange(16, 24)) as i64
}

/// The payload a well-formed blob decodes to.
pub open spec fn spec_decoded_data(b: Seq<u8>) -> Seq<u8> {
    b.subrange(32, b.len() as int)
}

proof fn lemma_i128_u128_round_trip(x: i128)
    ensures
        (x as u128) as i128 == x,
{
    assert((x as u128) as i128 == x) by (bit_vector);
}

proof fn lemma_i64_u64_round_trip(x: i64)
    ensures
        (x as u64) as i64 == x,
{
    assert((x as u64) as i64 == x) by (bit_vector);
}

/// Law: the codec round-trips. Encoding any record whose payload length fits
/// the length field yields a well-formed blob, and decoding that blob gives
/// back the identifier, payload and expiry of the record unchanged.
pub proof fn lemma_encode_decode_round_trip(r: Record)
    requires
        r.data@.len() <= u64::MAX,
    ensures
        spec_blob_wf(spec_encode_record(r)),
        spec_decoded_id(spec_encode_record(r)) == r.id.0,
        spec_decoded_expiry(spec_encode_record(r)) == r.expiry_date,
        spec_decoded_data(spec_encode_record(r)) == r.data@,
{
    lemma_auto_spec_u128_to_from_le_bytes();
    lemma_auto_spec_u64_to_from_le_bytes();
    let b = spec_encode_record(r);
    assert(b.subrange(0, 16) =~= spec_u128_to_le_bytes(r.id.0 as u128));
    assert(b.subrange(16, 24) =~= spec_u64_to_le_bytes(r.expiry_date as u64));
    assert(b.subrange(24, 32) =~= spec_u64_to_le_bytes(r.data@.len() as u64));
    assert(b.subrange(32, b.len() as int) =~= r.data@);
    lemma_i128_u128_round_trip(r.id.0);
    lemma_i64_u64_round_trip(r.expiry_date);
}

/// Serializes a record into its stored blob. Fails, before anything could be
/// written, exactly when the framed blob would not fit in memory; the blob
/// of any record that fits is the encoding the decoder accepts.
pub fn encode_record(record: &Record) -> (r: Result<Vec<u8>, SqliteStoreError>)
    ensures
        r is Ok <==> record.data@.len() + 32 <= usize::MAX,
        r matches Ok(v) ==> v@ == spec_encode_record(*record),
        r matches Err(e) ==> e matches SqliteStoreError::Encode(_),
{
    if record.data.len() > usize::MAX - 32 {
        return Err(SqliteStoreError::Encode("record payload too large to frame".to_string()));
    }
    let mut out = u128_to_le_bytes(record.id.0 as u128);
    let mut exp = u64_to_le_bytes(record.expiry_date as u64);
    let mut len = u64_to_le_bytes(record.data.len() as u64);
    let mut payload = slice_to_vec(record.data.as_slice());
    out.append(&mut exp);
    out.append(&mut len);
    out.append(&mut payload);
    Ok(out)
}

/// Deserializes a stored blob. Succeeds exactly on well-formed blobs and
/// returns the record whose fields the blob carries; anything else is a
/// decode failure, never treated as an absent record.
pub fn decode_record(blob: &[u8]) -> (r: Result<Record, SqliteStoreError>)
    ensures
        r is Ok <==> spec_blob_wf(blob@),
        r matches Ok(rec) ==> {
            &&& rec.id.0 == spec_decoded_id(blob@)
            &&& rec.data@ == spec_decoded_data(blob@)
            &&& rec.expiry_date == spec_decoded_expiry(blob@)
        },
        r matches Err(e) ==> e matches SqliteStoreError::Decode(_),
{
    if blob.len() < 32 {
        return Err(SqliteStoreError::Decode("stored blob shorter than its frame".to_string()));
    }
    let id_word = u128_from_le_bytes(slice_subrange(blob, 0, 16));
    let exp_word = u64_from_le_bytes(slice_subrange(blob, 16, 24));
    let len_word = u64_from_le_bytes(slice_subrange(blob, 24, 32));
    if len_word != (blob.len() - 32) as u64 {
        return Err(SqliteStoreError::Decode("stored blob length field mismatch".to_string()));
    }
    let data = slice_to_vec(slice_subrange(blob, 32, blob.len()));
    Ok(Record { id: SessionId(id_word as i128), data, expiry_date: exp_word as i64 })
}

} // verus!
