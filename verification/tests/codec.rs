use sqlite_session_store::codec::{decode_record, encode_record};
use sqlite_session_store::errors::{SqliteStoreError, StoreError};
use sqlite_session_store::record::{Record, SessionId};

fn le_bytes_u128(x: u128) -> Vec<u8> {
    x.to_le_bytes().to_vec()
}

fn le_bytes_u64(x: u64) -> Vec<u8> {
    x.to_le_bytes().to_vec()
}

#[test]
fn encode_produces_framed_little_endian_blob() {
    let record = Record { id: SessionId(1), data: vec![0xAB], expiry_date: 2 };
    let blob = encode_record(&record).unwrap();
    let mut expected = le_bytes_u128(1);
    expected.extend(le_bytes_u64(2));
    expected.extend(le_bytes_u64(1));
    expected.push(0xAB);
    assert_eq!(blob, expected);
    assert_eq!(blob.len(), 33);
}

#[test]
fn encode_negative_fields_use_twos_complement() {
    let record = Record { id: SessionId(-1), data: vec![], expiry_date: -10 };
    let blob = encode_record(&record).unwrap();
    let mut expected = vec![0xFFu8; 16];
    expected.extend(le_bytes_u64((-10i64) as u64));
    expected.extend(le_bytes_u64(0));
    assert_eq!(blob, expected);
}

#[test]
fn decode_inverts_encode() {
    let record = Record {
        id: SessionId(-170141183460469231731687303715884105728),
        data: vec![0, 1, 2, 254, 255],
        expiry_date: i64::MIN,
    };
    let blob = encode_record(&record).unwrap();
    let back = decode_record(&blob).unwrap();
    assert_eq!(back, record);
}

#[test]
fn decode_of_empty_record_round_trips() {
    let record = Record { id: SessionId(0), data: vec![], expiry_date: 0 };
    let blob = encode_record(&record).unwrap();
    assert_eq!(blob.len(), 32);
    let back = decode_record(&blob).unwrap();
    assert_eq!(back, record);
}

#[test]
fn decode_rejects_short_blob() {
    let res = decode_record(&[0xDE, 0xAD]);
    assert!(matches!(res, Err(SqliteStoreError::Decode(_))));
}

#[test]
fn decode_rejects_length_field_mismatch() {
    let record = Record { id: SessionId(7), data: vec![1, 2, 3], expiry_date: 9 };
    let mut blob = encode_record(&record).unwrap();
    // One payload byte too few for the length field.
    blob.pop();
    let res = decode_record(&blob);
    assert!(matches!(res, Err(SqliteStoreError::Decode(_))));
    // One payload byte too many.
    blob.push(3);
    blob.push(4);
    let res = decode_record(&blob);
    assert!(matches!(res, Err(SqliteStoreError::Decode(_))));
}

#[test]
fn internal_errors_map_onto_the_three_kinds() {
    let backend = SqliteStoreError::Rusqlite("q".to_string()).into_store_error();
    assert!(matches!(backend, StoreError::Backend(m) if m == "q"));
    let backend = SqliteStoreError::R2d2("p".to_string()).into_store_error();
    assert!(matches!(backend, StoreError::Backend(m) if m == "p"));
    let encode = SqliteStoreError::Encode("e".to_string()).into_store_error();
    assert!(matches!(encode, StoreError::Encode(m) if m == "e"));
    let decode = SqliteStoreError::Decode("d".to_string()).into_store_error();
    assert!(matches!(decode, StoreError::Decode(m) if m == "d"));
}

#[test]
fn store_error_message_carries_the_diagnostic() {
    assert_eq!(StoreError::Backend("why".to_string()).message(), "why");
    assert_eq!(StoreError::Encode("enc".to_string()).message(), "enc");
    assert_eq!(StoreError::Decode("dec".to_string()).message(), "dec");
}
