use metadata_wrapper::address::Address;
use metadata_wrapper::codec::{
    decode_checked, decode_unchecked, encode_record, MetadataRecord, MetadataWrapper,
    MAX_METADATA_LEN, METADATA_TAG,
};
use metadata_wrapper::data::{Collection, Creator, DataV2, UseMethod, Uses};
use metadata_wrapper::error::WrapError;

fn addr(n: u8) -> Address {
    Address::from_bytes(vec![n; 32]).unwrap()
}

fn full_record() -> MetadataRecord {
    MetadataRecord {
        tag: METADATA_TAG,
        update_authority: addr(1),
        mint: addr(2),
        data: DataV2 {
            name: b"Asset #1".to_vec(),
            symbol: b"AST".to_vec(),
            uri: b"https://x/1.json".to_vec(),
            seller_fee_basis_points: 500,
            creators: Some(vec![
                Creator { address: addr(3), verified: false, share: 60 },
                Creator { address: addr(4), verified: true, share: 40 },
            ]),
            collection: Some(Collection { verified: false, key: addr(5) }),
            uses: Some(Uses { use_method: UseMethod::Multiple, remaining: 2, total: 5 }),
        },
        primary_sale_happened: false,
        is_mutable: true,
    }
}

fn assert_records_equal(a: &MetadataRecord, b: &MetadataRecord) {
    // Byte-for-byte comparison through the canonical encoding.
    assert_eq!(encode_record(a), encode_record(b));
}

#[test]
fn round_trip_full_record() {
    let rec = full_record();
    let bytes = encode_record(&rec);
    assert!(bytes.len() <= MAX_METADATA_LEN);
    let back = decode_checked(&bytes).unwrap();
    assert_records_equal(&rec, &back);
    assert_eq!(back.tag, METADATA_TAG);
    assert_eq!(back.data.name, b"Asset #1".to_vec());
    assert_eq!(back.data.symbol, b"AST".to_vec());
    assert_eq!(back.data.uri, b"https://x/1.json".to_vec());
    assert_eq!(back.data.seller_fee_basis_points, 500);
    let cs = back.data.creators.as_ref().unwrap();
    assert_eq!(cs.len(), 2);
    assert_eq!(cs[0].address.bytes, vec![3u8; 32]);
    assert!(!cs[0].verified);
    assert_eq!(cs[0].share, 60);
    assert_eq!(cs[1].share, 40);
    assert!(cs[1].verified);
    let col = back.data.collection.as_ref().unwrap();
    assert!(!col.verified);
    assert_eq!(col.key.bytes, vec![5u8; 32]);
    let uses = back.data.uses.unwrap();
    assert_eq!(uses.use_method, UseMethod::Multiple);
    assert_eq!(uses.remaining, 2);
    assert_eq!(uses.total, 5);
}

#[test]
fn round_trip_minimal_record() {
    let rec = MetadataRecord {
        tag: METADATA_TAG,
        update_authority: addr(7),
        mint: addr(9),
        data: DataV2 {
            name: b"A".to_vec(),
            symbol: Vec::new(),
            uri: b"u".to_vec(),
            seller_fee_basis_points: 1,
            creators: None,
            collection: None,
            uses: None,
        },
        primary_sale_happened: false,
        is_mutable: true,
    };
    let bytes = encode_record(&rec);
    let back = decode_checked(&bytes).unwrap();
    assert_records_equal(&rec, &back);
}

#[test]
fn encoding_layout_exact_bytes() {
    let rec = MetadataRecord {
        tag: METADATA_TAG,
        update_authority: addr(7),
        mint: addr(9),
        data: DataV2 {
            name: b"A".to_vec(),
            symbol: Vec::new(),
            uri: b"u".to_vec(),
            seller_fee_basis_points: 1,
            creators: None,
            collection: None,
            uses: None,
        },
        primary_sale_happened: false,
        is_mutable: true,
    };
    let mut expected: Vec<u8> = Vec::new();
    expected.push(4); // discriminant tag
    expected.extend_from_slice(&[7u8; 32]); // update authority
    expected.extend_from_slice(&[9u8; 32]); // mint
    expected.extend_from_slice(&[1, 0, 0, 0]); // name length
    expected.push(b'A');
    expected.extend_from_slice(&[0, 0, 0, 0]); // symbol length
    expected.extend_from_slice(&[1, 0, 0, 0]); // uri length
    expected.push(b'u');
    expected.extend_from_slice(&[1, 0]); // fee, little endian
    expected.push(0); // no creators
    expected.push(0); // primary sale not happened
    expected.push(1); // mutable
    expected.push(0); // no collection
    expected.push(0); // no uses
    assert_eq!(encode_record(&rec), expected);
}

#[test]
fn round_trip_largest_fields() {
    let rec = MetadataRecord {
        tag: METADATA_TAG,
        update_authority: addr(1),
        mint: addr(2),
        data: DataV2 {
            name: vec![b'n'; 32],
            symbol: vec![b's'; 10],
            uri: vec![b'u'; 200],
            seller_fee_basis_points: 10000,
            creators: Some(vec![
                Creator { address: addr(3), verified: false, share: 20 },
                Creator { address: addr(4), verified: false, share: 20 },
                Creator { address: addr(5), verified: false, share: 20 },
                Creator { address: addr(6), verified: false, share: 20 },
                Creator { address: addr(7), verified: false, share: 20 },
            ]),
            collection: Some(Collection { verified: true, key: addr(8) }),
            uses: Some(Uses { use_method: UseMethod::Burn, remaining: 0, total: 0 }),
        },
        primary_sale_happened: true,
        is_mutable: false,
    };
    let bytes = encode_record(&rec);
    assert!(bytes.len() <= MAX_METADATA_LEN);
    let back = decode_checked(&bytes).unwrap();
    assert_records_equal(&rec, &back);
}

#[test]
fn decode_checked_rejects_foreign_tag() {
    let rec = full_record();
    let mut bytes = encode_record(&rec);
    bytes[0] = 5;
    match decode_checked(&bytes) {
        Err(WrapError::RecordTypeMismatch) => (),
        other => panic!("expected RecordTypeMismatch, got {:?}", other.map(|_| ())),
    }
}

#[test]
fn decode_checked_rejects_oversized_buffer() {
    let bytes = vec![METADATA_TAG; MAX_METADATA_LEN + 1];
    match decode_checked(&bytes) {
        Err(WrapError::RecordTooLarge) => (),
        other => panic!("expected RecordTooLarge, got {:?}", other.map(|_| ())),
    }
}

#[test]
fn decode_checked_rejects_truncated_buffer() {
    let rec = full_record();
    let bytes = encode_record(&rec);
    let cut: Vec<u8> = bytes[..10].to_vec();
    match decode_checked(&cut) {
        Err(WrapError::RecordTypeMismatch) => (),
        other => panic!("expected RecordTypeMismatch, got {:?}", other.map(|_| ())),
    }
}

#[test]
fn decode_checked_rejects_corrupt_option_byte() {
    let rec = full_record();
    let mut bytes = encode_record(&rec);
    let last = bytes.len() - 1;
    // The uses record of full_record is present; its closing total field sits
    // at the very end. Corrupt the presence byte in front of the uses block.
    bytes[last - 17] = 7;
    match decode_checked(&bytes) {
        Err(WrapError::RecordTypeMismatch) => (),
        other => panic!("expected RecordTypeMismatch, got {:?}", other.map(|_| ())),
    }
}

#[test]
fn decode_checked_accepts_padded_buffer() {
    let rec = full_record();
    let mut bytes = encode_record(&rec);
    while bytes.len() < MAX_METADATA_LEN {
        bytes.push(0);
    }
    let back = decode_checked(&bytes).unwrap();
    assert_records_equal(&rec, &back);
}

#[test]
fn decode_unchecked_ignores_foreign_tag() {
    let rec = full_record();
    let mut bytes = encode_record(&rec);
    bytes[0] = 77;
    let back = decode_unchecked(&bytes).unwrap();
    assert_eq!(back.tag, 77);
    assert_eq!(back.data.name, rec.data.name);
    assert_eq!(back.data.uri, rec.data.uri);
}

#[test]
fn wrapper_try_deserialize_round_trip() {
    let rec = full_record();
    let bytes = encode_record(&rec);
    let w = MetadataWrapper::try_deserialize(&bytes).unwrap();
    assert_records_equal(&rec, &w.record);
    let mut foreign = bytes.clone();
    foreign[0] = 9;
    assert!(MetadataWrapper::try_deserialize(&foreign).is_err());
    let w2 = MetadataWrapper::try_deserialize_unchecked(&foreign).unwrap();
    assert_eq!(w2.record.tag, 9);
}
