use metadata_wrapper::address::Address;
use metadata_wrapper::data::{
    data_is_valid, to_mpl_use_method, Collection, Creator, DataV2, MetadataInfo, UseMethod, Uses,
};

fn addr(n: u8) -> Address {
    Address::from_bytes(vec![n; 32]).unwrap()
}

fn info() -> MetadataInfo {
    MetadataInfo {
        name: b"Asset #1".to_vec(),
        symbol: b"AST".to_vec(),
        uri: b"https://x/1.json".to_vec(),
        creators: Some(vec![Creator { address: addr(3), verified: false, share: 100 }]),
        seller_fee_basis_points: 500,
        update_authority_is_signer: true,
        is_mutable: true,
        collection: Some(Collection { verified: false, key: addr(5) }),
        uses: Some(Uses { use_method: UseMethod::Single, remaining: 1, total: 1 }),
        supply: None,
        new_update_authority: None,
    }
}

fn data_fields_equal(a: &DataV2, b: &DataV2) -> bool {
    let creators_equal = match (&a.creators, &b.creators) {
        (None, None) => true,
        (Some(x), Some(y)) => {
            x.len() == y.len()
                && x.iter().zip(y.iter()).all(|(c, d)| {
                    c.address.bytes == d.address.bytes && c.verified == d.verified
                        && c.share == d.share
                })
        },
        _ => false,
    };
    let collection_equal = match (&a.collection, &b.collection) {
        (None, None) => true,
        (Some(x), Some(y)) => x.verified == y.verified && x.key.bytes == y.key.bytes,
        _ => false,
    };
    a.name == b.name && a.symbol == b.symbol && a.uri == b.uri
        && a.seller_fee_basis_points == b.seller_fee_basis_points && creators_equal
        && collection_equal && a.uses == b.uses
}

#[test]
fn normalizer_passes_fields_through_unchanged() {
    let i = info();
    let d = i.to_data_v2();
    assert_eq!(d.name, i.name);
    assert_eq!(d.symbol, i.symbol);
    assert_eq!(d.uri, i.uri);
    assert_eq!(d.seller_fee_basis_points, i.seller_fee_basis_points);
    let cs = d.creators.as_ref().unwrap();
    assert_eq!(cs.len(), 1);
    assert_eq!(cs[0].address.bytes, vec![3u8; 32]);
    assert_eq!(cs[0].share, 100);
    assert!(!cs[0].verified);
    assert_eq!(d.collection.as_ref().unwrap().key.bytes, vec![5u8; 32]);
    assert_eq!(d.uses.unwrap(), Uses { use_method: UseMethod::Single, remaining: 1, total: 1 });
}

#[test]
fn normalizer_is_idempotent_on_the_same_input() {
    let i = info();
    let first = i.to_data_v2();
    let second = i.to_data_v2();
    assert!(data_fields_equal(&first, &second));
}

#[test]
fn use_method_maps_one_to_one() {
    assert_eq!(to_mpl_use_method(&UseMethod::Burn), UseMethod::Burn);
    assert_eq!(to_mpl_use_method(&UseMethod::Multiple), UseMethod::Multiple);
    assert_eq!(to_mpl_use_method(&UseMethod::Single), UseMethod::Single);
}

#[test]
fn use_method_defaults_to_single() {
    assert_eq!(UseMethod::default(), UseMethod::Single);
}

#[test]
fn normalizer_does_not_validate_cross_field_invariants() {
    // A share sum of 40 passes through the normalizer untouched; the rule
    // belongs to the service, whose validity check rejects it.
    let mut i = info();
    i.creators = Some(vec![Creator { address: addr(3), verified: false, share: 40 }]);
    let d = i.to_data_v2();
    assert_eq!(d.creators.as_ref().unwrap()[0].share, 40);
    assert!(!data_is_valid(&d));
}

#[test]
fn data_validity_bounds() {
    let good = info().to_data_v2();
    assert!(data_is_valid(&good));
    let mut long_name = info();
    long_name.name = vec![b'n'; 33];
    assert!(!data_is_valid(&long_name.to_data_v2()));
    let mut long_symbol = info();
    long_symbol.symbol = vec![b's'; 11];
    assert!(!data_is_valid(&long_symbol.to_data_v2()));
    let mut long_uri = info();
    long_uri.uri = vec![b'u'; 201];
    assert!(!data_is_valid(&long_uri.to_data_v2()));
    let mut high_fee = info();
    high_fee.seller_fee_basis_points = 10001;
    assert!(!data_is_valid(&high_fee.to_data_v2()));
    let mut bad_uses = info();
    bad_uses.uses = Some(Uses { use_method: UseMethod::Burn, remaining: 3, total: 2 });
    assert!(!data_is_valid(&bad_uses.to_data_v2()));
    let mut many_creators = info();
    many_creators.creators = Some(
        (0..6).map(|n| Creator { address: addr(n), verified: false, share: 20 }).collect(),
    );
    assert!(!data_is_valid(&many_creators.to_data_v2()));
}
