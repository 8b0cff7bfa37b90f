use metadata_wrapper::address::Address;
use metadata_wrapper::authority::AuthorityDescriptor;
use metadata_wrapper::codec::{encode_record, METADATA_TAG};
use metadata_wrapper::data::{Creator, MetadataInfo, UpdateMetadataInfo, UseMethod, Uses};
use metadata_wrapper::error::{ServiceError, Step, WrapError};
use metadata_wrapper::generate::{generate, plan, update_data, update_for_primary_sale, update_uri};
use metadata_wrapper::mint::MintRecord;
use metadata_wrapper::service::{MasterEditionRecord, RecordStore};

fn addr(n: u8) -> Address {
    Address::from_bytes(vec![n; 32]).unwrap()
}

fn good_mint() -> MintRecord {
    MintRecord {
        decimals: 0,
        supply: 1,
        mint_authority: Some(addr(1)),
        freeze_authority: Some(addr(1)),
    }
}

fn request(supply: Option<u64>) -> MetadataInfo {
    MetadataInfo {
        name: b"Asset #1".to_vec(),
        symbol: b"AST".to_vec(),
        uri: b"https://x/1.json".to_vec(),
        creators: Some(vec![Creator { address: addr(3), verified: false, share: 100 }]),
        seller_fee_basis_points: 500,
        update_authority_is_signer: true,
        is_mutable: true,
        collection: None,
        uses: None,
        supply,
        new_update_authority: None,
    }
}

#[test]
fn plan_orders_steps_with_and_without_supply() {
    assert_eq!(
        plan(&request(Some(1))),
        vec![Step::CreateMetadata, Step::CreateEdition, Step::Finalize]
    );
    assert_eq!(plan(&request(None)), vec![Step::CreateMetadata, Step::Finalize]);
}

#[test]
fn generate_without_supply_creates_finalized_metadata_and_no_edition() {
    let mut store = RecordStore::new();
    let r = generate(&mut store, &good_mint(), &addr(2), &addr(1), request(None));
    assert_eq!(r, Ok(()));
    let rec = store.metadata.as_ref().unwrap();
    assert_eq!(rec.tag, METADATA_TAG);
    assert_eq!(rec.mint.bytes, vec![2u8; 32]);
    assert_eq!(rec.update_authority.bytes, vec![1u8; 32]);
    assert_eq!(rec.data.name, b"Asset #1".to_vec());
    assert_eq!(rec.data.symbol, b"AST".to_vec());
    assert_eq!(rec.data.uri, b"https://x/1.json".to_vec());
    assert_eq!(rec.data.seller_fee_basis_points, 500);
    let cs = rec.data.creators.as_ref().unwrap();
    assert_eq!(cs.len(), 1);
    assert!(!cs[0].verified);
    assert_eq!(cs[0].share, 100);
    assert!(rec.primary_sale_happened);
    assert!(rec.is_mutable);
    assert!(store.edition.is_none());
}

#[test]
fn generate_with_supply_creates_edition_record() {
    let mut store = RecordStore::new();
    let r = generate(&mut store, &good_mint(), &addr(2), &addr(1), request(Some(1)));
    assert_eq!(r, Ok(()));
    assert!(store.metadata.is_some());
    assert_eq!(store.edition, Some(MasterEditionRecord { max_supply: Some(1) }));
    assert!(store.metadata.as_ref().unwrap().primary_sale_happened);
}

#[test]
fn generate_rotates_update_authority_when_asked() {
    let mut store = RecordStore::new();
    let mut info = request(None);
    info.new_update_authority = Some(addr(8));
    let r = generate(&mut store, &good_mint(), &addr(2), &addr(1), info);
    assert_eq!(r, Ok(()));
    assert_eq!(store.metadata.as_ref().unwrap().update_authority.bytes, vec![8u8; 32]);
}

#[test]
fn generate_aborts_on_invalid_mint_without_touching_store() {
    let mut store = RecordStore::new();
    let mut mint = good_mint();
    mint.supply = 5;
    let r = generate(&mut store, &mint, &addr(2), &addr(1), request(Some(1)));
    assert!(matches!(r, Err(WrapError::InvalidMintState(_))));
    assert!(store.metadata.is_none());
    assert!(store.edition.is_none());
}

#[test]
fn generate_fails_when_metadata_already_exists() {
    let mut store = RecordStore::new();
    assert_eq!(generate(&mut store, &good_mint(), &addr(2), &addr(1), request(None)), Ok(()));
    let before = encode_record(store.metadata.as_ref().unwrap());
    let r = generate(&mut store, &good_mint(), &addr(2), &addr(1), request(Some(1)));
    assert_eq!(
        r,
        Err(WrapError::ExternalServiceError(
            Step::CreateMetadata,
            ServiceError::MetadataAlreadyExists
        ))
    );
    // All-or-nothing: the failed composite left no trace, not even an edition.
    assert!(store.edition.is_none());
    assert_eq!(encode_record(store.metadata.as_ref().unwrap()), before);
}

#[test]
fn generate_fails_on_invalid_share_sum() {
    let mut store = RecordStore::new();
    let mut info = request(None);
    info.creators = Some(vec![Creator { address: addr(3), verified: false, share: 30 }]);
    let r = generate(&mut store, &good_mint(), &addr(2), &addr(1), info);
    assert_eq!(
        r,
        Err(WrapError::ExternalServiceError(Step::CreateMetadata, ServiceError::DataInvalid))
    );
    assert!(store.metadata.is_none());
}

#[test]
fn generate_on_immutable_request_fails_at_finalize_and_rolls_back() {
    let mut store = RecordStore::new();
    let mut info = request(None);
    info.is_mutable = false;
    let r = generate(&mut store, &good_mint(), &addr(2), &addr(1), info);
    assert_eq!(r, Err(WrapError::ExternalServiceError(Step::Finalize, ServiceError::Immutable)));
    assert!(store.metadata.is_none());
    assert!(store.edition.is_none());
}

fn stored_record(is_mutable: bool) -> RecordStore {
    let mut store = RecordStore::new();
    let mut info = request(None);
    info.is_mutable = true;
    assert_eq!(generate(&mut store, &good_mint(), &addr(2), &addr(1), info), Ok(()));
    if !is_mutable {
        // Freeze the record for the immutability tests.
        let rec = store.metadata.as_mut().unwrap();
        rec.is_mutable = false;
    }
    store
}

fn wallet_descriptor() -> AuthorityDescriptor {
    AuthorityDescriptor { owner: addr(0), executable: false }
}

#[test]
fn update_uri_changes_only_the_uri() {
    let mut store = stored_record(true);
    let bytes = encode_record(store.metadata.as_ref().unwrap());
    let prepared =
        update_uri(&bytes, &wallet_descriptor(), &addr(0), b"https://x/2.json".to_vec()).unwrap();
    assert_eq!(store.update_metadata(&addr(1), prepared.args), Ok(()));
    let rec = store.metadata.as_ref().unwrap();
    assert_eq!(rec.data.uri, b"https://x/2.json".to_vec());
    // Every other part is byte-identical: rewriting the old uri back yields
    // the original encoding.
    let mut back = store.dup();
    back.metadata.as_mut().unwrap().data.uri = b"https://x/1.json".to_vec();
    assert_eq!(encode_record(back.metadata.as_ref().unwrap()), bytes);
}

#[test]
fn update_uri_rejects_foreign_buffer() {
    let store = stored_record(true);
    let mut bytes = encode_record(store.metadata.as_ref().unwrap());
    bytes[0] = 3;
    let r = update_uri(&bytes, &wallet_descriptor(), &addr(0), b"x".to_vec());
    assert!(matches!(r, Err(WrapError::RecordTypeMismatch)));
}

#[test]
fn updates_against_frozen_record_fail_and_change_nothing() {
    let mut store = stored_record(false);
    let before = encode_record(store.metadata.as_ref().unwrap());
    let bytes = before.clone();
    let prepared =
        update_uri(&bytes, &wallet_descriptor(), &addr(0), b"https://x/2.json".to_vec()).unwrap();
    assert_eq!(store.update_metadata(&addr(1), prepared.args), Err(ServiceError::Immutable));
    assert_eq!(encode_record(store.metadata.as_ref().unwrap()), before);
    let finalize = update_for_primary_sale(&addr(1), None, &wallet_descriptor(), &addr(0));
    assert_eq!(store.update_metadata(&addr(1), finalize.args), Err(ServiceError::Immutable));
    assert_eq!(encode_record(store.metadata.as_ref().unwrap()), before);
}

#[test]
fn update_rejects_wrong_authority() {
    let mut store = stored_record(true);
    let before = encode_record(store.metadata.as_ref().unwrap());
    let finalize = update_for_primary_sale(&addr(9), None, &wallet_descriptor(), &addr(0));
    assert_eq!(
        store.update_metadata(&addr(9), finalize.args),
        Err(ServiceError::UpdateAuthorityMismatch)
    );
    assert_eq!(encode_record(store.metadata.as_ref().unwrap()), before);
}

#[test]
fn update_on_empty_store_reports_missing_record() {
    let mut store = RecordStore::new();
    let finalize = update_for_primary_sale(&addr(1), None, &wallet_descriptor(), &addr(0));
    assert_eq!(store.update_metadata(&addr(1), finalize.args), Err(ServiceError::MetadataMissing));
}

#[test]
fn edition_cannot_be_created_twice() {
    let mut store = RecordStore::new();
    assert_eq!(generate(&mut store, &good_mint(), &addr(2), &addr(1), request(Some(3))), Ok(()));
    assert_eq!(store.edition, Some(MasterEditionRecord { max_supply: Some(3) }));
    assert_eq!(store.create_master_edition(Some(4)), Err(ServiceError::EditionAlreadyExists));
    assert_eq!(store.edition, Some(MasterEditionRecord { max_supply: Some(3) }));
}

#[test]
fn edition_requires_metadata_first() {
    let mut store = RecordStore::new();
    assert_eq!(store.create_master_edition(Some(1)), Err(ServiceError::MetadataMissing));
}

#[test]
fn countersign_marks_first_unverified_entry_only() {
    let mut store = RecordStore::new();
    let mut info = request(None);
    info.creators = Some(vec![
        Creator { address: addr(3), verified: false, share: 50 },
        Creator { address: addr(4), verified: false, share: 25 },
        Creator { address: addr(4), verified: false, share: 25 },
    ]);
    assert_eq!(generate(&mut store, &good_mint(), &addr(2), &addr(1), info), Ok(()));
    assert_eq!(store.sign_metadata(&addr(4)), Ok(()));
    let cs = store.metadata.as_ref().unwrap().data.creators.as_ref().unwrap();
    assert!(!cs[0].verified);
    assert!(cs[1].verified);
    assert!(!cs[2].verified);
    assert_eq!(cs[1].share, 25);
}

#[test]
fn countersign_rejects_unlisted_creator() {
    let mut store = stored_record(true);
    assert_eq!(store.sign_metadata(&addr(9)), Err(ServiceError::CreatorNotListed));
}

#[test]
fn countersign_rejects_already_verified_creator() {
    let mut store = stored_record(true);
    assert_eq!(store.sign_metadata(&addr(3)), Ok(()));
    assert_eq!(store.sign_metadata(&addr(3)), Err(ServiceError::CreatorNotListed));
}

#[test]
fn update_data_replaces_fields_wholesale() {
    let mut store = stored_record(true);
    let replacement = UpdateMetadataInfo {
        name: b"Other".to_vec(),
        symbol: b"OTH".to_vec(),
        uri: b"https://y/9.json".to_vec(),
        seller_fee_basis_points: 250,
        creators: None,
        collection: None,
        uses: None,
    };
    let prepared = update_data(replacement, &wallet_descriptor(), &addr(0));
    assert_eq!(store.update_metadata(&addr(1), prepared.args), Ok(()));
    let rec = store.metadata.as_ref().unwrap();
    assert_eq!(rec.data.name, b"Other".to_vec());
    assert_eq!(rec.data.symbol, b"OTH".to_vec());
    assert_eq!(rec.data.uri, b"https://y/9.json".to_vec());
    assert_eq!(rec.data.seller_fee_basis_points, 250);
    assert!(rec.data.creators.is_none());
    // No merge against the old record: the creator list is gone.
    assert!(rec.primary_sale_happened);
    assert_eq!(rec.update_authority.bytes, vec![1u8; 32]);
}

#[test]
fn finalize_update_rotates_authority() {
    let mut store = stored_record(true);
    let prepared =
        update_for_primary_sale(&addr(1), Some(addr(6)), &wallet_descriptor(), &addr(0));
    assert_eq!(store.update_metadata(&addr(1), prepared.args), Ok(()));
    let rec = store.metadata.as_ref().unwrap();
    assert_eq!(rec.update_authority.bytes, vec![6u8; 32]);
    assert!(rec.primary_sale_happened);
    // The old authority no longer passes.
    let again = update_for_primary_sale(&addr(1), None, &wallet_descriptor(), &addr(0));
    assert_eq!(
        store.update_metadata(&addr(1), again.args),
        Err(ServiceError::UpdateAuthorityMismatch)
    );
}

#[test]
fn update_rejects_oversized_replacement_fields() {
    let mut store = stored_record(true);
    let before = encode_record(store.metadata.as_ref().unwrap());
    let replacement = UpdateMetadataInfo {
        name: vec![b'n'; 33],
        symbol: b"OTH".to_vec(),
        uri: b"u".to_vec(),
        seller_fee_basis_points: 0,
        creators: None,
        collection: None,
        uses: None,
    };
    let prepared = update_data(replacement, &wallet_descriptor(), &addr(0));
    assert_eq!(store.update_metadata(&addr(1), prepared.args), Err(ServiceError::DataInvalid));
    assert_eq!(encode_record(store.metadata.as_ref().unwrap()), before);
}

#[test]
fn uses_survive_the_whole_flow() {
    let mut store = RecordStore::new();
    let mut info = request(None);
    info.uses = Some(Uses { use_method: UseMethod::Burn, remaining: 4, total: 4 });
    assert_eq!(generate(&mut store, &good_mint(), &addr(2), &addr(1), info), Ok(()));
    assert_eq!(
        store.metadata.as_ref().unwrap().data.uses,
        Some(Uses { use_method: UseMethod::Burn, remaining: 4, total: 4 })
    );
}
