use vstd::prelude::*;
use crate::address::Address;
use crate::authority::{
    spec_classify, spec_mode_for, select_invocation_mode, AuthorityDescriptor, InvocationMode,
};
use crate::codec::{decode_checked, p_record, MetadataRecordV, MAX_METADATA_LEN, METADATA_TAG};
use crate::data::{spec_normalize, wf_data, DataV2, DataV2V, MetadataInfo, UpdateMetadataInfo,
    UpdateMetadataInfoV};
use crate::error::{Step, WrapError};
use crate::mint::{mint_ok, spec_mint_error, validate_mint, MintRecord};
use crate::service::{MasterEditionRecord, RecordStore, RecordStoreV, UpdateArgs};

verus! {

/// The ordered steps of a composite generation: metadata first, then the
/// edition record iff a target supply was given, finalize last.
pub open spec fn spec_plan(has_supply: bool) -> Seq<Step> {
    if has_supply {
        seq![Step::CreateMetadata, Step::CreateEdition, Step::Finalize]
    } else {
        seq![Step::CreateMetadata, Step::Finalize]
    }
}

/// Builds the ordered step list of the composite operation for a request.
pub fn plan(info: &MetadataInfo) -> (steps: Vec<Step>)
    ensures
        steps@ == spec_plan(info@.supply is Some),
{
    let mut steps: Vec<Step> = Vec::new();
    steps.push(Step::CreateMetadata);
    if info.supply.is_some() {
        steps.push(Step::CreateEdition);
    }
    steps.push(Step::Finalize);
    proof {
        assert(steps@ =~= spec_plan(info@.supply is Some));
    }
    steps
}

/// Law: composite ordering. Metadata creation always opens the plan and
/// finalize always closes it; the edition step stands strictly between the
/// two when a target supply was given, and never appears without one.
pub proof fn lemma_composite_ordering(has_supply: bool)
    ensures
        spec_plan(has_supply)[0] == Step::CreateMetadata,
        spec_plan(has_supply).last() == Step::Finalize,
        has_supply ==> spec_plan(has_supply) == seq![
            Step::CreateMetadata,
            Step::CreateEdition,
            Step::Finalize,
        ],
        !has_supply ==> (forall|i: int|
            0 <= i < spec_plan(has_supply).len() ==> spec_plan(has_supply)[i]
                != Step::CreateEdition),
{
}

/// Runs the composite generation operation against the record service:
/// validates the mint, normalizes the caller's fields, creates the metadata
/// record, creates the edition record iff a target supply was given, then
/// finalizes — marking the primary sale as happened and rotating the update
/// authority where a new one was supplied (otherwise resubmitting the
/// designated one). The first failure aborts the whole operation, and no
/// step's effect survives an abort.
pub fn generate(
    store: &mut RecordStore,
    mint: &MintRecord,
    mint_key: &Address,
    update_authority: &Address,
    info: MetadataInfo,
) -> (r: Result<(), WrapError>)
    ensures
        r is Err ==> final(store)@ == old(store)@,
        r is Ok <==> (mint_ok(mint, update_authority@) && old(store)@.metadata is None
            && wf_data(spec_normalize(info@)) && info@.is_mutable && (info@.supply is Some
            ==> old(store)@.edition is None)),
        !mint_ok(mint, update_authority@) ==> r == Err::<(), WrapError>(
            spec_mint_error(mint, update_authority@),
        ),
        mint_ok(mint, update_authority@) && old(store)@.metadata is Some ==> r == Err::<
            (),
            WrapError,
        >(
            WrapError::ExternalServiceError(
                Step::CreateMetadata,
                crate::error::ServiceError::MetadataAlreadyExists,
            ),
        ),
        mint_ok(mint, update_authority@) && old(store)@.metadata is None && !wf_data(
            spec_normalize(info@),
        ) ==> r == Err::<(), WrapError>(
            WrapError::ExternalServiceError(
                Step::CreateMetadata,
                crate::error::ServiceError::DataInvalid,
            ),
        ),
        mint_ok(mint, update_authority@) && old(store)@.metadata is None && wf_data(
            spec_normalize(info@),
        ) && info@.supply is Some && old(store)@.edition is Some ==> r == Err::<
            (),
            WrapError,
        >(
            WrapError::ExternalServiceError(
                Step::CreateEdition,
                crate::error::ServiceError::EditionAlreadyExists,
            ),
        ),
        mint_ok(mint, update_authority@) && old(store)@.metadata is None && wf_data(
            spec_normalize(info@),
        ) && (info@.supply is Some ==> old(store)@.edition is None) && !info@.is_mutable ==> r
            == Err::<(), WrapError>(
            WrapError::ExternalServiceError(
                Step::Finalize,
                crate::error::ServiceError::Immutable,
            ),
        ),
        r is Ok ==> final(store)@ == (RecordStoreV {
            metadata: Some(
                MetadataRecordV {
                    tag: METADATA_TAG,
                    update_authority: (match info@.new_update_authority {
                        Some(a) => a,
                        None => update_authority@,
                    }),
                    mint: mint_key@,
                    data: spec_normalize(info@),
                    primary_sale_happened: true,
                    is_mutable: info@.is_mutable,
                },
            ),
            edition: (match info@.supply {
                Some(s) => Some(MasterEditionRecord { max_supply: Some(s) }),
                None => old(store)@.edition,
            }),
        }),
{
    match validate_mint(mint, update_authority) {
        Err(e) => {
            return Err(e);
        },
        Ok(()) => (),
    }
    let data = info.to_data_v2();
    let mut work = store.dup();
    match work.create_metadata(mint_key, update_authority, data, info.is_mutable) {
        Err(e) => {
            return Err(WrapError::ExternalServiceError(Step::CreateMetadata, e));
        },
        Ok(()) => (),
    }
    match info.supply {
        Some(supply) => {
            match work.create_master_edition(Some(supply)) {
                Err(e) => {
                    return Err(WrapError::ExternalServiceError(Step::CreateEdition, e));
                },
                Ok(()) => (),
            }
        },
        None => (),
    }
    let new_authority: Address = match &info.new_update_authority {
        Some(a) => a.dup(),
        None => update_authority.dup(),
    };
    let finalize_args = UpdateArgs {
        new_update_authority: Some(new_authority),
        new_data: None,
        primary_sale_happened: Some(true),
    };
    match work.update_metadata(update_authority, finalize_args) {
        Err(e) => {
            return Err(WrapError::ExternalServiceError(Step::Finalize, e));
        },
        Ok(()) => (),
    }
    *store = work;
    Ok(())
}

/// What an update call carries to the external service: the resolved
/// invocation mode and the update arguments.
pub struct PreparedUpdate {
    pub mode: InvocationMode,
    pub args: UpdateArgs,
}

/// The service-shaped fields of a wholesale replacement request, carried
/// over field for field.
pub open spec fn spec_data_of_update(u: UpdateMetadataInfoV) -> DataV2V {
    DataV2V {
        name: u.name,
        symbol: u.symbol,
        uri: u.uri,
        seller_fee_basis_points: u.seller_fee_basis_points,
        creators: u.creators,
        collection: u.collection,
        uses: u.uses,
    }
}

/// Prepares a uri-only update: decodes the current record buffer in checked
/// mode, keeps every other descriptive field exactly as decoded, and
/// replaces only the uri. The invocation mode is resolved afresh from the
/// authority descriptor.
pub fn update_uri(
    current: &Vec<u8>,
    authority: &AuthorityDescriptor,
    base_owner: &Address,
    uri: Vec<u8>,
) -> (r: Result<PreparedUpdate, WrapError>)
    ensures
        r is Ok <==> (current@.len() <= MAX_METADATA_LEN && (p_record(current@) matches Some(
            (v, end),
        ) && v.tag == METADATA_TAG)),
        current@.len() > MAX_METADATA_LEN <==> r == Err::<PreparedUpdate, WrapError>(
            WrapError::RecordTooLarge,
        ),
        r is Err ==> (r == Err::<PreparedUpdate, WrapError>(WrapError::RecordTooLarge) || r
            == Err::<PreparedUpdate, WrapError>(WrapError::RecordTypeMismatch)),
        r matches Ok(p) ==> (p_record(current@) matches Some((v, end)) && {
            &&& p.mode == spec_mode_for(spec_classify(authority@, base_owner@))
            &&& p.args@.new_update_authority is None
            &&& p.args@.primary_sale_happened is None
            &&& p.args@.new_data == Some((DataV2V { uri: uri@, ..v.data }))
        }),
{
    let rec = match decode_checked(current) {
        Ok(rec) => rec,
        Err(e) => {
            return Err(e);
        },
    };
    let mode = select_invocation_mode(authority, base_owner);
    let data = rec.data;
    let new_data = DataV2 {
        name: data.name,
        symbol: data.symbol,
        uri,
        seller_fee_basis_points: data.seller_fee_basis_points,
        creators: data.creators,
        collection: data.collection,
        uses: data.uses,
    };
    Ok(
        PreparedUpdate {
            mode,
            args: UpdateArgs {
                new_update_authority: None,
                new_data: Some(new_data),
                primary_sale_happened: None,
            },
        },
    )
}

/// Prepares a wholesale update: the caller-supplied fields replace the
/// record's descriptive fields with no merge against the existing record.
/// Pure and total.
pub fn update_data(
    data: UpdateMetadataInfo,
    authority: &AuthorityDescriptor,
    base_owner: &Address,
) -> (r: PreparedUpdate)
    ensures
        r.mode == spec_mode_for(spec_classify(authority@, base_owner@)),
        (r.args@.new_update_authority is None),
        (r.args@.primary_sale_happened is None),
        r.args@.new_data == Some(spec_data_of_update(data@)),
{
    let mode = select_invocation_mode(authority, base_owner);
    let new_data = DataV2 {
        name: data.name,
        symbol: data.symbol,
        uri: data.uri,
        seller_fee_basis_points: data.seller_fee_basis_points,
        creators: data.creators,
        collection: data.collection,
        uses: data.uses,
    };
    PreparedUpdate {
        mode,
        args: UpdateArgs {
            new_update_authority: None,
            new_data: Some(new_data),
            primary_sale_happened: None,
        },
    }
}

/// Prepares the finalize update: marks the primary sale as happened and
/// resubmits the update authority — the new one where supplied, else the
/// current one unchanged. Touches no descriptive field.
pub fn update_for_primary_sale(
    current_authority: &Address,
    new_update_authority: Option<Address>,
    authority: &AuthorityDescriptor,
    base_owner: &Address,
) -> (r: PreparedUpdate)
    ensures
        r.mode == spec_mode_for(spec_classify(authority@, base_owner@)),
        (r.args@.new_data is None),
        r.args@.primary_sale_happened == Some(true),
        r.args@.new_update_authority == Some(
            (match new_update_authority {
                Some(a) => a@,
                None => current_authority@,
            }),
        ),
{
    let mode = select_invocation_mode(authority, base_owner);
    let chosen: Address = match new_update_authority {
        Some(a) => a,
        None => current_authority.dup(),
    };
    PreparedUpdate {
        mode,
        args: UpdateArgs {
            new_update_authority: Some(chosen),
            new_data: None,
            primary_sale_happened: Some(true),
        },
    }
}

} // verus!
