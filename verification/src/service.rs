use vstd::prelude::*;
use crate::address::Address;
use crate::codec::{MetadataRecord, MetadataRecordV, METADATA_TAG};
use crate::data::{data_is_valid, wf_data, Creator, CreatorV, DataV2, DataV2V};
use crate::error::ServiceError;

verus! {

/// The bounded-supply edition record: exists only when the issuer capped
/// the print supply.
#[derive(Clone, Copy, Debug, PartialEq, Eq, Structural)]
pub struct MasterEditionRecord {
    pub max_supply: Option<u64>,
}

/// The arguments of one update call against the record service: each part
/// is applied only where present.
pub struct UpdateArgs {
    pub new_update_authority: Option<Address>,
    pub new_data: Option<DataV2>,
    pub primary_sale_happened: Option<bool>,
}

/// Mathematical view of [`UpdateArgs`].
pub ghost struct UpdateArgsV {
    pub new_update_authority: Option<Seq<u8>>,
    pub new_data: Option<DataV2V>,
    pub primary_sale_happened: Option<bool>,
}

impl View for UpdateArgs {
    type V = UpdateArgsV;

    open spec fn view(&self) -> UpdateArgsV {
        UpdateArgsV {
            new_update_authority: match self.new_update_authority {
                Some(a) => Some(a@),
                None => None,
            },
            new_data: match self.new_data {
                Some(d) => Some(d@),
                None => None,
            },
            primary_sale_happened: self.primary_sale_happened,
        }
    }
}

/// The record the service holds after an update call: each supplied part
/// replaces its field, everything else is carried over unchanged.
pub open spec fn spec_apply_update(rec: MetadataRecordV, args: UpdateArgsV) -> MetadataRecordV {
    MetadataRecordV {
        tag: rec.tag,
        mint: rec.mint,
        update_authority: match args.new_update_authority {
            Some(a) => a,
            None => rec.update_authority,
        },
        data: match args.new_data {
            Some(d) => d,
            None => rec.data,
        },
        primary_sale_happened: match args.primary_sale_happened {
            Some(p) => p,
            None => rec.primary_sale_happened,
        },
        is_mutable: rec.is_mutable,
    }
}

/// A model of the external record service's per-mint state: the metadata
/// record and the edition record it may hold, together with the service's
/// own acceptance rules. The orchestrator is verified against this model;
/// the real service is reached through the surrounding runtime.
pub struct RecordStore {
    pub metadata: Option<MetadataRecord>,
    pub edition: Option<MasterEditionRecord>,
}

/// Mathematical view of a [`RecordStore`].
pub ghost struct RecordStoreV {
    pub metadata: Option<MetadataRecordV>,
    pub edition: Option<MasterEditionRecord>,
}

impl View for RecordStore {
    type V = RecordStoreV;

    open spec fn view(&self) -> RecordStoreV {
        RecordStoreV {
            metadata: match self.metadata {
                Some(r) => Some(r@),
                None => None,
            },
            edition: self.edition,
        }
    }
}

impl RecordStore {
    /// An independent copy of this store's state.
    pub fn dup(&self) -> (r: RecordStore)
        ensures
            r@ == self@,
    {
        RecordStore {
            metadata: match &self.metadata {
                Some(rec) => Some(rec.dup()),
                None => None,
            },
            edition: self.edition,
        }
    }

    /// A store holding no records yet.
    pub fn new() -> (s: RecordStore)
        ensures
            (s@.metadata is None),
            (s@.edition is None),
    {
        RecordStore { metadata: None, edition: None }
    }

    /// Creates the metadata record for the mint. Fails iff a record already
    /// exists, or the descriptive fields break a bound or invariant; on
    /// failure nothing changes.
    pub fn create_metadata(
        &mut self,
        mint: &Address,
        update_authority: &Address,
        data: DataV2,
        is_mutable: bool,
    ) -> (r: Result<(), ServiceError>)
        ensures
            old(self)@.metadata is Some ==> r == Err::<(), ServiceError>(
                ServiceError::MetadataAlreadyExists,
            ),
            old(self)@.metadata is None && !wf_data(data@) ==> r == Err::<(), ServiceError>(
                ServiceError::DataInvalid,
            ),
            r is Ok <==> (old(self)@.metadata is None && wf_data(data@)),
            r is Err ==> final(self)@ == old(self)@,
            r is Ok ==> final(self)@ == (RecordStoreV {
                metadata: Some(
                    MetadataRecordV {
                        tag: METADATA_TAG,
                        update_authority: update_authority@,
                        mint: mint@,
                        data: data@,
                        primary_sale_happened: false,
                        is_mutable,
                    },
                ),
                edition: old(self)@.edition,
            }),
    {
        match &self.metadata {
            Some(_) => {
                return Err(ServiceError::MetadataAlreadyExists);
            },
            None => (),
        }
        if !data_is_valid(&data) {
            return Err(ServiceError::DataInvalid);
        }
        self.metadata = Some(
            MetadataRecord {
                tag: METADATA_TAG,
                update_authority: update_authority.dup(),
                mint: mint.dup(),
                data,
                primary_sale_happened: false,
                is_mutable,
            },
        );
        Ok(())
    }

    /// Creates the edition record. Fails iff no metadata record exists yet
    /// or an edition record already does; on failure nothing changes.
    pub fn create_master_edition(&mut self, max_supply: Option<u64>) -> (r: Result<
        (),
        ServiceError,
    >)
        ensures
            old(self)@.metadata is None ==> r == Err::<(), ServiceError>(
                ServiceError::MetadataMissing,
            ),
            old(self)@.metadata is Some && old(self)@.edition is Some ==> r == Err::<
                (),
                ServiceError,
            >(ServiceError::EditionAlreadyExists),
            r is Ok <==> (old(self)@.metadata is Some && old(self)@.edition is None),
            r is Err ==> final(self)@ == old(self)@,
            r is Ok ==> final(self)@ == (RecordStoreV {
                metadata: old(self)@.metadata,
                edition: Some(MasterEditionRecord { max_supply }),
            }),
    {
        match &self.metadata {
            None => {
                return Err(ServiceError::MetadataMissing);
            },
            Some(_) => (),
        }
        match &self.edition {
            Some(_) => {
                return Err(ServiceError::EditionAlreadyExists);
            },
            None => (),
        }
        self.edition = Some(MasterEditionRecord { max_supply });
        Ok(())
    }

    /// Applies an update call under the given authority. Fails iff no
    /// record exists, the record is frozen (`is_mutable` false), the
    /// authority does not match the record's update authority, or the
    /// replacement fields break a bound — checked in that order; on any
    /// failure the record is left unchanged.
    pub fn update_metadata(&mut self, authority: &Address, args: UpdateArgs) -> (r: Result<
        (),
        ServiceError,
    >)
        ensures
            old(self)@.metadata is None ==> r == Err::<(), ServiceError>(
                ServiceError::MetadataMissing,
            ),
            (old(self)@.metadata matches Some(rec) && !rec.is_mutable) ==> r == Err::<
                (),
                ServiceError,
            >(ServiceError::Immutable),
            (old(self)@.metadata matches Some(rec) && rec.is_mutable && rec.update_authority
                != authority@) ==> r == Err::<(), ServiceError>(
                ServiceError::UpdateAuthorityMismatch,
            ),
            (old(self)@.metadata matches Some(rec) && rec.is_mutable && rec.update_authority
                == authority@ && (args@.new_data matches Some(d) && !wf_data(d))) ==> r
                == Err::<(), ServiceError>(ServiceError::DataInvalid),
            r is Ok <==> (old(self)@.metadata matches Some(rec) && rec.is_mutable
                && rec.update_authority == authority@ && (args@.new_data matches Some(d)
                ==> wf_data(d))),
            r is Err ==> final(self)@ == old(self)@,
            r is Ok ==> (old(self)@.metadata matches Some(rec) && final(self)@ == (RecordStoreV {
                metadata: Some(spec_apply_update(rec, args@)),
                edition: old(self)@.edition,
            })),
    {
        let (is_mut, auth_ok) = match &self.metadata {
            None => {
                return Err(ServiceError::MetadataMissing);
            },
            Some(rec) => (rec.is_mutable, authority.addr_eq(&rec.update_authority)),
        };
        if !is_mut {
            return Err(ServiceError::Immutable);
        }
        if !auth_ok {
            return Err(ServiceError::UpdateAuthorityMismatch);
        }
        let data_ok = match &args.new_data {
            Some(d) => data_is_valid(d),
            None => true,
        };
        if !data_ok {
            return Err(ServiceError::DataInvalid);
        }
        match &mut self.metadata {
            Some(rec) => {
                match args.new_update_authority {
                    Some(a) => {
                        rec.update_authority = a;
                    },
                    None => (),
                }
                match args.new_data {
                    Some(d) => {
                        rec.data = d;
                    },
                    None => (),
                }
                match args.primary_sale_happened {
                    Some(p) => {
                        rec.primary_sale_happened = p;
                    },
                    None => (),
                }
            },
            None => (),
        }
        Ok(())
    }

    /// Lets a listed, still unverified creator countersign the record: the
    /// first creator entry holding the signer's address and not yet
    /// verified is marked verified; everything else stays as it was. Fails
    /// iff no record exists or no such entry does.
    pub fn sign_metadata(&mut self, creator: &Address) -> (r: Result<(), ServiceError>)
        ensures
            old(self)@.metadata is None ==> r == Err::<(), ServiceError>(
                ServiceError::MetadataMissing,
            ),
            r is Ok <==> (old(self)@.metadata matches Some(rec) && rec.data.creators matches Some(
                cs,
            ) && (exists|k: int|
                0 <= k < cs.len() && (#[trigger] cs[k]).address == creator@ && !cs[k].verified)),
            r is Err ==> final(self)@ == old(self)@,
            r is Ok ==> (old(self)@.metadata matches Some(rec) && rec.data.creators matches Some(
                cs,
            ) && (exists|k: int|
                {
                    &&& 0 <= k < cs.len()
                    &&& (#[trigger] cs[k]).address == creator@
                    &&& !cs[k].verified
                    &&& (forall|j: int|
                        0 <= j < k ==> !((#[trigger] cs[j]).address == creator@
                            && !cs[j].verified))
                    &&& final(self)@ == (RecordStoreV {
                        metadata: Some(
                            MetadataRecordV {
                                data: DataV2V {
                                    creators: Some(
                                        cs.update(
                                            k,
                                            CreatorV {
                                                address: cs[k].address,
                                                verified: true,
                                                share: cs[k].share,
                                            },
                                        ),
                                    ),
                                    ..rec.data
                                },
                                ..rec
                            },
                        ),
                        edition: old(self)@.edition,
                    })
                })),
    {
        let found: Option<usize> = match &self.metadata {
            None => {
                return Err(ServiceError::MetadataMissing);
            },
            Some(rec) => match &rec.data.creators {
                None => None,
                Some(cs) => {
                    let ghost csv = cs@.map_values(|x: Creator| x@);
                    proof {
                        assert(rec.data@.creators matches Some(w) && w =~= csv);
                        assert(rec.data@.creators == Some(csv));
                    }
                    let n = cs.len();
                    let mut i: usize = 0;
                    let mut found: Option<usize> = None;
                    while i < n
                        invariant
                            i <= n,
                            n == cs@.len(),
                            csv == cs@.map_values(|x: Creator| x@),
                            csv.len() == n,
                            found is None ==> forall|j: int|
                                0 <= j < i ==> !((#[trigger] csv[j]).address == creator@
                                    && !csv[j].verified),
                            found matches Some(f) ==> 0 <= f < n && csv[f as int].address
                                == creator@ && !csv[f as int].verified && (forall|j: int|
                                0 <= j < f ==> !((#[trigger] csv[j]).address == creator@
                                    && !csv[j].verified)),
                        decreases n - i,
                    {
                        if found.is_none() && !cs[i].verified && cs[i].address.addr_eq(creator) {
                            assert(csv[i as int].address == creator@ && !csv[i as int].verified);
                            found = Some(i);
                        }
                        i += 1;
                    }
                    found
                },
            },
        };
        match found {
            None => Err(ServiceError::CreatorNotListed),
            Some(k) => {
                match &mut self.metadata {
                    Some(rec) => {
                        match &mut rec.data.creators {
                            Some(cs) => {
                                let ghost csv = cs@.map_values(|x: Creator| x@);
                                let entry = Creator {
                                    address: cs[k].address.dup(),
                                    verified: true,
                                    share: cs[k].share,
                                };
                                let ghost entv = entry@;
                                let mut replaced: Vec<Creator> = Vec::new();
                                let n = cs.len();
                                let mut i: usize = 0;
                                while i < n
                                    invariant
                                        i <= n,
                                        k < n,
                                        n == cs@.len(),
                                        csv == cs@.map_values(|x: Creator| x@),
                                        csv.len() == n,
                                        entv == entry@,
                                        replaced@.len() == i,
                                        forall|j: int|
                                            0 <= j < i && j != k ==> #[trigger] replaced@[j]@
                                                == csv[j],
                                        i > k ==> replaced@[k as int]@ == entv,
                                    decreases n - i,
                                {
                                    if i == k {
                                        replaced.push(entry.dup());
                                    } else {
                                        replaced.push(cs[i].dup());
                                    }
                                    i += 1;
                                }
                                assert(replaced@.map_values(|x: Creator| x@) =~= csv.update(
                                    k as int,
                                    entv,
                                ));
                                *cs = replaced;
                            },
                            None => (),
                        }
                    },
                    None => (),
                }
                Ok(())
            },
        }
    }
}

} // verus!
