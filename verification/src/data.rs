use vstd::prelude::*;
use vstd::slice::slice_to_vec;
use crate::address::{Address, ADDRESS_LEN};

verus! {

/// Maximum byte length of a record's name field.
pub const MAX_NAME_LEN: usize = 32;

/// Maximum byte length of a record's symbol field.
pub const MAX_SYMBOL_LEN: usize = 10;

/// Maximum byte length of a record's uri field.
pub const MAX_URI_LEN: usize = 200;

/// Maximum number of creators a record may list.
pub const MAX_CREATOR_COUNT: usize = 5;

/// Upper bound of the royalty fee, in basis points.
pub const MAX_FEE_BASIS_POINTS: u16 = 10000;

/// How usage of the asset is metered when a usage-limit record is present.
#[derive(Clone, Copy, Debug, PartialEq, Eq, Structural)]
pub enum UseMethod {
    Burn,
    Multiple,
    Single,
}

impl Default for UseMethod {
    /// The documented default when no method is chosen.
    fn default() -> (r: Self)
        ensures
            r == UseMethod::Single,
    {
        UseMethod::Single
    }
}

/// A usage-limit record: how often the asset may still be used.
#[derive(Clone, Copy, Debug, PartialEq, Eq, Structural)]
pub struct Uses {
    pub use_method: UseMethod,
    pub remaining: u64,
    pub total: u64,
}

/// A reference to the collection an asset belongs to.
pub struct Collection {
    pub verified: bool,
    pub key: Address,
}

/// Mathematical view of a [`Collection`].
pub ghost struct CollectionV {
    pub verified: bool,
    pub key: Seq<u8>,
}

impl View for Collection {
    type V = CollectionV;

    open spec fn view(&self) -> CollectionV {
        CollectionV { verified: self.verified, key: self.key@ }
    }
}

/// One entry of a record's creator list. The share is a percentage, not
/// basis points.
pub struct Creator {
    pub address: Address,
    pub verified: bool,
    pub share: u8,
}

/// Mathematical view of a [`Creator`].
pub ghost struct CreatorV {
    pub address: Seq<u8>,
    pub verified: bool,
    pub share: u8,
}

impl View for Creator {
    type V = CreatorV;

    open spec fn view(&self) -> CreatorV {
        CreatorV { address: self.address@, verified: self.verified, share: self.share }
    }
}

/// View of an optional creator list.
pub open spec fn view_creators(c: Option<Vec<Creator>>) -> Option<Seq<CreatorV>> {
    match c {
        Some(v) => Some(v@.map_values(|x: Creator| x@)),
        None => None,
    }
}

/// View of an optional collection reference.
pub open spec fn view_collection(c: Option<Collection>) -> Option<CollectionV> {
    match c {
        Some(v) => Some(v@),
        None => None,
    }
}

/// The descriptive fields of a metadata record, in the shape the external
/// record service expects.
pub struct DataV2 {
    /// The name of the asset.
    pub name: Vec<u8>,
    /// The symbol for the asset.
    pub symbol: Vec<u8>,
    /// URI pointing to a document describing the asset.
    pub uri: Vec<u8>,
    /// Royalty basis points paid to creators in secondary sales (0-10000).
    pub seller_fee_basis_points: u16,
    /// Ordered list of creators, optional.
    pub creators: Option<Vec<Creator>>,
    /// Collection reference, optional.
    pub collection: Option<Collection>,
    /// Usage-limit record, optional.
    pub uses: Option<Uses>,
}

/// Mathematical view of a [`DataV2`].
pub ghost struct DataV2V {
    pub name: Seq<u8>,
    pub symbol: Seq<u8>,
    pub uri: Seq<u8>,
    pub seller_fee_basis_points: u16,
    pub creators: Option<Seq<CreatorV>>,
    pub collection: Option<CollectionV>,
    pub uses: Option<Uses>,
}

impl View for DataV2 {
    type V = DataV2V;

    open spec fn view(&self) -> DataV2V {
        DataV2V {
            name: self.name@,
            symbol: self.symbol@,
            uri: self.uri@,
            seller_fee_basis_points: self.seller_fee_basis_points,
            creators: view_creators(self.creators),
            collection: view_collection(self.collection),
            uses: self.uses,
        }
    }
}

/// Everything a caller supplies to the composite generation operation.
pub struct MetadataInfo {
    pub name: Vec<u8>,
    pub symbol: Vec<u8>,
    pub uri: Vec<u8>,
    pub creators: Option<Vec<Creator>>,
    pub seller_fee_basis_points: u16,
    pub update_authority_is_signer: bool,
    pub is_mutable: bool,
    pub collection: Option<Collection>,
    pub uses: Option<Uses>,
    /// Present iff a bounded-supply edition record should be created.
    pub supply: Option<u64>,
    /// Present iff the update authority should be rotated during finalize.
    pub new_update_authority: Option<Address>,
}

/// Mathematical view of a [`MetadataInfo`].
pub ghost struct MetadataInfoV {
    pub name: Seq<u8>,
    pub symbol: Seq<u8>,
    pub uri: Seq<u8>,
    pub creators: Option<Seq<CreatorV>>,
    pub seller_fee_basis_points: u16,
    pub update_authority_is_signer: bool,
    pub is_mutable: bool,
    pub collection: Option<CollectionV>,
    pub uses: Option<Uses>,
    pub supply: Option<u64>,
    pub new_update_authority: Option<Seq<u8>>,
}

impl View for MetadataInfo {
    type V = MetadataInfoV;

    open spec fn view(&self) -> MetadataInfoV {
        MetadataInfoV {
            name: self.name@,
            symbol: self.symbol@,
            uri: self.uri@,
            creators: view_creators(self.creators),
            seller_fee_basis_points: self.seller_fee_basis_points,
            update_authority_is_signer: self.update_authority_is_signer,
            is_mutable: self.is_mutable,
            collection: view_collection(self.collection),
            uses: self.uses,
            supply: self.supply,
            new_update_authority: match self.new_update_authority {
                Some(a) => Some(a@),
                None => None,
            },
        }
    }
}

/// A wholesale replacement of a record's descriptive fields.
pub struct UpdateMetadataInfo {
    pub name: Vec<u8>,
    pub symbol: Vec<u8>,
    pub uri: Vec<u8>,
    pub seller_fee_basis_points: u16,
    pub creators: Option<Vec<Creator>>,
    pub collection: Option<Collection>,
    pub uses: Option<Uses>,
}

/// Mathematical view of an [`UpdateMetadataInfo`].
pub ghost struct UpdateMetadataInfoV {
    pub name: Seq<u8>,
    pub symbol: Seq<u8>,
    pub uri: Seq<u8>,
    pub seller_fee_basis_points: u16,
    pub creators: Option<Seq<CreatorV>>,
    pub collection: Option<CollectionV>,
    pub uses: Option<Uses>,
}

impl View for UpdateMetadataInfo {
    type V = UpdateMetadataInfoV;

    open spec fn view(&self) -> UpdateMetadataInfoV {
        UpdateMetadataInfoV {
            name: self.name@,
            symbol: self.symbol@,
            uri: self.uri@,
            seller_fee_basis_points: self.seller_fee_basis_points,
            creators: view_creators(self.creators),
            collection: view_collection(self.collection),
            uses: self.uses,
        }
    }
}

/// A uri-only update request.
pub struct ModifyMetadataUriInfo {
    pub uri: Vec<u8>,
}

impl View for ModifyMetadataUriInfo {
    type V = Seq<u8>;

    open spec fn view(&self) -> Seq<u8> {
        self.uri@
    }
}

/// Sum of the shares of a creator list.
pub open spec fn sum_shares(cs: Seq<CreatorV>) -> int
    decreases cs.len(),
{
    if cs.len() == 0 {
        0
    } else {
        cs[0].share + sum_shares(cs.drop_first())
    }
}

/// Size bounds of the descriptive fields: what must hold for the record to
/// fit its fixed maximum encoded size.
pub open spec fn wf_sizes(d: DataV2V) -> bool {
    &&& d.name.len() <= MAX_NAME_LEN
    &&& d.symbol.len() <= MAX_SYMBOL_LEN
    &&& d.uri.len() <= MAX_URI_LEN
    &&& (d.creators matches Some(cs) ==> cs.len() <= MAX_CREATOR_COUNT && (forall|i: int|
        0 <= i < cs.len() ==> #[trigger] cs[i].address.len() == 32))
    &&& (d.collection matches Some(c) ==> c.key.len() == 32)
}

/// Full validity of the descriptive fields: the size bounds plus the field
/// invariants the external service enforces (fee range, creator shares
/// summing to one hundred when creators are present, remaining uses never
/// above the total).
pub open spec fn wf_data(d: DataV2V) -> bool {
    &&& wf_sizes(d)
    &&& d.seller_fee_basis_points <= MAX_FEE_BASIS_POINTS
    &&& (d.creators matches Some(cs) ==> sum_shares(cs) == 100)
    &&& (d.uses matches Some(u) ==> u.remaining <= u.total)
}

/// What the Field Normalizer produces: the caller-supplied descriptive
/// fields carried over field-for-field into the service shape.
pub open spec fn spec_normalize(i: MetadataInfoV) -> DataV2V {
    DataV2V {
        name: i.name,
        symbol: i.symbol,
        uri: i.uri,
        seller_fee_basis_points: i.seller_fee_basis_points,
        creators: i.creators,
        collection: i.collection,
        uses: i.uses,
    }
}

/// Maps a usage-metering method into the service's shape: a one-to-one
/// mapping with no default substitution.
pub fn to_mpl_use_method(use_method: &UseMethod) -> (r: UseMethod)
    ensures
        r == *use_method,
{
    match use_method {
        UseMethod::Burn => UseMethod::Burn,
        UseMethod::Multiple => UseMethod::Multiple,
        UseMethod::Single => UseMethod::Single,
    }
}

impl MetadataInfo {
    /// Passes the creator list through to the service shape, field for field
    /// and in order.
    pub fn to_mpl_creators(&self) -> (r: Option<Vec<Creator>>)
        ensures
            view_creators(r) == self@.creators,
    {
        match &self.creators {
            Some(creators) => {
                let mut mpl_creators: Vec<Creator> = Vec::new();
                let n = creators.len();
                let mut i: usize = 0;
                while i < n
                    invariant
                        i <= n,
                        n == creators@.len(),
                        mpl_creators@.len() == i,
                        forall|k: int| 0 <= k < i ==> #[trigger] mpl_creators@[k]@
                            == creators@[k]@,
                    decreases n - i,
                {
                    let c = &creators[i];
                    mpl_creators.push(
                        Creator {
                            address: c.address.dup(),
                            share: c.share,
                            verified: c.verified,
                        },
                    );
                    i += 1;
                }
                assert(mpl_creators@.map_values(|x: Creator| x@) =~= creators@.map_values(
                    |x: Creator| x@,
                ));
                Some(mpl_creators)
            },
            None => None,
        }
    }

    /// Passes the collection reference through to the service shape.
    pub fn to_mpl_collection(&self) -> (r: Option<Collection>)
        ensures
            view_collection(r) == self@.collection,
    {
        match &self.collection {
            Some(collection) => Some(
                Collection { key: collection.key.dup(), verified: collection.verified },
            ),
            None => None,
        }
    }

    /// Passes the usage-limit record through to the service shape.
    pub fn to_mpl_uses(&self) -> (r: Option<Uses>)
        ensures
            r == self@.uses,
    {
        match &self.uses {
            Some(uses) => Some(
                Uses {
                    use_method: to_mpl_use_method(&uses.use_method),
                    remaining: uses.remaining,
                    total: uses.total,
                },
            ),
            None => None,
        }
    }

    /// The Field Normalizer: converts the caller-supplied descriptive fields
    /// into the shape the external service expects. Pure and total; no
    /// cross-field validation happens here (that is the service's own rule,
    /// see [`wf_data`]).
    pub fn to_data_v2(&self) -> (r: DataV2)
        ensures
            r@ == spec_normalize(self@),
    {
        DataV2 {
            name: slice_to_vec(self.name.as_slice()),
            symbol: slice_to_vec(self.symbol.as_slice()),
            uri: slice_to_vec(self.uri.as_slice()),
            seller_fee_basis_points: self.seller_fee_basis_points,
            creators: self.to_mpl_creators(),
            collection: self.to_mpl_collection(),
            uses: self.to_mpl_uses(),
        }
    }
}

impl Creator {
    /// An independent copy of this creator entry.
    pub fn dup(&self) -> (r: Creator)
        ensures
            r@ == self@,
    {
        Creator { address: self.address.dup(), verified: self.verified, share: self.share }
    }
}

impl Collection {
    /// An independent copy of this collection reference.
    pub fn dup(&self) -> (r: Collection)
        ensures
            r@ == self@,
    {
        Collection { verified: self.verified, key: self.key.dup() }
    }
}

impl DataV2 {
    /// An independent copy of the descriptive fields.
    pub fn dup(&self) -> (r: DataV2)
        ensures
            r@ == self@,
    {
        let creators: Option<Vec<Creator>> = match &self.creators {
            Some(cs) => {
                let mut out: Vec<Creator> = Vec::new();
                let n = cs.len();
                let mut i: usize = 0;
                while i < n
                    invariant
                        i <= n,
                        n == cs@.len(),
                        out@.len() == i,
                        forall|k: int| 0 <= k < i ==> #[trigger] out@[k]@ == cs@[k]@,
                    decreases n - i,
                {
                    out.push(cs[i].dup());
                    i += 1;
                }
                assert(out@.map_values(|x: Creator| x@) =~= cs@.map_values(|x: Creator| x@));
                Some(out)
            },
            None => None,
        };
        DataV2 {
            name: slice_to_vec(self.name.as_slice()),
            symbol: slice_to_vec(self.symbol.as_slice()),
            uri: slice_to_vec(self.uri.as_slice()),
            seller_fee_basis_points: self.seller_fee_basis_points,
            creators,
            collection: match &self.collection {
                Some(c) => Some(c.dup()),
                None => None,
            },
            uses: self.uses,
        }
    }
}

/// Appending one creator adds its share to the sum.
proof fn lemma_sum_shares_snoc(cs: Seq<CreatorV>, c: CreatorV)
    ensures
        sum_shares(cs.push(c)) == sum_shares(cs) + c.share,
    decreases cs.len(),
{
    let p = cs.push(c);
    assert(p.len() == cs.len() + 1);
    if cs.len() == 0 {
        assert(p.drop_first() =~= Seq::<CreatorV>::empty());
        assert(p[0] == c);
        assert(sum_shares(p) == p[0].share + sum_shares(p.drop_first()));
        assert(sum_shares(p.drop_first()) == 0);
        assert(sum_shares(cs) == 0);
    } else {
        assert(p.drop_first() =~= cs.drop_first().push(c));
        lemma_sum_shares_snoc(cs.drop_first(), c);
        assert(p[0] == cs[0]);
        assert(sum_shares(p) == p[0].share + sum_shares(p.drop_first()));
        assert(sum_shares(cs) == cs[0].share + sum_shares(cs.drop_first()));
    }
}

/// Decides [`wf_data`]: whether descriptive fields are within every bound
/// and invariant the external service enforces.
pub fn data_is_valid(d: &DataV2) -> (ok: bool)
    ensures
        ok == wf_data(d@),
{
    if d.name.len() > MAX_NAME_LEN {
        return false;
    }
    if d.symbol.len() > MAX_SYMBOL_LEN {
        return false;
    }
    if d.uri.len() > MAX_URI_LEN {
        return false;
    }
    if d.seller_fee_basis_points > MAX_FEE_BASIS_POINTS {
        return false;
    }
    match &d.creators {
        Some(cs) => {
            let ghost csv = cs@.map_values(|x: Creator| x@);
            let n = cs.len();
            proof {
                assert(d@.creators matches Some(w) && w =~= csv);
                assert(d@.creators == Some(csv));
            }
            if n > MAX_CREATOR_COUNT {
                return false;
            }
            let mut sum: u32 = 0;
            let mut i: usize = 0;
            while i < n
                invariant
                    i <= n,
                    n <= MAX_CREATOR_COUNT,
                    n == cs@.len(),
                    csv == cs@.map_values(|x: Creator| x@),
                    csv.len() == n,
                    d@.creators == Some(csv),
                    sum == sum_shares(csv.take(i as int)),
                    sum <= 255 * i,
                    forall|k: int| 0 <= k < i ==> #[trigger] csv[k].address.len() == 32,
                decreases n - i,
            {
                if cs[i].address.bytes.len() != ADDRESS_LEN {
                    assert(csv[i as int].address.len() != 32);
                    return false;
                }
                proof {
                    assert(csv.take(i as int).push(csv[i as int]) =~= csv.take(i + 1));
                    lemma_sum_shares_snoc(csv.take(i as int), csv[i as int]);
                }
                sum = sum + cs[i].share as u32;
                i += 1;
            }
            assert(csv.take(n as int) =~= csv);
            if sum != 100 {
                return false;
            }
        },
        None => (),
    }
    match &d.collection {
        Some(c) => {
            if c.key.bytes.len() != ADDRESS_LEN {
                return false;
            }
        },
        None => (),
    }
    match &d.uses {
        Some(u) => {
            if u.remaining > u.total {
                return false;
            }
        },
        None => (),
    }
    true
}

/// Law: the Field Normalizer is a pure function of its input — the same
/// caller-supplied fields always normalize to the same service shape, so
/// applying it twice to the same input yields the same output.
pub proof fn lemma_normalize_deterministic(a: MetadataInfoV, b: MetadataInfoV)
    requires
        a == b,
    ensures
        spec_normalize(a) == spec_normalize(b),
{
}

} // verus!
