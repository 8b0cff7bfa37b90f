use vstd::prelude::*;
use vstd::bytes::*;
use vstd::slice::{slice_subrange, slice_to_vec};
use crate::address::Address;
use crate::data::{
    Collection, CollectionV, Creator, CreatorV, DataV2, DataV2V, UseMethod, Uses, wf_data,
    wf_sizes, MAX_CREATOR_COUNT, MAX_NAME_LEN, MAX_SYMBOL_LEN, MAX_URI_LEN,
};
use crate::error::WrapError;

verus! {

/// The discriminant tag that opens every metadata record.
pub const METADATA_TAG: u8 = 4;

/// The fixed allocation size of a metadata record in the external store;
/// no record buffer may be longer, and shorter buffers are padded.
pub const MAX_METADATA_LEN: usize = 679;

/// A typed in-memory view of the external service's binary metadata record.
pub struct MetadataRecord {
    /// The leading discriminant tag of the stored record.
    pub tag: u8,
    /// The identity permitted to mutate this record.
    pub update_authority: Address,
    /// The mint this record describes.
    pub mint: Address,
    /// The descriptive fields.
    pub data: DataV2,
    /// Whether the primary sale of the asset has happened.
    pub primary_sale_happened: bool,
    /// Once false, every later update of this record must fail.
    pub is_mutable: bool,
}

/// Mathematical view of a [`MetadataRecord`].
pub ghost struct MetadataRecordV {
    pub tag: u8,
    pub update_authority: Seq<u8>,
    pub mint: Seq<u8>,
    pub data: DataV2V,
    pub primary_sale_happened: bool,
    pub is_mutable: bool,
}

impl View for MetadataRecord {
    type V = MetadataRecordV;

    open spec fn view(&self) -> MetadataRecordV {
        MetadataRecordV {
            tag: self.tag,
            update_authority: self.update_authority@,
            mint: self.mint@,
            data: self.data@,
            primary_sale_happened: self.primary_sale_happened,
            is_mutable: self.is_mutable,
        }
    }
}

/// A well-formed metadata record: the expected discriminant, 32-byte
/// authorities, and descriptive fields within every bound the service
/// enforces.
pub open spec fn wf_record(r: MetadataRecordV) -> bool {
    &&& r.tag == METADATA_TAG
    &&& r.update_authority.len() == 32
    &&& r.mint.len() == 32
    &&& wf_data(r.data)
}

// ===================================================================
// The binary layout, stated as spec-level encoders.
// ===================================================================

/// A boolean as a single byte, one for true.
pub open spec fn enc_bool(b: bool) -> Seq<u8> {
    seq![if b { 1u8 } else { 0u8 }]
}

/// A byte string with its little-endian four-byte length prefix.
pub open spec fn enc_bytes(s: Seq<u8>) -> Seq<u8> {
    spec_u32_to_le_bytes(s.len() as u32) + s
}

/// One creator entry: address, verified flag, share.
pub open spec fn enc_creator(c: CreatorV) -> Seq<u8> {
    c.address + enc_bool(c.verified) + seq![c.share]
}

/// The creator entries, in order.
pub open spec fn enc_creator_list(cs: Seq<CreatorV>) -> Seq<u8>
    decreases cs.len(),
{
    if cs.len() == 0 {
        Seq::empty()
    } else {
        enc_creator(cs[0]) + enc_creator_list(cs.drop_first())
    }
}

/// The optional creator list: a presence byte, then the count and entries.
pub open spec fn enc_opt_creators(c: Option<Seq<CreatorV>>) -> Seq<u8> {
    match c {
        None => seq![0u8],
        Some(cs) => seq![1u8] + spec_u32_to_le_bytes(cs.len() as u32) + enc_creator_list(cs),
    }
}

/// A usage-metering method as a single byte.
pub open spec fn enc_use_method(m: UseMethod) -> Seq<u8> {
    match m {
        UseMethod::Burn => seq![0u8],
        UseMethod::Multiple => seq![1u8],
        UseMethod::Single => seq![2u8],
    }
}

/// The optional usage-limit record.
pub open spec fn enc_opt_uses(u: Option<Uses>) -> Seq<u8> {
    match u {
        None => seq![0u8],
        Some(us) => seq![1u8] + enc_use_method(us.use_method) + spec_u64_to_le_bytes(us.remaining)
            + spec_u64_to_le_bytes(us.total),
    }
}

/// The optional collection reference.
pub open spec fn enc_opt_collection(c: Option<CollectionV>) -> Seq<u8> {
    match c {
        None => seq![0u8],
        Some(cl) => seq![1u8] + enc_bool(cl.verified) + cl.key,
    }
}

/// The full record layout: tag, authorities, descriptive fields, flags,
/// collection and uses, in this order.
pub open spec fn enc_record(r: MetadataRecordV) -> Seq<u8> {
    seq![r.tag] + r.update_authority + r.mint + enc_bytes(r.data.name) + enc_bytes(r.data.symbol)
        + enc_bytes(r.data.uri) + spec_u16_to_le_bytes(r.data.seller_fee_basis_points)
        + enc_opt_creators(r.data.creators) + enc_bool(r.primary_sale_happened) + enc_bool(
        r.is_mutable,
    ) + enc_opt_collection(r.data.collection) + enc_opt_uses(r.data.uses)
}

// ===================================================================
// The parse of that layout, stated as spec-level readers. Each reader
// takes the buffer and a position and yields the value read and the
// position after it, or nothing if the buffer is too short or holds a
// byte the layout does not allow there.
// ===================================================================

pub open spec fn p_u8(b: Seq<u8>, i: int) -> Option<(u8, int)> {
    if 0 <= i && i + 1 <= b.len() {
        Some((b[i], i + 1))
    } else {
        None
    }
}

pub open spec fn p_fixed(b: Seq<u8>, i: int, n: int) -> Option<(Seq<u8>, int)> {
    if 0 <= i && 0 <= n && i + n <= b.len() {
        Some((b.subrange(i, i + n), i + n))
    } else {
        None
    }
}

pub open spec fn p_u16(b: Seq<u8>, i: int) -> Option<(u16, int)> {
    match p_fixed(b, i, 2) {
        Some((s, j)) => Some((spec_u16_from_le_bytes(s), j)),
        None => None,
    }
}

pub open spec fn p_u32(b: Seq<u8>, i: int) -> Option<(u32, int)> {
    match p_fixed(b, i, 4) {
        Some((s, j)) => Some((spec_u32_from_le_bytes(s), j)),
        None => None,
    }
}

pub open spec fn p_u64(b: Seq<u8>, i: int) -> Option<(u64, int)> {
    match p_fixed(b, i, 8) {
        Some((s, j)) => Some((spec_u64_from_le_bytes(s), j)),
        None => None,
    }
}

pub open spec fn p_bool(b: Seq<u8>, i: int) -> Option<(bool, int)> {
    match p_u8(b, i) {
        Some((0u8, j)) => Some((false, j)),
        Some((1u8, j)) => Some((true, j)),
        _ => None,
    }
}

/// A length-prefixed byte string.
pub open spec fn p_vbytes(b: Seq<u8>, i: int) -> Option<(Seq<u8>, int)> {
    match p_u32(b, i) {
        Some((n, j)) => p_fixed(b, j, n as int),
        None => None,
    }
}

pub open spec fn p_creator(b: Seq<u8>, i: int) -> Option<(CreatorV, int)> {
    match p_fixed(b, i, 32) {
        Some((addr, j)) => match p_bool(b, j) {
            Some((v, k)) => match p_u8(b, k) {
                Some((s, l)) => Some((CreatorV { address: addr, verified: v, share: s }, l)),
                None => None,
            },
            None => None,
        },
        None => None,
    }
}

pub open spec fn p_creator_list(b: Seq<u8>, i: int, n: nat) -> Option<(Seq<CreatorV>, int)>
    decreases n,
{
    if n == 0 {
        Some((Seq::empty(), i))
    } else {
        match p_creator(b, i) {
            Some((c, j)) => match p_creator_list(b, j, (n - 1) as nat) {
                Some((cs, k)) => Some((seq![c] + cs, k)),
                None => None,
            },
            None => None,
        }
    }
}

pub open spec fn p_opt_creators(b: Seq<u8>, i: int) -> Option<(Option<Seq<CreatorV>>, int)> {
    match p_u8(b, i) {
        Some((0u8, j)) => Some((None, j)),
        Some((1u8, j)) => match p_u32(b, j) {
            Some((n, k)) => match p_creator_list(b, k, n as nat) {
                Some((cs, l)) => Some((Some(cs), l)),
                None => None,
            },
            None => None,
        },
        _ => None,
    }
}

pub open spec fn p_use_method(b: Seq<u8>, i: int) -> Option<(UseMethod, int)> {
    match p_u8(b, i) {
        Some((0u8, j)) => Some((UseMethod::Burn, j)),
        Some((1u8, j)) => Some((UseMethod::Multiple, j)),
        Some((2u8, j)) => Some((UseMethod::Single, j)),
        _ => None,
    }
}

pub open spec fn p_opt_uses(b: Seq<u8>, i: int) -> Option<(Option<Uses>, int)> {
    match p_u8(b, i) {
        Some((0u8, j)) => Some((None, j)),
        Some((1u8, j)) => match p_use_method(b, j) {
            Some((m, k)) => match p_u64(b, k) {
                Some((rem, l)) => match p_u64(b, l) {
                    Some((tot, e)) => Some(
                        (Some(Uses { use_method: m, remaining: rem, total: tot }), e),
                    ),
                    None => None,
                },
                None => None,
            },
            None => None,
        },
        _ => None,
    }
}

pub open spec fn p_opt_collection(b: Seq<u8>, i: int) -> Option<(Option<CollectionV>, int)> {
    match p_u8(b, i) {
        Some((0u8, j)) => Some((None, j)),
        Some((1u8, j)) => match p_bool(b, j) {
            Some((v, k)) => match p_fixed(b, k, 32) {
                Some((key, l)) => Some((Some(CollectionV { verified: v, key }), l)),
                None => None,
            },
            None => None,
        },
        _ => None,
    }
}

/// The name, symbol, uri, fee and creator list, read in layout order.
pub open spec fn p_data_head(b: Seq<u8>, i: int) -> Option<
    ((Seq<u8>, Seq<u8>, Seq<u8>, u16, Option<Seq<CreatorV>>), int),
> {
    match p_vbytes(b, i) {
        Some((name, j)) => match p_vbytes(b, j) {
            Some((symbol, k)) => match p_vbytes(b, k) {
                Some((uri, l)) => match p_u16(b, l) {
                    Some((fee, m)) => match p_opt_creators(b, m) {
                        Some((cs, e)) => Some(((name, symbol, uri, fee, cs), e)),
                        None => None,
                    },
                    None => None,
                },
                None => None,
            },
            None => None,
        },
        None => None,
    }
}

/// The whole record, read from the start of the buffer. Trailing bytes
/// (the store's padding) are ignored; the position after the record is
/// returned with it.
pub open spec fn p_record(b: Seq<u8>) -> Option<(MetadataRecordV, int)> {
    match p_u8(b, 0) {
        Some((tag, i1)) => match p_fixed(b, i1, 32) {
            Some((ua, i2)) => match p_fixed(b, i2, 32) {
                Some((mint, i3)) => match p_data_head(b, i3) {
                    Some(((name, symbol, uri, fee, creators), i4)) => match p_bool(b, i4) {
                        Some((ps, i5)) => match p_bool(b, i5) {
                            Some((im, i6)) => match p_opt_collection(b, i6) {
                                Some((coll, i7)) => match p_opt_uses(b, i7) {
                                    Some((uses, i8)) => Some(
                                        (
                                            MetadataRecordV {
                                                tag,
                                                update_authority: ua,
                                                mint,
                                                data: DataV2V {
                                                    name,
                                                    symbol,
                                                    uri,
                                                    seller_fee_basis_points: fee,
                                                    creators,
                                                    collection: coll,
                                                    uses,
                                                },
                                                primary_sale_happened: ps,
                                                is_mutable: im,
                                            },
                                            i8,
                                        ),
                                    ),
                                    None => None,
                                },
                                None => None,
                            },
                            None => None,
                        },
                        None => None,
                    },
                    None => None,
                },
                None => None,
            },
            None => None,
        },
        None => None,
    }
}

// ===================================================================
// The executable encoder: builds exactly the layout stated above.
// ===================================================================

fn push_bool(out: &mut Vec<u8>, b: bool)
    ensures
        final(out)@ == old(out)@ + enc_bool(b),
{
    if b {
        out.push(1u8);
    } else {
        out.push(0u8);
    }
    assert(out@ =~= old(out)@ + enc_bool(b));
}

fn push_u16(out: &mut Vec<u8>, x: u16)
    ensures
        final(out)@ == old(out)@ + spec_u16_to_le_bytes(x),
{
    let mut bs = u16_to_le_bytes(x);
    out.append(&mut bs);
}

fn push_u32(out: &mut Vec<u8>, x: u32)
    ensures
        final(out)@ == old(out)@ + spec_u32_to_le_bytes(x),
{
    let mut bs = u32_to_le_bytes(x);
    out.append(&mut bs);
}

fn push_u64(out: &mut Vec<u8>, x: u64)
    ensures
        final(out)@ == old(out)@ + spec_u64_to_le_bytes(x),
{
    let mut bs = u64_to_le_bytes(x);
    out.append(&mut bs);
}

fn push_raw(out: &mut Vec<u8>, s: &Vec<u8>)
    ensures
        final(out)@ == old(out)@ + s@,
{
    let mut bs = slice_to_vec(s.as_slice());
    out.append(&mut bs);
}

fn push_bytes_field(out: &mut Vec<u8>, s: &Vec<u8>)
    requires
        s@.len() <= u32::MAX,
    ensures
        final(out)@ == old(out)@ + enc_bytes(s@),
{
    push_u32(out, s.len() as u32);
    push_raw(out, s);
    assert(out@ =~= old(out)@ + enc_bytes(s@));
}

fn push_creator(out: &mut Vec<u8>, c: &Creator)
    ensures
        final(out)@ == old(out)@ + enc_creator(c@),
{
    push_raw(out, &c.address.bytes);
    push_bool(out, c.verified);
    out.push(c.share);
    assert(out@ =~= old(out)@ + enc_creator(c@));
}

fn push_opt_creators(out: &mut Vec<u8>, c: &Option<Vec<Creator>>)
    requires
        (c matches Some(cs) ==> cs@.len() <= u32::MAX),
    ensures
        final(out)@ == old(out)@ + enc_opt_creators(crate::data::view_creators(*c)),
{
    match c {
        None => {
            out.push(0u8);
            assert(out@ =~= old(out)@ + enc_opt_creators(None));
        },
        Some(cs) => {
            out.push(1u8);
            push_u32(out, cs.len() as u32);
            let ghost csv = cs@.map_values(|x: Creator| x@);
            let ghost mid = out@;
            let n = cs.len();
            let mut i: usize = 0;
            while i < n
                invariant
                    i <= n,
                    n == cs@.len(),
                    csv == cs@.map_values(|x: Creator| x@),
                    csv.len() == n,
                    out@ == mid + enc_creator_list(csv.take(i as int)),
                decreases n - i,
            {
                proof {
                    assert(csv.take(i as int).push(csv[i as int]) =~= csv.take(i + 1));
                    lemma_enc_creator_list_snoc(csv.take(i as int), csv[i as int]);
                }
                push_creator(out, &cs[i]);
                assert(cs@[i as int]@ == csv[i as int]);
                i += 1;
            }
            assert(csv.take(n as int) =~= csv);
            assert(out@ =~= old(out)@ + enc_opt_creators(Some(csv)));
        },
    }
}

fn push_opt_collection(out: &mut Vec<u8>, c: &Option<Collection>)
    ensures
        final(out)@ == old(out)@ + enc_opt_collection(crate::data::view_collection(*c)),
{
    match c {
        None => {
            out.push(0u8);
            assert(out@ =~= old(out)@ + enc_opt_collection(None));
        },
        Some(cl) => {
            out.push(1u8);
            push_bool(out, cl.verified);
            push_raw(out, &cl.key.bytes);
            assert(out@ =~= old(out)@ + enc_opt_collection(Some(cl@)));
        },
    }
}

fn push_opt_uses(out: &mut Vec<u8>, u: &Option<Uses>)
    ensures
        final(out)@ == old(out)@ + enc_opt_uses(*u),
{
    match u {
        None => {
            out.push(0u8);
            assert(out@ =~= old(out)@ + enc_opt_uses(None));
        },
        Some(us) => {
            out.push(1u8);
            match us.use_method {
                UseMethod::Burn => out.push(0u8),
                UseMethod::Multiple => out.push(1u8),
                UseMethod::Single => out.push(2u8),
            }
            push_u64(out, us.remaining);
            push_u64(out, us.total);
            assert(out@ =~= old(out)@ + enc_opt_uses(Some(*us)));
        },
    }
}

/// Serializes a record into the external store's binary layout.
pub fn encode_record(r: &MetadataRecord) -> (out: Vec<u8>)
    requires
        wf_sizes(r@.data),
    ensures
        out@ == enc_record(r@),
{
    let mut out: Vec<u8> = Vec::new();
    out.push(r.tag);
    push_raw(&mut out, &r.update_authority.bytes);
    push_raw(&mut out, &r.mint.bytes);
    push_bytes_field(&mut out, &r.data.name);
    push_bytes_field(&mut out, &r.data.symbol);
    push_bytes_field(&mut out, &r.data.uri);
    push_u16(&mut out, r.data.seller_fee_basis_points);
    push_opt_creators(&mut out, &r.data.creators);
    push_bool(&mut out, r.primary_sale_happened);
    push_bool(&mut out, r.is_mutable);
    push_opt_collection(&mut out, &r.data.collection);
    push_opt_uses(&mut out, &r.data.uses);
    assert(out@ =~= enc_record(r@));
    out
}

/// Appending one creator to a list appends its encoding.
proof fn lemma_enc_creator_list_snoc(cs: Seq<CreatorV>, c: CreatorV)
    ensures
        enc_creator_list(cs.push(c)) == enc_creator_list(cs) + enc_creator(c),
    decreases cs.len(),
{
    let p = cs.push(c);
    assert(p.len() == cs.len() + 1);
    if cs.len() == 0 {
        assert(p.drop_first() =~= Seq::<CreatorV>::empty());
        assert(p[0] == c);
        assert(enc_creator_list(p) == enc_creator(p[0]) + enc_creator_list(p.drop_first()));
        assert(enc_creator_list(p.drop_first()) == Seq::<u8>::empty());
        assert(enc_creator_list(cs) == Seq::<u8>::empty());
        assert(enc_creator_list(p) =~= enc_creator_list(cs) + enc_creator(c));
    } else {
        assert(p.drop_first() =~= cs.drop_first().push(c));
        lemma_enc_creator_list_snoc(cs.drop_first(), c);
        assert(p[0] == cs[0]);
        assert(enc_creator_list(p) == enc_creator(p[0]) + enc_creator_list(p.drop_first()));
        assert(enc_creator_list(p.drop_first()) == enc_creator_list(cs.drop_first()) + enc_creator(
            c,
        ));
        assert(enc_creator_list(cs) == enc_creator(cs[0]) + enc_creator_list(cs.drop_first()));
        assert(enc_creator(cs[0]) + (enc_creator_list(cs.drop_first()) + enc_creator(c)) =~= (
        enc_creator(cs[0]) + enc_creator_list(cs.drop_first())) + enc_creator(c));
        assert(enc_creator_list(p) =~= enc_creator_list(cs) + enc_creator(c));
    }
}

// ===================================================================
// The executable readers: each one returns exactly what the spec-level
// reader of the same layout element yields.
// ===================================================================

fn r_u8(b: &Vec<u8>, i: usize) -> (r: Option<(u8, usize)>)
    ensures
        match r {
            Some((v, j)) => p_u8(b@, i as int) == Some((v, j as int)),
            None => p_u8(b@, i as int) is None,
        },
{
    if i < b.len() {
        Some((b[i], i + 1))
    } else {
        None
    }
}

fn r_fixed(b: &Vec<u8>, i: usize, n: usize) -> (r: Option<(Vec<u8>, usize)>)
    ensures
        match r {
            Some((v, j)) => p_fixed(b@, i as int, n as int) == Some((v@, j as int)),
            None => p_fixed(b@, i as int, n as int) is None,
        },
{
    if i <= b.len() && n <= b.len() - i {
        let s = slice_subrange(b.as_slice(), i, i + n);
        Some((slice_to_vec(s), i + n))
    } else {
        None
    }
}

fn r_u16(b: &Vec<u8>, i: usize) -> (r: Option<(u16, usize)>)
    ensures
        match r {
            Some((v, j)) => p_u16(b@, i as int) == Some((v, j as int)),
            None => p_u16(b@, i as int) is None,
        },
{
    match r_fixed(b, i, 2) {
        Some((s, j)) => Some((u16_from_le_bytes(s.as_slice()), j)),
        None => None,
    }
}

fn r_u32(b: &Vec<u8>, i: usize) -> (r: Option<(u32, usize)>)
    ensures
        match r {
            Some((v, j)) => p_u32(b@, i as int) == Some((v, j as int)),
            None => p_u32(b@, i as int) is None,
        },
{
    match r_fixed(b, i, 4) {
        Some((s, j)) => Some((u32_from_le_bytes(s.as_slice()), j)),
        None => None,
    }
}

fn r_u64(b: &Vec<u8>, i: usize) -> (r: Option<(u64, usize)>)
    ensures
        match r {
            Some((v, j)) => p_u64(b@, i as int) == Some((v, j as int)),
            None => p_u64(b@, i as int) is None,
        },
{
    match r_fixed(b, i, 8) {
        Some((s, j)) => Some((u64_from_le_bytes(s.as_slice()), j)),
        None => None,
    }
}

fn r_bool(b: &Vec<u8>, i: usize) -> (r: Option<(bool, usize)>)
    ensures
        match r {
            Some((v, j)) => p_bool(b@, i as int) == Some((v, j as int)),
            None => p_bool(b@, i as int) is None,
        },
{
    match r_u8(b, i) {
        Some((0u8, j)) => Some((false, j)),
        Some((1u8, j)) => Some((true, j)),
        _ => None,
    }
}

fn r_vbytes(b: &Vec<u8>, i: usize) -> (r: Option<(Vec<u8>, usize)>)
    ensures
        match r {
            Some((v, j)) => p_vbytes(b@, i as int) == Some((v@, j as int)),
            None => p_vbytes(b@, i as int) is None,
        },
{
    match r_u32(b, i) {
        Some((n, j)) => r_fixed(b, j, n as usize),
        None => None,
    }
}

fn r_creator(b: &Vec<u8>, i: usize) -> (r: Option<(Creator, usize)>)
    ensures
        match r {
            Some((c, j)) => p_creator(b@, i as int) == Some((c@, j as int)),
            None => p_creator(b@, i as int) is None,
        },
{
    match r_fixed(b, i, 32) {
        Some((addr, j)) => match r_bool(b, j) {
            Some((v, k)) => match r_u8(b, k) {
                Some((s, l)) => Some(
                    (
                        Creator { address: Address { bytes: addr }, verified: v, share: s },
                        l,
                    ),
                ),
                None => None,
            },
            None => None,
        },
        None => None,
    }
}

fn r_creator_list(b: &Vec<u8>, i: usize, n: u32) -> (r: Option<(Vec<Creator>, usize)>)
    ensures
        match r {
            Some((v, j)) => p_creator_list(b@, i as int, n as nat) == Some(
                (v@.map_values(|x: Creator| x@), j as int),
            ),
            None => p_creator_list(b@, i as int, n as nat) is None,
        },
    decreases n,
{
    if n == 0 {
        let v: Vec<Creator> = Vec::new();
        assert(v@.map_values(|x: Creator| x@) =~= Seq::<CreatorV>::empty());
        Some((v, i))
    } else {
        match r_creator(b, i) {
            Some((c, j)) => match r_creator_list(b, j, n - 1) {
                Some((cs, k)) => {
                    let ghost tail = cs@.map_values(|x: Creator| x@);
                    let ghost cv = c@;
                    let mut cs = cs;
                    cs.insert(0, c);
                    assert(cs@.map_values(|x: Creator| x@) =~= seq![cv] + tail);
                    Some((cs, k))
                },
                None => None,
            },
            None => None,
        }
    }
}

fn r_opt_creators(b: &Vec<u8>, i: usize) -> (r: Option<(Option<Vec<Creator>>, usize)>)
    ensures
        match r {
            Some((v, j)) => p_opt_creators(b@, i as int) == Some(
                (crate::data::view_creators(v), j as int),
            ),
            None => p_opt_creators(b@, i as int) is None,
        },
{
    match r_u8(b, i) {
        Some((0u8, j)) => Some((None, j)),
        Some((1u8, j)) => match r_u32(b, j) {
            Some((n, k)) => match r_creator_list(b, k, n) {
                Some((cs, l)) => Some((Some(cs), l)),
                None => None,
            },
            None => None,
        },
        _ => None,
    }
}

fn r_use_method(b: &Vec<u8>, i: usize) -> (r: Option<(UseMethod, usize)>)
    ensures
        match r {
            Some((v, j)) => p_use_method(b@, i as int) == Some((v, j as int)),
            None => p_use_method(b@, i as int) is None,
        },
{
    match r_u8(b, i) {
        Some((0u8, j)) => Some((UseMethod::Burn, j)),
        Some((1u8, j)) => Some((UseMethod::Multiple, j)),
        Some((2u8, j)) => Some((UseMethod::Single, j)),
        _ => None,
    }
}

fn r_opt_uses(b: &Vec<u8>, i: usize) -> (r: Option<(Option<Uses>, usize)>)
    ensures
        match r {
            Some((v, j)) => p_opt_uses(b@, i as int) == Some((v, j as int)),
            None => p_opt_uses(b@, i as int) is None,
        },
{
    match r_u8(b, i) {
        Some((0u8, j)) => Some((None, j)),
        Some((1u8, j)) => match r_use_method(b, j) {
            Some((m, k)) => match r_u64(b, k) {
                Some((rem, l)) => match r_u64(b, l) {
                    Some((tot, e)) => Some(
                        (Some(Uses { use_method: m, remaining: rem, total: tot }), e),
                    ),
                    None => None,
                },
                None => None,
            },
            None => None,
        },
        _ => None,
    }
}

fn r_opt_collection(b: &Vec<u8>, i: usize) -> (r: Option<(Option<Collection>, usize)>)
    ensures
        match r {
            Some((v, j)) => p_opt_collection(b@, i as int) == Some(
                (crate::data::view_collection(v), j as int),
            ),
            None => p_opt_collection(b@, i as int) is None,
        },
{
    match r_u8(b, i) {
        Some((0u8, j)) => Some((None, j)),
        Some((1u8, j)) => match r_bool(b, j) {
            Some((v, k)) => match r_fixed(b, k, 32) {
                Some((key, l)) => Some(
                    (Some(Collection { verified: v, key: Address { bytes: key } }), l),
                ),
                None => None,
            },
            None => None,
        },
        _ => None,
    }
}

fn r_record(b: &Vec<u8>) -> (r: Option<(MetadataRecord, usize)>)
    ensures
        match r {
            Some((rec, j)) => p_record(b@) == Some((rec@, j as int)),
            None => p_record(b@) is None,
        },
{
    match r_u8(b, 0) {
        Some((tag, i1)) => match r_fixed(b, i1, 32) {
            Some((ua, i2)) => match r_fixed(b, i2, 32) {
                Some((mint, i3)) => match r_vbytes(b, i3) {
                    Some((name, i4)) => match r_vbytes(b, i4) {
                        Some((symbol, i5)) => match r_vbytes(b, i5) {
                            Some((uri, i6)) => match r_u16(b, i6) {
                                Some((fee, i7)) => match r_opt_creators(b, i7) {
                                    Some((creators, i8)) => match r_bool(b, i8) {
                                        Some((ps, i9)) => match r_bool(b, i9) {
                                            Some((im, i10)) => match r_opt_collection(b, i10) {
                                                Some((coll, i11)) => match r_opt_uses(b, i11) {
                                                    Some((uses, i12)) => Some(
                                                        (
                                                            MetadataRecord {
                                                                tag,
                                                                update_authority: Address {
                                                                    bytes: ua,
                                                                },
                                                                mint: Address { bytes: mint },
                                                                data: DataV2 {
                                                                    name,
                                                                    symbol,
                                                                    uri,
                                                                    seller_fee_basis_points: fee,
                                                                    creators,
                                                                    collection: coll,
                                                                    uses,
                                                                },
                                                                primary_sale_happened: ps,
                                                                is_mutable: im,
                                                            },
                                                            i12,
                                                        ),
                                                    ),
                                                    None => None,
                                                },
                                                None => None,
                                            },
                                            None => None,
                                        },
                                        None => None,
                                    },
                                    None => None,
                                },
                                None => None,
                            },
                            None => None,
                        },
                        None => None,
                    },
                    None => None,
                },
                None => None,
            },
            None => None,
        },
        None => None,
    }
}

/// Decodes a record buffer in checked mode: the buffer must not exceed the
/// record's maximum size, must open with the expected discriminant tag, and
/// must parse as a metadata record. Used whenever the record's origin is not
/// already trusted.
pub fn decode_checked(bytes: &Vec<u8>) -> (r: Result<MetadataRecord, WrapError>)
    ensures
        bytes@.len() > MAX_METADATA_LEN <==> r == Err::<MetadataRecord, WrapError>(
            WrapError::RecordTooLarge,
        ),
        match r {
            Ok(rec) => {
                &&& bytes@.len() <= MAX_METADATA_LEN
                &&& (p_record(bytes@) matches Some((v, end)) && rec@ == v)
                &&& rec@.tag == METADATA_TAG
            },
            Err(e) => e == WrapError::RecordTooLarge || e == WrapError::RecordTypeMismatch,
        },
        bytes@.len() <= MAX_METADATA_LEN ==> (r == Err::<MetadataRecord, WrapError>(
            WrapError::RecordTypeMismatch,
        ) <==> !(p_record(bytes@) matches Some((v, end)) && v.tag == METADATA_TAG)),
{
    if bytes.len() > MAX_METADATA_LEN {
        return Err(WrapError::RecordTooLarge);
    }
    match r_record(bytes) {
        Some((rec, _end)) => {
            if rec.tag == METADATA_TAG {
                Ok(rec)
            } else {
                Err(WrapError::RecordTypeMismatch)
            }
        },
        None => Err(WrapError::RecordTypeMismatch),
    }
}

/// Decodes a record buffer in unchecked mode: the discriminant tag is read
/// but not compared, for callers that have independently established what
/// record the buffer holds (such as a record this same operation is about to
/// overwrite). Reads never go past the record's maximum size; bytes beyond
/// it are ignored.
pub fn decode_unchecked(bytes: &Vec<u8>) -> (r: Result<MetadataRecord, WrapError>)
    ensures
        ({
            let c = if bytes@.len() <= MAX_METADATA_LEN {
                bytes@
            } else {
                bytes@.subrange(0, MAX_METADATA_LEN as int)
            };
            match r {
                Ok(rec) => p_record(c) matches Some((v, end)) && rec@ == v,
                Err(e) => e == WrapError::RecordTypeMismatch && p_record(c) is None,
            }
        }),
{
    let limit = if bytes.len() <= MAX_METADATA_LEN {
        bytes.len()
    } else {
        MAX_METADATA_LEN
    };
    let head = slice_to_vec(slice_subrange(bytes.as_slice(), 0, limit));
    proof {
        if bytes@.len() <= MAX_METADATA_LEN {
            assert(head@ =~= bytes@);
        }
    }
    match r_record(&head) {
        Some((rec, _end)) => Ok(rec),
        None => Err(WrapError::RecordTypeMismatch),
    }
}

// ===================================================================
// Round trip: reading back what the encoder wrote yields the record
// that was encoded.
// ===================================================================

/// The size facts the round trip rests on: 32-byte authorities and
/// descriptive fields within their bounds.
pub open spec fn wf_record_sizes(r: MetadataRecordV) -> bool {
    &&& r.update_authority.len() == 32
    &&& r.mint.len() == 32
    &&& wf_sizes(r.data)
}

/// If a region of a buffer holds a concatenation, its two halves hold the
/// two parts.
proof fn lemma_concat_split(b: Seq<u8>, i: int, x: Seq<u8>, y: Seq<u8>)
    requires
        0 <= i,
        i + x.len() + y.len() <= b.len(),
        b.subrange(i, i + x.len() + y.len()) == x + y,
    ensures
        b.subrange(i, i + x.len() as int) == x,
        b.subrange(i + x.len() as int, i + x.len() + y.len()) == y,
{
    let whole = b.subrange(i, i + x.len() + y.len());
    assert(b.subrange(i, i + x.len() as int) =~= x) by {
        assert forall|k: int| 0 <= k < x.len() implies b.subrange(i, i + x.len() as int)[k]
            == x[k] by {
            assert(whole[k] == (x + y)[k]);
        }
    }
    assert(b.subrange(i + x.len() as int, i + x.len() + y.len()) =~= y) by {
        assert forall|k: int| 0 <= k < y.len() implies b.subrange(
            i + x.len() as int,
            i + x.len() + y.len(),
        )[k] == y[k] by {
            assert(whole[x.len() + k] == (x + y)[x.len() + k]);
        }
    }
}

proof fn lemma_rt_u8(b: Seq<u8>, i: int, x: u8)
    requires
        0 <= i,
        i + 1 <= b.len(),
        b.subrange(i, i + 1) == seq![x],
    ensures
        p_u8(b, i) == Some((x, i + 1)),
{
    assert(b[i] == b.subrange(i, i + 1)[0]);
}

proof fn lemma_rt_fixed(b: Seq<u8>, i: int, s: Seq<u8>)
    requires
        0 <= i,
        i + s.len() <= b.len(),
        b.subrange(i, i + s.len() as int) == s,
    ensures
        p_fixed(b, i, s.len() as int) == Some((s, i + s.len())),
{
}

proof fn lemma_rt_u16(b: Seq<u8>, i: int, x: u16)
    requires
        0 <= i,
        i + 2 <= b.len(),
        b.subrange(i, i + 2) == spec_u16_to_le_bytes(x),
    ensures
        p_u16(b, i) == Some((x, i + 2)),
{
    lemma_auto_spec_u16_to_from_le_bytes();
    assert(spec_u16_to_le_bytes(x).len() == 2);
    assert(spec_u16_from_le_bytes(spec_u16_to_le_bytes(x)) == x);
}

proof fn lemma_rt_u32(b: Seq<u8>, i: int, x: u32)
    requires
        0 <= i,
        i + 4 <= b.len(),
        b.subrange(i, i + 4) == spec_u32_to_le_bytes(x),
    ensures
        p_u32(b, i) == Some((x, i + 4)),
{
    lemma_auto_spec_u32_to_from_le_bytes();
    assert(spec_u32_to_le_bytes(x).len() == 4);
    assert(spec_u32_from_le_bytes(spec_u32_to_le_bytes(x)) == x);
}

proof fn lemma_rt_u64(b: Seq<u8>, i: int, x: u64)
    requires
        0 <= i,
        i + 8 <= b.len(),
        b.subrange(i, i + 8) == spec_u64_to_le_bytes(x),
    ensures
        p_u64(b, i) == Some((x, i + 8)),
{
    lemma_auto_spec_u64_to_from_le_bytes();
    assert(spec_u64_to_le_bytes(x).len() == 8);
    assert(spec_u64_from_le_bytes(spec_u64_to_le_bytes(x)) == x);
}

proof fn lemma_rt_bool(b: Seq<u8>, i: int, v: bool)
    requires
        0 <= i,
        i + 1 <= b.len(),
        b.subrange(i, i + 1) == enc_bool(v),
    ensures
        p_bool(b, i) == Some((v, i + 1)),
{
    assert(b[i] == b.subrange(i, i + 1)[0]);
}

proof fn lemma_rt_vbytes(b: Seq<u8>, i: int, s: Seq<u8>)
    requires
        0 <= i,
        s.len() < 0x1_0000_0000,
        i + 4 + s.len() <= b.len(),
        b.subrange(i, i + 4 + s.len()) == enc_bytes(s),
    ensures
        p_vbytes(b, i) == Some((s, i + 4 + s.len())),
{
    lemma_auto_spec_u32_to_from_le_bytes();
    let lenb = spec_u32_to_le_bytes(s.len() as u32);
    lemma_concat_split(b, i, lenb, s);
    lemma_rt_u32(b, i, s.len() as u32);
    lemma_rt_fixed(b, i + 4, s);
}

proof fn lemma_rt_creator(b: Seq<u8>, i: int, c: CreatorV)
    requires
        0 <= i,
        c.address.len() == 32,
        i + 34 <= b.len(),
        b.subrange(i, i + 34) == enc_creator(c),
    ensures
        p_creator(b, i) == Some((c, i + 34)),
{
    let rest = enc_bool(c.verified) + seq![c.share];
    assert(enc_creator(c) =~= c.address + rest);
    lemma_concat_split(b, i, c.address, rest);
    lemma_rt_fixed(b, i, c.address);
    lemma_concat_split(b, i + 32, enc_bool(c.verified), seq![c.share]);
    lemma_rt_bool(b, i + 32, c.verified);
    lemma_rt_u8(b, i + 33, c.share);
}

/// Length of an encoded creator list: 34 bytes per entry.
proof fn lemma_enc_creator_list_len(cs: Seq<CreatorV>)
    requires
        forall|k: int| 0 <= k < cs.len() ==> #[trigger] cs[k].address.len() == 32,
    ensures
        enc_creator_list(cs).len() == 34 * cs.len(),
    decreases cs.len(),
{
    if cs.len() > 0 {
        assert(cs[0].address.len() == 32);
        assert(forall|k: int| 0 <= k < cs.drop_first().len() ==> #[trigger] cs.drop_first()[k]
            .address.len() == 32);
        lemma_enc_creator_list_len(cs.drop_first());
    }
}

proof fn lemma_rt_creator_list(b: Seq<u8>, i: int, cs: Seq<CreatorV>)
    requires
        0 <= i,
        forall|k: int| 0 <= k < cs.len() ==> #[trigger] cs[k].address.len() == 32,
        i + enc_creator_list(cs).len() <= b.len(),
        b.subrange(i, i + enc_creator_list(cs).len()) == enc_creator_list(cs),
    ensures
        p_creator_list(b, i, cs.len()) == Some((cs, i + enc_creator_list(cs).len())),
    decreases cs.len(),
{
    if cs.len() == 0 {
        assert(p_creator_list(b, i, 0) == Some((Seq::<CreatorV>::empty(), i)));
        assert(cs =~= Seq::<CreatorV>::empty());
    } else {
        let head = enc_creator(cs[0]);
        let tail = enc_creator_list(cs.drop_first());
        assert(enc_creator_list(cs) == head + tail);
        assert(cs[0].address.len() == 32);
        assert(head.len() == 34) by {
            assert(enc_bool(cs[0].verified).len() == 1);
        }
        lemma_concat_split(b, i, head, tail);
        lemma_rt_creator(b, i, cs[0]);
        assert(forall|k: int| 0 <= k < cs.drop_first().len() ==> #[trigger] cs.drop_first()[k]
            .address.len() == 32);
        lemma_rt_creator_list(b, i + 34, cs.drop_first());
        assert(seq![cs[0]] + cs.drop_first() =~= cs);
    }
}

proof fn lemma_rt_opt_creators(b: Seq<u8>, i: int, c: Option<Seq<CreatorV>>)
    requires
        0 <= i,
        (c matches Some(cs) ==> cs.len() < 0x1_0000_0000 && (forall|k: int|
            0 <= k < cs.len() ==> #[trigger] cs[k].address.len() == 32)),
        i + enc_opt_creators(c).len() <= b.len(),
        b.subrange(i, i + enc_opt_creators(c).len()) == enc_opt_creators(c),
    ensures
        p_opt_creators(b, i) == Some((c, i + enc_opt_creators(c).len())),
{
    match c {
        None => {
            lemma_rt_u8(b, i, 0u8);
        },
        Some(cs) => {
            lemma_auto_spec_u32_to_from_le_bytes();
            let lenb = spec_u32_to_le_bytes(cs.len() as u32);
            let rest = lenb + enc_creator_list(cs);
            assert(enc_opt_creators(c) =~= seq![1u8] + rest);
            lemma_concat_split(b, i, seq![1u8], rest);
            lemma_rt_u8(b, i, 1u8);
            lemma_concat_split(b, i + 1, lenb, enc_creator_list(cs));
            lemma_rt_u32(b, i + 1, cs.len() as u32);
            lemma_rt_creator_list(b, i + 5, cs);
            assert((cs.len() as u32) as nat == cs.len());
        },
    }
}

proof fn lemma_rt_opt_collection(b: Seq<u8>, i: int, c: Option<CollectionV>)
    requires
        0 <= i,
        (c matches Some(cl) ==> cl.key.len() == 32),
        i + enc_opt_collection(c).len() <= b.len(),
        b.subrange(i, i + enc_opt_collection(c).len()) == enc_opt_collection(c),
    ensures
        p_opt_collection(b, i) == Some((c, i + enc_opt_collection(c).len())),
{
    match c {
        None => {
            lemma_rt_u8(b, i, 0u8);
        },
        Some(cl) => {
            let rest = enc_bool(cl.verified) + cl.key;
            assert(enc_opt_collection(c) =~= seq![1u8] + rest);
            lemma_concat_split(b, i, seq![1u8], rest);
            lemma_rt_u8(b, i, 1u8);
            lemma_concat_split(b, i + 1, enc_bool(cl.verified), cl.key);
            lemma_rt_bool(b, i + 1, cl.verified);
            lemma_rt_fixed(b, i + 2, cl.key);
        },
    }
}

proof fn lemma_rt_opt_uses(b: Seq<u8>, i: int, u: Option<Uses>)
    requires
        0 <= i,
        i + enc_opt_uses(u).len() <= b.len(),
        b.subrange(i, i + enc_opt_uses(u).len()) == enc_opt_uses(u),
    ensures
        p_opt_uses(b, i) == Some((u, i + enc_opt_uses(u).len())),
{
    lemma_auto_spec_u64_to_from_le_bytes();
    match u {
        None => {
            lemma_rt_u8(b, i, 0u8);
        },
        Some(us) => {
            let m = enc_use_method(us.use_method);
            let remb = spec_u64_to_le_bytes(us.remaining);
            let totb = spec_u64_to_le_bytes(us.total);
            assert(m.len() == 1);
            let rest = m + remb + totb;
            assert(enc_opt_uses(u) =~= seq![1u8] + rest);
            lemma_concat_split(b, i, seq![1u8], rest);
            lemma_rt_u8(b, i, 1u8);
            assert(rest =~= m + (remb + totb));
            lemma_concat_split(b, i + 1, m, remb + totb);
            match us.use_method {
                UseMethod::Burn => lemma_rt_u8(b, i + 1, 0u8),
                UseMethod::Multiple => lemma_rt_u8(b, i + 1, 1u8),
                UseMethod::Single => lemma_rt_u8(b, i + 1, 2u8),
            }
            lemma_concat_split(b, i + 2, remb, totb);
            lemma_rt_u64(b, i + 2, us.remaining);
            lemma_rt_u64(b, i + 10, us.total);
        },
    }
}

/// A well-formed record encodes into at most 550 bytes, well under the
/// record's fixed allocation size.
proof fn lemma_enc_record_len(r: MetadataRecordV)
    requires
        wf_record_sizes(r),
    ensures
        enc_record(r).len() <= 550,
{
    lemma_auto_spec_u16_to_from_le_bytes();
    lemma_auto_spec_u32_to_from_le_bytes();
    lemma_auto_spec_u64_to_from_le_bytes();
    assert(spec_u32_to_le_bytes(r.data.name.len() as u32).len() == 4);
    assert(spec_u32_to_le_bytes(r.data.symbol.len() as u32).len() == 4);
    assert(spec_u32_to_le_bytes(r.data.uri.len() as u32).len() == 4);
    assert(spec_u16_to_le_bytes(r.data.seller_fee_basis_points).len() == 2);
    assert(enc_bytes(r.data.name).len() <= 4 + MAX_NAME_LEN);
    assert(enc_bytes(r.data.symbol).len() <= 4 + MAX_SYMBOL_LEN);
    assert(enc_bytes(r.data.uri).len() <= 4 + MAX_URI_LEN);
    match r.data.creators {
        Some(cs) => {
            assert(spec_u32_to_le_bytes(cs.len() as u32).len() == 4);
            lemma_enc_creator_list_len(cs);
            assert(enc_opt_creators(r.data.creators).len() <= 1 + 4 + 34 * MAX_CREATOR_COUNT);
        },
        None => {
            assert(enc_opt_creators(r.data.creators).len() == 1);
        },
    }
    match r.data.collection {
        Some(cl) => {
            assert(enc_opt_collection(r.data.collection).len() == 34);
        },
        None => {
            assert(enc_opt_collection(r.data.collection).len() == 1);
        },
    }
    match r.data.uses {
        Some(us) => {
            assert(spec_u64_to_le_bytes(us.remaining).len() == 8);
            assert(spec_u64_to_le_bytes(us.total).len() == 8);
            assert(enc_opt_uses(r.data.uses).len() == 18);
        },
        None => {
            assert(enc_opt_uses(r.data.uses).len() == 1);
        },
    }
}

/// The heart of the round trip: wherever a buffer starts with the encoding
/// of a well-formed record, reading the buffer yields exactly that record,
/// positioned after its encoding.
proof fn lemma_rt_record(b: Seq<u8>, v: MetadataRecordV)
    requires
        wf_record_sizes(v),
        enc_record(v).len() <= b.len(),
        b.subrange(0, enc_record(v).len() as int) == enc_record(v),
    ensures
        p_record(b) == Some((v, enc_record(v).len() as int)),
{
    lemma_auto_spec_u16_to_from_le_bytes();
    lemma_auto_spec_u32_to_from_le_bytes();
    lemma_auto_spec_u64_to_from_le_bytes();
    let e1 = seq![v.tag];
    let e2 = v.update_authority;
    let e3 = v.mint;
    let e4 = enc_bytes(v.data.name);
    let e5 = enc_bytes(v.data.symbol);
    let e6 = enc_bytes(v.data.uri);
    let e7 = spec_u16_to_le_bytes(v.data.seller_fee_basis_points);
    let e8 = enc_opt_creators(v.data.creators);
    let e9 = enc_bool(v.primary_sale_happened);
    let e10 = enc_bool(v.is_mutable);
    let e11 = enc_opt_collection(v.data.collection);
    let e12 = enc_opt_uses(v.data.uses);
    let p1 = e1;
    let p2 = p1 + e2;
    let p3 = p2 + e3;
    let p4 = p3 + e4;
    let p5 = p4 + e5;
    let p6 = p5 + e6;
    let p7 = p6 + e7;
    let p8 = p7 + e8;
    let p9 = p8 + e9;
    let p10 = p9 + e10;
    let p11 = p10 + e11;
    let p12 = p11 + e12;
    assert(enc_record(v) == p12);
    assert(spec_u32_to_le_bytes(v.data.name.len() as u32).len() == 4);
    assert(spec_u32_to_le_bytes(v.data.symbol.len() as u32).len() == 4);
    assert(spec_u32_to_le_bytes(v.data.uri.len() as u32).len() == 4);
    assert(e4.len() == 4 + v.data.name.len());
    assert(e5.len() == 4 + v.data.symbol.len());
    assert(e6.len() == 4 + v.data.uri.len());
    assert(e7.len() == 2);
    lemma_concat_split(b, 0, p11, e12);
    lemma_concat_split(b, 0, p10, e11);
    lemma_concat_split(b, 0, p9, e10);
    lemma_concat_split(b, 0, p8, e9);
    lemma_concat_split(b, 0, p7, e8);
    lemma_concat_split(b, 0, p6, e7);
    lemma_concat_split(b, 0, p5, e6);
    lemma_concat_split(b, 0, p4, e5);
    lemma_concat_split(b, 0, p3, e4);
    lemma_concat_split(b, 0, p2, e3);
    lemma_concat_split(b, 0, p1, e2);
    let o2 = p1.len() as int;
    let o3 = p2.len() as int;
    let o4 = p3.len() as int;
    let o5 = p4.len() as int;
    let o6 = p5.len() as int;
    let o7 = p6.len() as int;
    let o8 = p7.len() as int;
    let o9 = p8.len() as int;
    let o10 = p9.len() as int;
    let o11 = p10.len() as int;
    let o12 = p11.len() as int;
    let end = p12.len() as int;
    lemma_rt_u8(b, 0, v.tag);
    lemma_rt_fixed(b, o2, e2);
    lemma_rt_fixed(b, o3, e3);
    lemma_rt_vbytes(b, o4, v.data.name);
    lemma_rt_vbytes(b, o5, v.data.symbol);
    lemma_rt_vbytes(b, o6, v.data.uri);
    lemma_rt_u16(b, o7, v.data.seller_fee_basis_points);
    lemma_rt_opt_creators(b, o8, v.data.creators);
    lemma_rt_bool(b, o9, v.primary_sale_happened);
    lemma_rt_bool(b, o10, v.is_mutable);
    lemma_rt_opt_collection(b, o11, v.data.collection);
    lemma_rt_opt_uses(b, o12, v.data.uses);
    assert(p_u8(b, 0) == Some((v.tag, o2)));
    assert(p_fixed(b, o2, 32) == Some((v.update_authority, o3)));
    assert(p_fixed(b, o3, 32) == Some((v.mint, o4)));
    assert(p_data_head(b, o4) == Some(
        (
            (
                v.data.name,
                v.data.symbol,
                v.data.uri,
                v.data.seller_fee_basis_points,
                v.data.creators,
            ),
            o9,
        ),
    ));
    assert(p_record(b) matches Some((w, e)) && w == v && e == end);
}

/// Law: encoding a well-formed record and reading the encoding back yields
/// an identical record, and the encoding always fits the record's fixed
/// maximum size. Together with the contracts of [`encode_record`] and
/// [`decode_checked`], checked decoding inverts encoding.
pub proof fn lemma_round_trip(v: MetadataRecordV)
    requires
        wf_record(v),
    ensures
        enc_record(v).len() <= MAX_METADATA_LEN,
        p_record(enc_record(v)) == Some((v, enc_record(v).len() as int)),
{
    lemma_enc_record_len(v);
    let b = enc_record(v);
    assert(b.subrange(0, b.len() as int) =~= b);
    lemma_rt_record(b, v);
}

/// Law: whatever record a buffer parses to, its discriminant tag is the
/// buffer's first byte — so a buffer opening with a foreign tag never
/// passes checked decoding, which fails it with a type mismatch.
pub proof fn lemma_parse_reads_tag(b: Seq<u8>)
    ensures
        p_record(b) matches Some((v, end)) ==> b.len() >= 1 && v.tag == b[0],
{
}

// ===================================================================
// The fixed layout of the external mint record, which the composite
// operation validates before issuing metadata.
// ===================================================================

/// The fixed size of a mint record buffer.
pub const MINT_RECORD_LEN: usize = 82;

/// An optional key in the mint layout: a four-byte presence word, zero or
/// one, followed by the key bytes (ignored when absent).
pub open spec fn p_opt_key(b: Seq<u8>, i: int) -> Option<Option<Seq<u8>>> {
    match p_u32(b, i) {
        Some((0u32, j)) => Some(None),
        Some((1u32, j)) => match p_fixed(b, j, 32) {
            Some((key, _k)) => Some(Some(key)),
            None => None,
        },
        _ => None,
    }
}

/// The whole mint record: optional mint authority, supply, decimals, an
/// initialization byte that must be one, and the optional freeze authority.
/// The buffer must be exactly the record's fixed size.
pub open spec fn p_mint(b: Seq<u8>) -> Option<crate::mint::MintRecordV> {
    if b.len() != MINT_RECORD_LEN {
        None
    } else {
        match p_opt_key(b, 0) {
            Some(mint_authority) => match p_u64(b, 36) {
                Some((supply, _j)) => {
                    if b[45] == 1 {
                        match p_opt_key(b, 46) {
                            Some(freeze_authority) => Some(
                                crate::mint::MintRecordV {
                                    decimals: b[44],
                                    supply,
                                    mint_authority,
                                    freeze_authority,
                                },
                            ),
                            None => None,
                        }
                    } else {
                        None
                    }
                },
                None => None,
            },
            None => None,
        }
    }
}

fn r_opt_key(b: &Vec<u8>, i: usize) -> (r: Option<Option<Address>>)
    ensures
        match r {
            Some(Some(a)) => p_opt_key(b@, i as int) == Some(Some(a@)),
            Some(None) => p_opt_key(b@, i as int) == Some(None::<Seq<u8>>),
            None => p_opt_key(b@, i as int) is None,
        },
{
    match r_u32(b, i) {
        Some((0u32, _j)) => Some(None),
        Some((1u32, j)) => match r_fixed(b, j, 32) {
            Some((key, _k)) => Some(Some(Address { bytes: key })),
            None => None,
        },
        _ => None,
    }
}

/// Parses a mint record buffer in its fixed external layout; yields nothing
/// for a buffer of the wrong size, a malformed presence word, or an
/// uninitialized record.
pub fn parse_mint_record(bytes: &Vec<u8>) -> (r: Option<crate::mint::MintRecord>)
    ensures
        match r {
            Some(m) => p_mint(bytes@) == Some(m@),
            None => p_mint(bytes@) is None,
        },
{
    if bytes.len() != MINT_RECORD_LEN {
        return None;
    }
    let mint_authority = match r_opt_key(bytes, 0) {
        Some(a) => a,
        None => {
            return None;
        },
    };
    let supply = match r_u64(bytes, 36) {
        Some((s, _j)) => s,
        None => {
            return None;
        },
    };
    let decimals = bytes[44];
    if bytes[45] != 1 {
        return None;
    }
    let freeze_authority = match r_opt_key(bytes, 46) {
        Some(a) => a,
        None => {
            return None;
        },
    };
    Some(
        crate::mint::MintRecord { decimals, supply, mint_authority, freeze_authority },
    )
}

impl MetadataRecord {
    /// An independent copy of this record.
    pub fn dup(&self) -> (r: MetadataRecord)
        ensures
            r@ == self@,
    {
        MetadataRecord {
            tag: self.tag,
            update_authority: self.update_authority.dup(),
            mint: self.mint.dup(),
            data: self.data.dup(),
            primary_sale_happened: self.primary_sale_happened,
            is_mutable: self.is_mutable,
        }
    }
}

/// Holder of a decoded metadata record, the shape the rest of the system
/// hands around after reading a record buffer.
pub struct MetadataWrapper {
    pub record: MetadataRecord,
}

impl MetadataWrapper {
    /// Checked decoding of a record buffer; see [`decode_checked`].
    pub fn try_deserialize(buf: &Vec<u8>) -> (r: Result<MetadataWrapper, WrapError>)
        ensures
            match r {
                Ok(w) => {
                    &&& buf@.len() <= MAX_METADATA_LEN
                    &&& (p_record(buf@) matches Some((v, end)) && w.record@ == v)
                    &&& w.record@.tag == METADATA_TAG
                },
                Err(e) => e == WrapError::RecordTooLarge || e == WrapError::RecordTypeMismatch,
            },
            buf@.len() > MAX_METADATA_LEN <==> r == Err::<MetadataWrapper, WrapError>(
                WrapError::RecordTooLarge,
            ),
            r is Ok <==> (buf@.len() <= MAX_METADATA_LEN && (p_record(buf@) matches Some(
                (v, end),
            ) && v.tag == METADATA_TAG)),
    {
        match decode_checked(buf) {
            Ok(record) => Ok(MetadataWrapper { record }),
            Err(e) => Err(e),
        }
    }

    /// Unchecked decoding of a record buffer; see [`decode_unchecked`].
    pub fn try_deserialize_unchecked(buf: &Vec<u8>) -> (r: Result<MetadataWrapper, WrapError>)
        ensures
            ({
                let c = if buf@.len() <= MAX_METADATA_LEN {
                    buf@
                } else {
                    buf@.subrange(0, MAX_METADATA_LEN as int)
                };
                match r {
                    Ok(w) => p_record(c) matches Some((v, end)) && w.record@ == v,
                    Err(e) => e == WrapError::RecordTypeMismatch && p_record(c) is None,
                }
            }),
    {
        match decode_unchecked(buf) {
            Ok(record) => Ok(MetadataWrapper { record }),
            Err(e) => Err(e),
        }
    }
}

} // verus!

