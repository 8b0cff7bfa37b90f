use vstd::prelude::*;
use vstd::slice::slice_to_vec;

verus! {

/// Length in bytes of an account key in the external ledger.
pub const ADDRESS_LEN: usize = 32;

/// A 32-byte account key: the identity of an account (a wallet, a mint, a
/// program, or a derived record) in the external ledger.
pub struct Address {
    pub bytes: Vec<u8>,
}

impl View for Address {
    type V = Seq<u8>;

    open spec fn view(&self) -> Seq<u8> {
        self.bytes@
    }
}

impl Address {
    /// Structural validity: an address is exactly 32 bytes.
    pub open spec fn wf(&self) -> bool {
        self@.len() == ADDRESS_LEN
    }

    /// Builds an address from raw bytes; rejects any length other than 32.
    pub fn from_bytes(bytes: Vec<u8>) -> (r: Option<Address>)
        ensures
            match r {
                Some(a) => a.wf() && a@ == bytes@,
                None => bytes@.len() != ADDRESS_LEN,
            },
    {
        if bytes.len() == ADDRESS_LEN {
            Some(Address { bytes })
        } else {
            None
        }
    }

    /// An independent copy holding the same bytes.
    pub fn dup(&self) -> (r: Address)
        ensures
            r@ == self@,
    {
        Address { bytes: slice_to_vec(self.bytes.as_slice()) }
    }

    /// Byte-for-byte equality of two addresses.
    pub fn addr_eq(&self, other: &Address) -> (r: bool)
        ensures
            r == (self@ == other@),
    {
        if self.bytes.len() != other.bytes.len() {
            assert(self@.len() != other@.len());
            return false;
        }
        let n = self.bytes.len();
        let mut i: usize = 0;
        while i < n
            invariant
                i <= n,
                n == self@.len(),
                n == other@.len(),
                forall|k: int| 0 <= k < i ==> self@[k] == other@[k],
            decreases n - i,
        {
            if self.bytes[i] != other.bytes[i] {
                assert(self@[i as int] != other@[i as int]);
                return false;
            }
            i += 1;
        }
        assert(self@ =~= other@);
        true
    }
}

/// Equality of two optional addresses, by bytes when both are present.
pub fn opt_addr_eq(a: &Option<Address>, b: &Option<Address>) -> (r: bool)
    ensures
        r == match (a, b) {
            (Some(x), Some(y)) => x@ == y@,
            (None, None) => true,
            _ => false,
        },
{
    match (a, b) {
        (Some(x), Some(y)) => x.addr_eq(y),
        (None, None) => true,
        _ => false,
    }
}

} // verus!
