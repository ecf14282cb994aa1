//! Ledger account addresses as plain 32-byte values.

use vstd::prelude::*;

verus! {

/// Number of bytes in a ledger account address.
pub const ADDRESS_LEN: usize = 32;

/// A ledger account address: exactly 32 bytes.
#[derive(Clone, Debug)]
pub struct Address {
    pub bytes: Vec<u8>,
}

impl View for Address {
    type V = Seq<u8>;

    open spec fn view(&self) -> Seq<u8> {
        self.bytes@
    }
}

impl Address {
    /// A well-formed address holds exactly 32 bytes.
    pub open spec fn wf(&self) -> bool {
        self.bytes@.len() == ADDRESS_LEN
    }

    /// The all-zero address, the default value of an address field in a
    /// freshly created record.
    pub fn zero() -> (r: Address)
        ensures
            r.wf(),
            r@ == zero_address(),
    {
        let mut bytes: Vec<u8> = Vec::new();
        let mut i: usize = 0;
        while i < ADDRESS_LEN
            invariant
                i <= ADDRESS_LEN,
                bytes@.len() == i,
                forall|j: int| 0 <= j < i ==> bytes@[j] == 0u8,
            decreases ADDRESS_LEN - i,
        {
            bytes.push(0u8);
            i = i + 1;
        }
        proof {
            assert(bytes@ =~= zero_address());
        }
        Address { bytes }
    }
}

/// The all-zero 32-byte address.
pub open spec fn zero_address() -> Seq<u8> {
    Seq::new(32, |i: int| 0u8)
}

/// Byte-for-byte equality of two addresses.
pub fn addr_eq(a: &Address, b: &Address) -> (r: bool)
    ensures
        r == (a@ == b@),
{
    let r = a.bytes == b.bytes;
    proof {
        if r {
            assert(a@ =~= b@);
        }
    }
    r
}

} // verus!
