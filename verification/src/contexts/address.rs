//! Account addresses.

use vstd::prelude::*;

verus! {

/// Address of an account: 32 bytes.
#[derive(Clone, Copy, Debug, Eq)]
pub struct Address {
    /// The bytes of the address.
    pub bytes: [u8; 32],
}

impl View for Address {
    type V = Seq<u8>;

    open spec fn view(&self) -> Seq<u8> {
        self.bytes@
    }
}

impl PartialEq for Address {
    fn eq(&self, other: &Self) -> (same: bool) {
        let mut i: usize = 0;
        while i < 32
            invariant
                i <= 32,
                forall|j: int| 0 <= j < i ==> self.bytes@[j] == other.bytes@[j],
            decreases 32 - i,
        {
            if self.bytes[i] != other.bytes[i] {
                return false;
            }
            i += 1;
        }
        proof {
            assert(self.bytes@ =~= other.bytes@);
        }
        true
    }
}

impl vstd::std_specs::cmp::PartialEqSpecImpl for Address {
    open spec fn obeys_eq_spec() -> bool {
        true
    }

    open spec fn eq_spec(&self, other: &Self) -> bool {
        self.bytes@ == other.bytes@
    }
}

impl Default for Address {
    fn default() -> (address: Self)
        ensures
            address@ == Seq::new(32, |i: int| 0u8),
    {
        let address = Address { bytes: [0u8; 32] };
        proof {
            assert(address@ =~= Seq::new(32, |i: int| 0u8));
        }
        address
    }
}

} // verus!
