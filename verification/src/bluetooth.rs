//! Physical device addressing.

use vstd::prelude::*;

verus! {

/// A 6-byte physical device address. The all-zero wildcard value asks the
/// transport to discover any device instead of connecting to one directly.
#[derive(Debug, PartialEq, Eq)]
pub struct Address {
    pub address: [u8; 6],
}

impl Address {
    /// Whether this is the broadcast/wildcard address.
    pub open spec fn spec_is_wildcard(&self) -> bool {
        forall|i: int| 0 <= i < 6 ==> self.address[i] == 0
    }
}

impl Default for Address {
    /// The wildcard address: all six bytes zero.
    fn default() -> (r: Self)
        ensures
            r.spec_is_wildcard(),
    {
        let r = Address { address: [0, 0, 0, 0, 0, 0] };
        proof {
            assert(forall|i: int| 0 <= i < 6 ==> r.address[i] == 0);
        }
        r
    }
}

} // verus!
