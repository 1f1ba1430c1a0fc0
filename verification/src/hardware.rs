//! The six-byte link-layer address.

use vstd::prelude::*;

verus! {

/// Number of bytes in a link-layer address.
pub const HARDWARE_ADDRESS_LEN: usize = 6;

/// A link-layer (MAC) address: exactly six bytes, in transmission order.
#[derive(Clone, Copy, Debug, PartialEq, Eq, Hash)]
pub struct HardwareAddress {
    octets: [u8; 6],
}

impl View for HardwareAddress {
    type V = Seq<u8>;

    closed spec fn view(&self) -> Seq<u8> {
        self.octets@
    }
}

impl HardwareAddress {
    /// The address made of `octets`.
    pub fn new(octets: [u8; 6]) -> (address: HardwareAddress)
        ensures
            address@ == octets@,
    {
        HardwareAddress { octets }
    }

    /// The six bytes of the address.
    pub fn octets(&self) -> (octets: [u8; 6])
        ensures
            octets@ == self@,
    {
        self.octets
    }

    /// Every address has six bytes.
    pub proof fn lemma_len(self)
        ensures
            self@.len() == HARDWARE_ADDRESS_LEN,
    {
    }

    /// Two addresses with the same bytes are the same address.
    pub proof fn lemma_view_injective(self, other: HardwareAddress)
        requires
            self@ == other@,
        ensures
            self == other,
    {
        assert(self.octets =~= other.octets);
    }
}

} // verus!
