use vstd::prelude::*;

verus! {

/// The twenty bytes that identify an account.
#[derive(Clone, Copy, Debug, PartialEq, Eq)]
pub struct Address {
    pub bytes: [u8; 20],
}

impl View for Address {
    type V = Seq<u8>;

    /// The twenty bytes, first byte first.
    open spec fn view(&self) -> Seq<u8> {
        self.bytes@
    }
}

/// The bytes of the zero address.
pub open spec fn zero_address() -> Seq<u8> {
    Seq::new(20, |i: int| 0u8)
}

impl Address {
    /// The address whose bytes are all zero.
    pub fn zero() -> (r: Address)
        ensures
            r@ == zero_address(),
    {
        let r = Address { bytes: [0u8; 20] };
        assert(r@ =~= zero_address());
        r
    }

    /// The address made of the given bytes.
    pub fn from_bytes(bytes: [u8; 20]) -> (r: Address)
        ensures
            r@ == bytes@,
    {
        Address { bytes }
    }

    /// The bytes of the address.
    pub fn into_bytes(self) -> (r: [u8; 20])
        ensures
            r@ == self@,
    {
        self.bytes
    }
}

} // verus!
