use crate::address::{zero_address, Address};
use crate::word::{lemma_view_bound, modulus, U256};
use vstd::prelude::*;

verus! {

/// The number of slots in each register bank: one for every value of a byte.
pub open spec fn bank_size() -> nat {
    256
}

/// The contents of the three register banks as mathematical values.
///
/// An integer register holds a number below 2^256, an address register twenty bytes.
pub struct Banks {
    pub ints: Seq<nat>,
    pub bools: Seq<bool>,
    pub addrs: Seq<Seq<u8>>,
}

impl Banks {
    /// Each bank has a slot for every byte value, and every slot holds a value of its kind.
    pub open spec fn wf(self) -> bool {
        &&& self.ints.len() == bank_size()
        &&& self.bools.len() == bank_size()
        &&& self.addrs.len() == bank_size()
        &&& forall|i: int| 0 <= i < bank_size() ==> #[trigger] self.ints[i] < modulus()
        &&& forall|i: int| 0 <= i < bank_size() ==> (#[trigger] self.addrs[i]).len() == 20
    }

    /// The banks before any write: zero, `false` and the zero address everywhere.
    pub open spec fn cleared() -> Banks {
        Banks {
            ints: Seq::new(bank_size(), |i: int| 0nat),
            bools: Seq::new(bank_size(), |i: int| false),
            addrs: Seq::new(bank_size(), |i: int| zero_address()),
        }
    }

    /// The banks after integer register `slot` has been set to `value`.
    pub open spec fn with_int(self, slot: u8, value: nat) -> Banks {
        Banks { ints: self.ints.update(slot as int, value), ..self }
    }

    /// The banks after boolean register `slot` has been set to `value`.
    pub open spec fn with_bool(self, slot: u8, value: bool) -> Banks {
        Banks { bools: self.bools.update(slot as int, value), ..self }
    }

    /// The banks after address register `slot` has been set to `value`.
    pub open spec fn with_addr(self, slot: u8, value: Seq<u8>) -> Banks {
        Banks { addrs: self.addrs.update(slot as int, value), ..self }
    }
}

/// The three register banks of one execution: 256 integers, 256 booleans and 256
/// addresses, each addressed by one byte.
pub struct Registers {
    ints: [U256; 256],
    bools: [bool; 256],
    addrs: [Address; 256],
}

impl View for Registers {
    type V = Banks;

    closed spec fn view(&self) -> Banks {
        Banks {
            ints: Seq::new(bank_size(), |i: int| self.ints@[i]@),
            bools: self.bools@,
            addrs: Seq::new(bank_size(), |i: int| self.addrs@[i]@),
        }
    }
}

impl Registers {
    /// Fresh banks: every register holds the default value of its kind.
    pub fn new() -> (r: Registers)
        ensures
            r@ == Banks::cleared(),
    {
        let r = Registers {
            ints: [U256::zero(); 256],
            bools: [false; 256],
            addrs: [Address::zero(); 256],
        };
        assert(r@.ints =~= Banks::cleared().ints);
        assert(r@.bools =~= Banks::cleared().bools);
        assert(r@.addrs =~= Banks::cleared().addrs);
        r
    }

    /// The view of any register file is well formed.
    pub proof fn lemma_wf(&self)
        ensures
            self@.wf(),
    {
        assert forall|i: int| 0 <= i < bank_size() implies #[trigger] self@.ints[i] < modulus() by {
            lemma_view_bound(self.ints@[i]);
        }
    }

    /// The integer in register `slot`.
    pub fn uint(&self, slot: u8) -> (r: U256)
        ensures
            r@ == self@.ints[slot as int],
    {
        self.ints[slot as usize]
    }

    /// The boolean in register `slot`.
    pub fn boolean(&self, slot: u8) -> (r: bool)
        ensures
            r == self@.bools[slot as int],
    {
        self.bools[slot as usize]
    }

    /// The address in register `slot`.
    pub fn address(&self, slot: u8) -> (r: Address)
        ensures
            r@ == self@.addrs[slot as int],
    {
        self.addrs[slot as usize]
    }

    /// Writes `value` to integer register `slot` and leaves every other register as it is.
    pub fn set_uint(&mut self, slot: u8, value: U256)
        ensures
            final(self)@ == old(self)@.with_int(slot, value@),
    {
        self.ints[slot as usize] = value;
        assert(self@.ints =~= old(self)@.ints.update(slot as int, value@));
        assert(self@.addrs =~= old(self)@.addrs);
    }

    /// Writes `value` to boolean register `slot` and leaves every other register as it is.
    pub fn set_bool(&mut self, slot: u8, value: bool)
        ensures
            final(self)@ == old(self)@.with_bool(slot, value),
    {
        self.bools[slot as usize] = value;
        assert(self@.ints =~= old(self)@.ints);
        assert(self@.addrs =~= old(self)@.addrs);
    }

    /// Writes `value` to address register `slot` and leaves every other register as it is.
    pub fn set_address(&mut self, slot: u8, value: Address)
        ensures
            final(self)@ == old(self)@.with_addr(slot, value@),
    {
        self.addrs[slot as usize] = value;
        assert(self@.addrs =~= old(self)@.addrs.update(slot as int, value@));
        assert(self@.ints =~= old(self)@.ints);
    }
}

} // verus!
