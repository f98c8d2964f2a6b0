use vstd::prelude::*;

verus! {

/// 2^64: the weight of the second limb.
pub open spec fn pow2_64() -> nat {
    0x1_0000_0000_0000_0000nat
}

/// 2^128: the weight of the third limb.
pub open spec fn pow2_128() -> nat {
    0x1_0000_0000_0000_0000_0000_0000_0000_0000nat
}

/// 2^192: the weight of the fourth limb.
pub open spec fn pow2_192() -> nat {
    0x1_0000_0000_0000_0000_0000_0000_0000_0000_0000_0000_0000_0000nat
}

/// 2^256: one more than the largest value a word can hold.
pub open spec fn modulus() -> nat {
    0x1_0000_0000_0000_0000_0000_0000_0000_0000_0000_0000_0000_0000_0000_0000_0000_0000nat
}

/// A 256-bit unsigned integer, stored as four 64-bit limbs.
///
/// `w0` is the least significant limb and `w3` the most significant one.
/// Every combination of limbs is a valid word.
#[derive(Clone, Copy, Debug, PartialEq, Eq, Structural)]
pub struct U256 {
    pub w0: u64,
    pub w1: u64,
    pub w2: u64,
    pub w3: u64,
}

impl View for U256 {
    type V = nat;

    /// The number that the four limbs stand for.
    open spec fn view(&self) -> nat {
        self.w0 as nat + self.w1 as nat * pow2_64() + self.w2 as nat * pow2_128() + self.w3 as nat
            * pow2_192()
    }
}

impl U256 {
    /// The word with value zero.
    pub fn zero() -> (r: U256)
        ensures
            r@ == 0,
    {
        U256 { w0: 0, w1: 0, w2: 0, w3: 0 }
    }

    /// The word whose value is `v`.
    pub fn from_u64(v: u64) -> (r: U256)
        ensures
            r@ == v,
    {
        U256 { w0: v, w1: 0, w2: 0, w3: 0 }
    }

    /// Whether the word is zero.
    pub fn is_zero(&self) -> (r: bool)
        ensures
            r == (self@ == 0),
    {
        self.w0 == 0 && self.w1 == 0 && self.w2 == 0 && self.w3 == 0
    }

    /// Whether two words hold the same number.
    pub fn same(&self, other: &U256) -> (r: bool)
        ensures
            r == (self@ == other@),
            r == (*self == *other),
    {
        proof {
            lemma_view_injective(*self, *other);
        }
        self.w0 == other.w0 && self.w1 == other.w1 && self.w2 == other.w2 && self.w3 == other.w3
    }

    /// `self - rhs`, or `None` where `rhs` is the larger of the two.
    pub fn checked_sub(self, rhs: U256) -> (r: Option<U256>)
        ensures
            self@ < rhs@ <==> r is None,
            r matches Some(d) ==> d@ == self@ - rhs@,
    {
        if self.lt(&rhs) {
            None
        } else {
            proof {
                lemma_view_bound(self);
                vstd::arithmetic::div_mod::lemma_small_mod((self@ - rhs@) as nat, modulus());
            }
            Some(wrapping_sub(self, rhs))
        }
    }

    /// `self / rhs` rounded down, or `None` where `rhs` is zero.
    pub fn checked_div(self, rhs: U256) -> (r: Option<U256>)
        ensures
            rhs@ == 0 <==> r is None,
            r matches Some(q) ==> q@ == self@ / rhs@,
    {
        if rhs.is_zero() {
            None
        } else {
            Some(wrapping_div(self, rhs))
        }
    }

    /// Whether the word is an even number.
    pub fn is_even(&self) -> (r: bool)
        ensures
            r == (self@ % 2 == 0),
    {
        wrapping_rem(*self, U256::from_u64(2)).is_zero()
    }

    /// Whether `self` is strictly below `other` as a number.
    pub fn lt(&self, other: &U256) -> (r: bool)
        ensures
            r == (self@ < other@),
    {
        if self.w3 != other.w3 {
            self.w3 < other.w3
        } else if self.w2 != other.w2 {
            self.w2 < other.w2
        } else if self.w1 != other.w1 {
            self.w1 < other.w1
        } else {
            self.w0 < other.w0
        }
    }
}

/// The sum of two word values, reduced modulo 2^256.
pub open spec fn wrapping_sum(a: nat, b: nat) -> nat {
    (a + b) % modulus()
}

/// The product of two word values, reduced modulo 2^256.
pub open spec fn wrapping_product(a: nat, b: nat) -> nat {
    (a * b) % modulus()
}

/// The difference of two word values, reduced modulo 2^256 into `0 .. 2^256`.
pub open spec fn wrapping_difference(a: nat, b: nat) -> nat {
    ((a - b) % (modulus() as int)) as nat
}

/// Calls `Uint::wrapping_add` of ruint on the two words, handing the limbs over with
/// `Uint::from_limbs` and taking them back with `Uint::into_limbs`, both least significant
/// limb first. Trusted: the result is the sum modulo 2^256.
#[verifier::external_body]
pub(crate) fn wrapping_add(a: U256, b: U256) -> (r: U256)
    ensures
        r@ == wrapping_sum(a@, b@),
{
    let x = stylus_sdk::alloy_primitives::U256::from_limbs([a.w0, a.w1, a.w2, a.w3]);
    let y = stylus_sdk::alloy_primitives::U256::from_limbs([b.w0, b.w1, b.w2, b.w3]);
    let l = x.wrapping_add(y).into_limbs();
    U256 { w0: l[0], w1: l[1], w2: l[2], w3: l[3] }
}

/// Calls `Uint::wrapping_mul` of ruint on the two words. Trusted: the result is the
/// product modulo 2^256.
#[verifier::external_body]
pub(crate) fn wrapping_mul(a: U256, b: U256) -> (r: U256)
    ensures
        r@ == wrapping_product(a@, b@),
{
    let x = stylus_sdk::alloy_primitives::U256::from_limbs([a.w0, a.w1, a.w2, a.w3]);
    let y = stylus_sdk::alloy_primitives::U256::from_limbs([b.w0, b.w1, b.w2, b.w3]);
    let l = x.wrapping_mul(y).into_limbs();
    U256 { w0: l[0], w1: l[1], w2: l[2], w3: l[3] }
}

/// Calls `Uint::wrapping_sub` of ruint on the two words. Trusted: the result is the
/// difference modulo 2^256.
#[verifier::external_body]
pub(crate) fn wrapping_sub(a: U256, b: U256) -> (r: U256)
    ensures
        r@ == wrapping_difference(a@, b@),
{
    let x = stylus_sdk::alloy_primitives::U256::from_limbs([a.w0, a.w1, a.w2, a.w3]);
    let y = stylus_sdk::alloy_primitives::U256::from_limbs([b.w0, b.w1, b.w2, b.w3]);
    let l = x.wrapping_sub(y).into_limbs();
    U256 { w0: l[0], w1: l[1], w2: l[2], w3: l[3] }
}

/// Calls `Uint::wrapping_div` of ruint, which panics on a zero divisor. Trusted: for a
/// divisor other than zero the result is the quotient rounded down.
#[verifier::external_body]
pub(crate) fn wrapping_div(a: U256, b: U256) -> (r: U256)
    requires
        b@ != 0,
    ensures
        r@ == a@ / b@,
{
    let x = stylus_sdk::alloy_primitives::U256::from_limbs([a.w0, a.w1, a.w2, a.w3]);
    let y = stylus_sdk::alloy_primitives::U256::from_limbs([b.w0, b.w1, b.w2, b.w3]);
    let l = x.wrapping_div(y).into_limbs();
    U256 { w0: l[0], w1: l[1], w2: l[2], w3: l[3] }
}

/// Calls `Uint::wrapping_rem` of ruint, which panics on a zero divisor. Trusted: for a
/// divisor other than zero the result is the remainder of the division.
#[verifier::external_body]
pub(crate) fn wrapping_rem(a: U256, b: U256) -> (r: U256)
    requires
        b@ != 0,
    ensures
        r@ == a@ % b@,
{
    let x = stylus_sdk::alloy_primitives::U256::from_limbs([a.w0, a.w1, a.w2, a.w3]);
    let y = stylus_sdk::alloy_primitives::U256::from_limbs([b.w0, b.w1, b.w2, b.w3]);
    let l = x.wrapping_rem(y).into_limbs();
    U256 { w0: l[0], w1: l[1], w2: l[2], w3: l[3] }
}

/// Whether the limbs of `a` come before those of `b`, comparing from the most
/// significant limb down.
pub open spec fn limbs_below(a: U256, b: U256) -> bool {
    if a.w3 != b.w3 {
        a.w3 < b.w3
    } else if a.w2 != b.w2 {
        a.w2 < b.w2
    } else if a.w1 != b.w1 {
        a.w1 < b.w1
    } else {
        a.w0 < b.w0
    }
}

/// Every word is below 2^256.
pub proof fn lemma_view_bound(a: U256)
    ensures
        a@ < modulus(),
{
}

/// The order of two words is the order of their limbs, most significant first.
pub proof fn lemma_view_order(a: U256, b: U256)
    ensures
        a@ < b@ <==> limbs_below(a, b),
{
}

/// Two words with the same value have the same limbs.
pub proof fn lemma_view_injective(a: U256, b: U256)
    ensures
        (a@ == b@) <==> (a == b),
{
    lemma_view_order(a, b);
    lemma_view_order(b, a);
}

} // verus!
