use crate::address::Address;
use crate::error::VmError;
use crate::word::{pow2_64, U256};
use vstd::prelude::*;

verus! {

/// The number that the `n` bytes of `s` from index `at` on denote, read most significant
/// byte first.
pub open spec fn be_window(s: Seq<u8>, at: int, n: nat) -> nat
    decreases n,
{
    if n == 0 {
        0
    } else {
        be_window(s, at, (n - 1) as nat) * 256 + s[at + n - 1] as nat
    }
}

/// A window of `n + 8` bytes is its first `n` bytes, shifted up by 64 bits, plus its last
/// eight bytes.
pub proof fn lemma_window_extend(s: Seq<u8>, at: int, n: nat)
    ensures
        be_window(s, at, n + 8) == be_window(s, at, n) * pow2_64() + be_window(s, at + n, 8),
{
    reveal_with_fuel(be_window, 9);
}

/// Reads the eight bytes of `buffer` from `at` on as one big-endian limb.
fn be_limb(buffer: &[u8], at: usize) -> (r: u64)
    requires
        at + 8 <= buffer@.len(),
    ensures
        r == be_window(buffer@, at as int, 8),
{
    proof {
        reveal_with_fuel(be_window, 9);
    }
    let b0: u64 = buffer[at] as u64;
    let b1: u64 = buffer[at + 1] as u64;
    let b2: u64 = buffer[at + 2] as u64;
    let b3: u64 = buffer[at + 3] as u64;
    let b4: u64 = buffer[at + 4] as u64;
    let b5: u64 = buffer[at + 5] as u64;
    let b6: u64 = buffer[at + 6] as u64;
    let b7: u64 = buffer[at + 7] as u64;
    let upper: u64 = ((b0 * 256 + b1) * 256 + b2) * 256 + b3;
    let lower: u64 = ((b4 * 256 + b5) * 256 + b6) * 256 + b7;
    upper * 0x1_0000_0000 + lower
}

/// Decodes the 32 bytes of `buffer` from `offset` on as a big-endian 256-bit integer.
///
/// Fails with `OutOfBounds` exactly when fewer than 32 bytes follow `offset`.
pub fn decode_uint(buffer: &[u8], offset: usize) -> (r: Result<U256, VmError>)
    ensures
        match r {
            Ok(v) => offset + 32 <= buffer@.len() && v@ == be_window(buffer@, offset as int, 32),
            Err(e) => offset + 32 > buffer@.len() && e == VmError::OutOfBounds,
        },
{
    if buffer.len() < 32 || offset > buffer.len() - 32 {
        return Err(VmError::OutOfBounds);
    }
    let w3 = be_limb(buffer, offset);
    let w2 = be_limb(buffer, offset + 8);
    let w1 = be_limb(buffer, offset + 16);
    let w0 = be_limb(buffer, offset + 24);
    proof {
        lemma_window_extend(buffer@, offset as int, 0);
        lemma_window_extend(buffer@, offset as int, 8);
        lemma_window_extend(buffer@, offset as int, 16);
        lemma_window_extend(buffer@, offset as int, 24);
    }
    Ok(U256 { w0, w1, w2, w3 })
}

/// Decodes the 20 bytes of `buffer` from `offset` on as an address, in the order in which
/// they stand.
///
/// Fails with `OutOfBounds` exactly when fewer than 20 bytes follow `offset`.
pub fn decode_address(buffer: &[u8], offset: usize) -> (r: Result<Address, VmError>)
    ensures
        match r {
            Ok(a) => offset + 20 <= buffer@.len() && a@ == buffer@.subrange(
                offset as int,
                offset + 20,
            ),
            Err(e) => offset + 20 > buffer@.len() && e == VmError::OutOfBounds,
        },
{
    if buffer.len() < 20 || offset > buffer.len() - 20 {
        return Err(VmError::OutOfBounds);
    }
    let mut bytes = [0u8; 20];
    let mut i: usize = 0;
    while i < 20
        invariant
            i <= 20,
            offset + 20 <= buffer.len(),
            forall|j: int| 0 <= j < i ==> bytes@[j] == buffer@[offset + j],
        decreases 20 - i,
    {
        bytes[i] = buffer[offset + i];
        i += 1;
    }
    let a = Address { bytes };
    assert(a@ =~= buffer@.subrange(offset as int, offset + 20));
    Ok(a)
}

} // verus!
