use crate::address::zero_address;
use crate::codec::{be_window, decode_address, decode_uint};
use crate::error::{Section, VmError};
use crate::registers::{bank_size, Banks, Registers};
use vstd::prelude::*;

verus! {

/// The number of integer literals that the header declares: its first byte.
pub open spec fn uint_count(input: Seq<u8>) -> nat {
    input[0] as nat
}

/// Where the count of boolean literals stands: behind the integer literals.
pub open spec fn bools_at(input: Seq<u8>) -> nat {
    1 + 32 * uint_count(input)
}

/// The number of boolean literals that the header declares.
pub open spec fn bool_count(input: Seq<u8>) -> nat {
    input[bools_at(input) as int] as nat
}

/// Where the count of address literals stands: behind the boolean literals.
pub open spec fn addrs_at(input: Seq<u8>) -> nat {
    bools_at(input) + 1 + bool_count(input)
}

/// The number of address literals that the header declares.
pub open spec fn address_count(input: Seq<u8>) -> nat {
    input[addrs_at(input) as int] as nat
}

/// Where the instructions begin: behind the address literals.
pub open spec fn code_at(input: Seq<u8>) -> nat {
    addrs_at(input) + 1 + 20 * address_count(input)
}

/// The integer bank after the first `count` integer literals of the header have been loaded.
pub open spec fn int_literals(input: Seq<u8>, count: nat) -> Seq<nat> {
    Seq::new(
        bank_size(),
        |i: int|
            if i < count {
                be_window(input, 1 + 32 * i, 32)
            } else {
                0nat
            },
    )
}

/// The boolean bank after the first `count` boolean literals of the header have been
/// loaded: a byte other than zero stands for `true`.
pub open spec fn bool_literals(input: Seq<u8>, count: nat) -> Seq<bool> {
    Seq::new(bank_size(), |i: int| i < count && input[bools_at(input) + 1 + i] != 0)
}

/// The address bank after the first `count` address literals of the header have been loaded.
pub open spec fn address_literals(input: Seq<u8>, count: nat) -> Seq<Seq<u8>> {
    Seq::new(
        bank_size(),
        |i: int|
            if i < count {
                input.subrange(addrs_at(input) + 1 + 20 * i, addrs_at(input) + 21 + 20 * i)
            } else {
                zero_address()
            },
    )
}

/// What is wrong with the header of `input`, if anything.
///
/// The three blocks are checked in order. A missing count byte is a truncated header; a
/// block shorter than its count is insufficient data for that block.
pub open spec fn header_error(input: Seq<u8>) -> Option<VmError> {
    if input.len() < 1 {
        Some(VmError::TruncatedHeader)
    } else if input.len() < bools_at(input) {
        Some(VmError::InsufficientData(Section::Uint256s))
    } else if input.len() < bools_at(input) + 1 {
        Some(VmError::TruncatedHeader)
    } else if input.len() < addrs_at(input) {
        Some(VmError::InsufficientData(Section::Bools))
    } else if input.len() < addrs_at(input) + 1 {
        Some(VmError::TruncatedHeader)
    } else if input.len() < code_at(input) {
        Some(VmError::InsufficientData(Section::Addresses))
    } else {
        None
    }
}

/// The register banks that a sound header of `input` sets up.
pub open spec fn initial_banks(input: Seq<u8>) -> Banks {
    Banks {
        ints: int_literals(input, uint_count(input)),
        bools: bool_literals(input, bool_count(input)),
        addrs: address_literals(input, address_count(input)),
    }
}

/// The result of decoding the header of `input`: the initial banks and the offset of the
/// first instruction, or the error in the header.
pub open spec fn parse_header(input: Seq<u8>) -> Result<(Banks, nat), VmError> {
    match header_error(input) {
        Some(e) => Err(e),
        None => Ok((initial_banks(input), code_at(input))),
    }
}

/// Decodes the header of a program: three blocks of literals, each behind a one-byte count.
///
/// On success the registers hold the literals, block by block from slot 0 up, and the
/// default values elsewhere; the offset returned is that of the first instruction, which
/// is the number of bytes that the header takes.
pub fn load_header(input: &[u8]) -> (r: Result<(Registers, usize), VmError>)
    ensures
        match r {
            Ok((regs, pc)) => parse_header(input@) == Ok::<(Banks, nat), VmError>(
                (regs@, pc as nat),
            ) && pc == 3 + 32 * uint_count(input@) + bool_count(input@) + 20 * address_count(
                input@,
            ) && pc <= input@.len(),
            Err(e) => parse_header(input@) == Err::<(Banks, nat), VmError>(e),
        },
{
    let len = input.len();
    if len < 1 {
        return Err(VmError::TruncatedHeader);
    }
    let mut regs = Registers::new();
    let mut offset: usize = 1;

    let uints = input[0] as usize;
    if len - offset < uints * 32 {
        return Err(VmError::InsufficientData(Section::Uint256s));
    }
    let mut j: usize = 0;
    while j < uints
        invariant
            j <= uints == uint_count(input@),
            len == input.len(),
            offset == 1 + 32 * j,
            bools_at(input@) <= len,
            regs@.ints == int_literals(input@, j as nat),
            regs@.bools == Banks::cleared().bools,
            regs@.addrs == Banks::cleared().addrs,
        decreases uints - j,
    {
        match decode_uint(input, offset) {
            Ok(value) => {
                regs.set_uint(j as u8, value);
            },
            Err(e) => {
                return Err(e);
            },
        }
        assert(regs@.ints =~= int_literals(input@, (j + 1) as nat));
        offset += 32;
        j += 1;
    }

    if len - offset < 1 {
        return Err(VmError::TruncatedHeader);
    }
    let bools = input[offset] as usize;
    offset += 1;
    if len - offset < bools {
        return Err(VmError::InsufficientData(Section::Bools));
    }
    let mut j: usize = 0;
    while j < bools
        invariant
            j <= bools == bool_count(input@),
            len == input.len(),
            offset == bools_at(input@) + 1 + j,
            addrs_at(input@) <= len,
            regs@.ints == int_literals(input@, uint_count(input@)),
            regs@.bools == bool_literals(input@, j as nat),
            regs@.addrs == Banks::cleared().addrs,
        decreases bools - j,
    {
        regs.set_bool(j as u8, input[offset] != 0);
        assert(regs@.bools =~= bool_literals(input@, (j + 1) as nat));
        offset += 1;
        j += 1;
    }

    if len - offset < 1 {
        return Err(VmError::TruncatedHeader);
    }
    let addresses = input[offset] as usize;
    offset += 1;
    if len - offset < addresses * 20 {
        return Err(VmError::InsufficientData(Section::Addresses));
    }
    let mut j: usize = 0;
    while j < addresses
        invariant
            j <= addresses == address_count(input@),
            len == input.len(),
            offset == addrs_at(input@) + 1 + 20 * j,
            code_at(input@) <= len,
            regs@.ints == int_literals(input@, uint_count(input@)),
            regs@.bools == bool_literals(input@, bool_count(input@)),
            regs@.addrs == address_literals(input@, j as nat),
        decreases addresses - j,
    {
        match decode_address(input, offset) {
            Ok(value) => {
                regs.set_address(j as u8, value);
            },
            Err(e) => {
                return Err(e);
            },
        }
        assert(regs@.addrs =~= address_literals(input@, (j + 1) as nat));
        offset += 20;
        j += 1;
    }
    Ok((regs, offset))
}

} // verus!
