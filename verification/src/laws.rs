use crate::decoder::{
    address_count, addrs_at, bool_count, bools_at, code_at, header_error, parse_header,
    uint_count,
};
use crate::error::{Section, VmError};
use crate::instr::{decode_at, is_opcode, Instr};
use crate::interp::{program_result, run_from, step, Outcome};
use crate::registers::Banks;
use crate::word::{modulus, wrapping_product, wrapping_sum};
use vstd::arithmetic::div_mod::{
    lemma_add_mod_noop_right, lemma_fundamental_div_mod, lemma_mul_mod_noop_general,
};
use vstd::arithmetic::mul::{lemma_mul_is_associative, lemma_mul_is_commutative};
use vstd::prelude::*;

verus! {

/// A header that decodes takes exactly three count bytes, 32 bytes for each integer
/// literal, one byte for each boolean literal and 20 bytes for each address literal.
pub proof fn lemma_header_length(input: Seq<u8>)
    requires
        header_error(input) is None,
    ensures
        parse_header(input) matches Ok(decoded) && decoded.1 == 3 + 32 * uint_count(input)
            + bool_count(input) + 20 * address_count(input),
        code_at(input) <= input.len(),
{
}

/// Wrapping addition does not depend on the order of its operands.
pub proof fn lemma_add_commutative(a: nat, b: nat)
    ensures
        wrapping_sum(a, b) == wrapping_sum(b, a),
{
}

/// Wrapping addition does not depend on how a sum of three is grouped.
pub proof fn lemma_add_associative(a: nat, b: nat, c: nat)
    ensures
        wrapping_sum(wrapping_sum(a, b), c) == wrapping_sum(a, wrapping_sum(b, c)),
{
    let m = modulus() as int;
    let (x, y, z) = (a as int, b as int, c as int);
    lemma_add_mod_noop_right(z, x + y, m);
    lemma_add_mod_noop_right(x, y + z, m);
    assert((x + y) % m + z == z + (x + y) % m);
    assert(z + (x + y) == x + (y + z));
}

/// Wrapping multiplication does not depend on the order of its operands.
pub proof fn lemma_mul_commutative(a: nat, b: nat)
    ensures
        wrapping_product(a, b) == wrapping_product(b, a),
{
    lemma_mul_is_commutative(a as int, b as int);
}

/// Wrapping multiplication does not depend on how a product of three is grouped.
pub proof fn lemma_mul_associative(a: nat, b: nat, c: nat)
    ensures
        wrapping_product(wrapping_product(a, b), c) == wrapping_product(
            a,
            wrapping_product(b, c),
        ),
{
    let m = modulus() as int;
    let (x, y, z) = (a as int, b as int, c as int);
    lemma_mul_mod_noop_general(x * y, z, m);
    lemma_mul_mod_noop_general(x, y * z, m);
    lemma_mul_is_associative(x, y, z);
}

/// The largest word plus one wraps around to zero, and times two to two below 2^256.
pub proof fn lemma_wraps_at_maximum()
    ensures
        wrapping_sum((modulus() - 1) as nat, 1) == 0,
        wrapping_product((modulus() - 1) as nat, 2) == modulus() - 2,
{
}

/// A subtraction instruction fails exactly where the first operand is below the second;
/// the difference that it writes otherwise gives the first operand back when the second
/// is added to it.
pub proof fn lemma_sub_law(banks: Banks, a: u8, b: u8, ret: u8, item_price: nat, caller: Seq<u8>)
    requires
        banks.wf(),
    ensures
        step(Instr::Sub { a, b, ret }, banks, item_price, caller) is Err <==> banks.ints[a as int]
            < banks.ints[b as int],
        step(Instr::Sub { a, b, ret }, banks, item_price, caller) matches Err(e) ==> e
            == VmError::ArithmeticUnderflow,
        step(Instr::Sub { a, b, ret }, banks, item_price, caller) matches Ok(
            Outcome::Continue(next),
        ) ==> next.ints[ret as int] + banks.ints[b as int] == banks.ints[a as int],
{
}

/// A division instruction fails exactly where the divisor is zero; the quotient that it
/// writes otherwise, times the divisor, plus the remainder, is the dividend.
pub proof fn lemma_div_law(banks: Banks, a: u8, b: u8, ret: u8, item_price: nat, caller: Seq<u8>)
    requires
        banks.wf(),
    ensures
        step(Instr::Div { a, b, ret }, banks, item_price, caller) is Err <==> banks.ints[b as int]
            == 0,
        step(Instr::Div { a, b, ret }, banks, item_price, caller) matches Err(e) ==> e
            == VmError::DivisionByZero,
        step(Instr::Div { a, b, ret }, banks, item_price, caller) matches Ok(
            Outcome::Continue(next),
        ) ==> next.ints[ret as int] * banks.ints[b as int] + banks.ints[a as int]
            % banks.ints[b as int] == banks.ints[a as int],
{
    let x = banks.ints[a as int] as int;
    let d = banks.ints[b as int] as int;
    if d != 0 {
        lemma_fundamental_div_mod(x, d);
        lemma_mul_is_commutative(d, x / d);
    }
}

/// A program that ends before the integer literals that its first byte declares fails
/// with insufficient data for the integers.
pub proof fn lemma_short_uint_block(input: Seq<u8>, item_price: nat, caller: Seq<u8>)
    requires
        1 <= input.len() < 1 + 32 * uint_count(input),
    ensures
        program_result(input, item_price, caller) == Err::<nat, VmError>(
            VmError::InsufficientData(Section::Uint256s),
        ),
{
}

/// A program that holds its integer literals and the count of booleans, and ends before
/// the boolean literals that this count declares, fails with insufficient data for the
/// booleans.
pub proof fn lemma_short_bool_block(input: Seq<u8>, item_price: nat, caller: Seq<u8>)
    requires
        bools_at(input) + 1 <= input.len() < bools_at(input) + 1 + bool_count(input),
    ensures
        program_result(input, item_price, caller) == Err::<nat, VmError>(
            VmError::InsufficientData(Section::Bools),
        ),
{
}

/// A program that holds its integer and boolean literals and the count of addresses, and
/// ends before the address literals that this count declares, fails with insufficient
/// data for the addresses.
pub proof fn lemma_short_address_block(input: Seq<u8>, item_price: nat, caller: Seq<u8>)
    requires
        addrs_at(input) + 1 <= input.len() < addrs_at(input) + 1 + 20 * address_count(input),
    ensures
        program_result(input, item_price, caller) == Err::<nat, VmError>(
            VmError::InsufficientData(Section::Addresses),
        ),
{
}

/// An instruction cut short by the end of the program is insufficient data, never
/// anything else.
pub proof fn lemma_short_instruction(input: Seq<u8>, pc: int)
    requires
        0 <= pc < input.len(),
        is_opcode(input[pc]),
    ensures
        decode_at(input, pc) matches Ok(instr) ==> pc + instr.width() <= input.len(),
        decode_at(input, pc) matches Err(e) ==> e is InsufficientData,
{
}

/// A byte that is no opcode fails with `InvalidOpcode` where the execution reaches it,
/// whatever the registers hold and whatever follows it.
pub proof fn lemma_unknown_opcode(
    input: Seq<u8>,
    pc: int,
    banks: Banks,
    item_price: nat,
    caller: Seq<u8>,
)
    requires
        0 <= pc < input.len(),
        !is_opcode(input[pc]),
    ensures
        decode_at(input, pc) == Err::<Instr, VmError>(VmError::InvalidOpcode),
        run_from(input, pc, banks, item_price, caller) == Err::<nat, VmError>(
            VmError::InvalidOpcode,
        ),
{
}

/// Where the execution reaches the end of the program, the result is zero.
pub proof fn lemma_end_of_program(
    input: Seq<u8>,
    pc: int,
    banks: Banks,
    item_price: nat,
    caller: Seq<u8>,
)
    requires
        pc >= input.len(),
    ensures
        run_from(input, pc, banks, item_price, caller) == Ok::<nat, VmError>(0),
{
}

/// Every instruction that goes on leaves well-formed banks well formed, and every result
/// is a number below 2^256.
pub proof fn lemma_step_keeps_wf(instr: Instr, banks: Banks, item_price: nat, caller: Seq<u8>)
    requires
        banks.wf(),
        item_price < modulus(),
        caller.len() == 20,
    ensures
        step(instr, banks, item_price, caller) matches Ok(Outcome::Continue(next)) ==> next.wf(),
        step(instr, banks, item_price, caller) matches Ok(Outcome::Halt(value)) ==> value
            < modulus(),
{
    match instr {
        Instr::Div { a, b, ret } => {
            let x = banks.ints[a as int];
            let d = banks.ints[b as int];
            if d != 0 {
                vstd::arithmetic::div_mod::lemma_div_is_ordered_by_denominator(
                    x as int,
                    1,
                    d as int,
                );
                vstd::arithmetic::div_mod::lemma_div_basics(x as int);
            }
        },
        _ => {},
    }
}

} // verus!
