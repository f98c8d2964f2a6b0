use crate::address::{zero_address, Address};
use crate::decoder::{load_header, parse_header};
use crate::error::VmError;
use crate::instr::{decode_at, fetch, Instr};
use crate::registers::{Banks, Registers};
use crate::word::{
    wrapping_add, wrapping_mul, wrapping_product, wrapping_sum, U256,
};
use vstd::prelude::*;

verus! {

/// The value that the `special` instruction writes.
pub open spec fn special_value() -> nat {
    69
}

/// The price that stands in for the oracle's answer.
pub open spec fn oracle_price() -> nat {
    1000
}

/// The address that stands in for the oracle's price feed.
pub open spec fn oracle_feed() -> Seq<u8> {
    zero_address()
}

/// What one instruction leaves behind.
pub enum Outcome {
    /// The execution goes on with these banks.
    Continue(Banks),
    /// The execution ends with this result.
    Halt(nat),
}

/// The effect of one instruction on the banks, for the `item_price` and `caller` of the
/// execution.
pub open spec fn step(instr: Instr, banks: Banks, item_price: nat, caller: Seq<u8>) -> Result<
    Outcome,
    VmError,
> {
    let ints = banks.ints;
    match instr {
        Instr::Add { a, b, ret } => Ok(
            Outcome::Continue(banks.with_int(ret, wrapping_sum(ints[a as int], ints[b as int]))),
        ),
        Instr::Mul { a, b, ret } => Ok(
            Outcome::Continue(
                banks.with_int(ret, wrapping_product(ints[a as int], ints[b as int])),
            ),
        ),
        Instr::IsEven { a, ret } => Ok(
            Outcome::Continue(banks.with_bool(ret, ints[a as int] % 2 == 0)),
        ),
        Instr::Special { ret } => Ok(Outcome::Continue(banks.with_int(ret, special_value()))),
        Instr::ReturnUint { ret } => Ok(Outcome::Halt(ints[ret as int])),
        Instr::Equal { a, b, ret } => Ok(
            Outcome::Continue(banks.with_bool(ret, ints[a as int] == ints[b as int])),
        ),
        Instr::GreaterThan { a, b, ret } => Ok(
            Outcome::Continue(banks.with_bool(ret, ints[a as int] > ints[b as int])),
        ),
        Instr::LessThan { a, b, ret } => Ok(
            Outcome::Continue(banks.with_bool(ret, ints[a as int] < ints[b as int])),
        ),
        Instr::ReturnBool { ret } => Ok(
            Outcome::Halt(
                if banks.bools[ret as int] {
                    1
                } else {
                    0
                },
            ),
        ),
        Instr::GetLatestPrice { ret } => Ok(Outcome::Continue(banks.with_int(ret, oracle_price()))),
        Instr::GetPriceFeedAddress { ret } => Ok(
            Outcome::Continue(banks.with_addr(ret, oracle_feed())),
        ),
        Instr::CallerAddress { ret } => Ok(Outcome::Continue(banks.with_addr(ret, caller))),
        Instr::ItemPrice { ret } => Ok(Outcome::Continue(banks.with_int(ret, item_price))),
        Instr::Sub { a, b, ret } => if ints[a as int] < ints[b as int] {
            Err(VmError::ArithmeticUnderflow)
        } else {
            Ok(Outcome::Continue(banks.with_int(ret, (ints[a as int] - ints[b as int]) as nat)))
        },
        Instr::Div { a, b, ret } => if ints[b as int] == 0 {
            Err(VmError::DivisionByZero)
        } else {
            Ok(Outcome::Continue(banks.with_int(ret, ints[a as int] / ints[b as int])))
        },
    }
}

/// The result of executing the instructions of `input` from offset `pc` on, one after
/// the other, starting with `banks`.
///
/// The execution ends with the first instruction that returns or fails. Where the
/// instructions run out first, the result is zero.
pub open spec fn run_from(
    input: Seq<u8>,
    pc: int,
    banks: Banks,
    item_price: nat,
    caller: Seq<u8>,
) -> Result<nat, VmError>
    decreases input.len() - pc,
{
    if pc < 0 || pc >= input.len() {
        Ok(0)
    } else {
        match decode_at(input, pc) {
            Err(e) => Err(e),
            Ok(instr) => match step(instr, banks, item_price, caller) {
                Err(e) => Err(e),
                Ok(Outcome::Halt(value)) => Ok(value),
                Ok(Outcome::Continue(next)) => run_from(
                    input,
                    pc + instr.width(),
                    next,
                    item_price,
                    caller,
                ),
            },
        }
    }
}

/// The result of a whole program: its header sets up the banks, then its instructions run.
pub open spec fn program_result(input: Seq<u8>, item_price: nat, caller: Seq<u8>) -> Result<
    nat,
    VmError,
> {
    match parse_header(input) {
        Err(e) => Err(e),
        Ok((banks, pc)) => run_from(input, pc as int, banks, item_price, caller),
    }
}

/// Executes one instruction on the registers.
///
/// Returns `Some` with the result where the instruction ends the execution, and `None`
/// where the execution goes on. An instruction that fails leaves the registers as they
/// were.
pub fn apply(regs: &mut Registers, instr: Instr, item_price: U256, caller: Address) -> (r: Result<
    Option<U256>,
    VmError,
>)
    ensures
        match r {
            Ok(None) => step(instr, old(regs)@, item_price@, caller@) == Ok::<Outcome, VmError>(
                Outcome::Continue(final(regs)@),
            ),
            Ok(Some(value)) => step(instr, old(regs)@, item_price@, caller@) == Ok::<
                Outcome,
                VmError,
            >(Outcome::Halt(value@)) && final(regs)@ == old(regs)@,
            Err(e) => step(instr, old(regs)@, item_price@, caller@) == Err::<Outcome, VmError>(e)
                && final(regs)@ == old(regs)@,
        },
{
    match instr {
        Instr::Add { a, b, ret } => {
            let sum = wrapping_add(regs.uint(a), regs.uint(b));
            regs.set_uint(ret, sum);
        },
        Instr::Mul { a, b, ret } => {
            let product = wrapping_mul(regs.uint(a), regs.uint(b));
            regs.set_uint(ret, product);
        },
        Instr::IsEven { a, ret } => {
            let even = regs.uint(a).is_even();
            regs.set_bool(ret, even);
        },
        Instr::Special { ret } => {
            regs.set_uint(ret, U256::from_u64(69));
        },
        Instr::ReturnUint { ret } => {
            return Ok(Some(regs.uint(ret)));
        },
        Instr::Equal { a, b, ret } => {
            let same = regs.uint(a).same(&regs.uint(b));
            regs.set_bool(ret, same);
        },
        Instr::GreaterThan { a, b, ret } => {
            let above = regs.uint(b).lt(&regs.uint(a));
            regs.set_bool(ret, above);
        },
        Instr::LessThan { a, b, ret } => {
            let below = regs.uint(a).lt(&regs.uint(b));
            regs.set_bool(ret, below);
        },
        Instr::ReturnBool { ret } => {
            let value = if regs.boolean(ret) {
                U256::from_u64(1)
            } else {
                U256::zero()
            };
            return Ok(Some(value));
        },
        Instr::GetLatestPrice { ret } => {
            regs.set_uint(ret, U256::from_u64(1000));
        },
        Instr::GetPriceFeedAddress { ret } => {
            regs.set_address(ret, Address::zero());
        },
        Instr::CallerAddress { ret } => {
            regs.set_address(ret, caller);
        },
        Instr::ItemPrice { ret } => {
            regs.set_uint(ret, item_price);
        },
        Instr::Sub { a, b, ret } => {
            match regs.uint(a).checked_sub(regs.uint(b)) {
                Some(difference) => regs.set_uint(ret, difference),
                None => {
                    return Err(VmError::ArithmeticUnderflow);
                },
            }
        },
        Instr::Div { a, b, ret } => {
            match regs.uint(a).checked_div(regs.uint(b)) {
                Some(quotient) => regs.set_uint(ret, quotient),
                None => {
                    return Err(VmError::DivisionByZero);
                },
            }
        },
    }
    Ok(None)
}

/// Executes the instructions of `input` from offset `pc` on, starting with `regs`.
pub fn run(input: &[u8], pc: usize, regs: Registers, item_price: U256, caller: Address) -> (r:
    Result<U256, VmError>)
    ensures
        match r {
            Ok(value) => run_from(input@, pc as int, regs@, item_price@, caller@) == Ok::<
                nat,
                VmError,
            >(value@),
            Err(e) => run_from(input@, pc as int, regs@, item_price@, caller@) == Err::<
                nat,
                VmError,
            >(e),
        },
{
    let mut now = regs;
    let mut at = pc;
    while at < input.len()
        invariant
            run_from(input@, at as int, now@, item_price@, caller@) == run_from(
                input@,
                pc as int,
                regs@,
                item_price@,
                caller@,
            ),
        decreases input.len() - at,
    {
        let instr = match fetch(input, at) {
            Ok(instr) => instr,
            Err(e) => {
                return Err(e);
            },
        };
        match apply(&mut now, instr, item_price, caller) {
            Ok(None) => {},
            Ok(Some(value)) => {
                return Ok(value);
            },
            Err(e) => {
                return Err(e);
            },
        }
        at += instr.size();
    }
    Ok(U256::zero())
}

/// Executes a whole program: decodes its header, then runs its instructions.
///
/// `item_price` and `caller` are what the instructions `itemPrice` and `callerAddress`
/// read. The result is the value of the first return instruction reached (a boolean as 1
/// or 0), zero where the instructions run out, or the first error.
pub fn interpret(input: &[u8], item_price: U256, caller: Address) -> (r: Result<U256, VmError>)
    ensures
        match r {
            Ok(value) => program_result(input@, item_price@, caller@) == Ok::<nat, VmError>(
                value@,
            ),
            Err(e) => program_result(input@, item_price@, caller@) == Err::<nat, VmError>(e),
        },
{
    match load_header(input) {
        Ok((regs, pc)) => run(input, pc, regs, item_price, caller),
        Err(e) => Err(e),
    }
}

} // verus!
