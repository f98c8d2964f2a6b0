use crate::address::Address;
use crate::error::VmError;
use crate::interp::{interpret, program_result, special_value};
use crate::word::{wrapping_add, wrapping_mul, wrapping_product, wrapping_sum, U256};
use vstd::prelude::*;

verus! {

/// What a caller outside sees of an execution: the result, or the text of the error.
pub open spec fn reported(outcome: Result<nat, VmError>) -> Result<nat, Seq<u8>> {
    match outcome {
        Ok(value) => Ok(value),
        Err(e) => Err(e.message_spec()),
    }
}

/// The virtual machine: the operations on 256-bit integers and the interpreter that
/// applies them to the registers of a program.
///
/// It remembers the addresses of the two services that a program may ask: the price
/// oracle and the payment vault.
pub struct VM {
    arb_price_consumer: Address,
    redot_pay_vault: Address,
}

impl VM {
    /// The address of the price oracle that the machine was made with.
    pub closed spec fn price_consumer(&self) -> Address {
        self.arb_price_consumer
    }

    /// The address of the payment vault that the machine was made with.
    pub closed spec fn pay_vault(&self) -> Address {
        self.redot_pay_vault
    }

    /// A machine that knows the price oracle and the payment vault by their addresses.
    /// Never fails.
    pub fn new(arb_price_consumer_address: Address, redot_pay_vault_address: Address) -> (r:
        Result<VM, Vec<u8>>)
        ensures
            r matches Ok(vm) && vm.price_consumer() == arb_price_consumer_address
                && vm.pay_vault() == redot_pay_vault_address,
    {
        Ok(
            VM {
                arb_price_consumer: arb_price_consumer_address,
                redot_pay_vault: redot_pay_vault_address,
            },
        )
    }

    /// `a + b`, wrapping around at 2^256.
    pub fn add(&self, a: U256, b: U256) -> (r: U256)
        ensures
            r@ == wrapping_sum(a@, b@),
    {
        wrapping_add(a, b)
    }

    /// `a * b`, wrapping around at 2^256.
    pub fn mul(&self, a: U256, b: U256) -> (r: U256)
        ensures
            r@ == wrapping_product(a@, b@),
    {
        wrapping_mul(a, b)
    }

    /// `a - b`. Fails with the text of `ArithmeticUnderflow` exactly when `a` is below `b`.
    pub fn sub(&self, a: U256, b: U256) -> (r: Result<U256, Vec<u8>>)
        ensures
            match r {
                Ok(difference) => a@ >= b@ && difference@ + b@ == a@,
                Err(text) => a@ < b@ && text@ == VmError::ArithmeticUnderflow.message_spec(),
            },
    {
        match a.checked_sub(b) {
            Some(difference) => Ok(difference),
            None => Err(VmError::ArithmeticUnderflow.message()),
        }
    }

    /// `a / b`, rounded down. Fails with the text of `DivisionByZero` exactly when `b` is
    /// zero.
    pub fn div(&self, a: U256, b: U256) -> (r: Result<U256, Vec<u8>>)
        ensures
            match r {
                Ok(quotient) => b@ != 0 && quotient@ == a@ / b@ && quotient@ * b@ + a@ % b@
                    == a@,
                Err(text) => b@ == 0 && text@ == VmError::DivisionByZero.message_spec(),
            },
    {
        match a.checked_div(b) {
            Some(quotient) => {
                proof {
                    vstd::arithmetic::div_mod::lemma_fundamental_div_mod(a@ as int, b@ as int);
                    vstd::arithmetic::mul::lemma_mul_is_commutative(b@ as int, (a@ / b@) as int);
                }
                Ok(quotient)
            },
            None => Err(VmError::DivisionByZero.message()),
        }
    }

    /// The constant 69.
    pub fn special(&self) -> (r: U256)
        ensures
            r@ == special_value(),
    {
        U256::from_u64(69)
    }

    /// Whether `a` is even.
    pub fn is_even(&self, a: U256) -> (r: bool)
        ensures
            r == (a@ % 2 == 0),
    {
        a.is_even()
    }

    /// Whether `a` and `b` are the same number.
    pub fn equal(&self, a: U256, b: U256) -> (r: bool)
        ensures
            r == (a@ == b@),
    {
        a.same(&b)
    }

    /// Whether `a` is above `b`.
    pub fn greater_than(&self, a: U256, b: U256) -> (r: bool)
        ensures
            r == (a@ > b@),
    {
        b.lt(&a)
    }

    /// Whether `a` is below `b`.
    pub fn less_than(&self, a: U256, b: U256) -> (r: bool)
        ensures
            r == (a@ < b@),
    {
        a.lt(&b)
    }

    /// Executes the program `input` for the given item price and caller, and leaves the
    /// machine as it was.
    ///
    /// Returns the result of the program, or the text of the error that ended it.
    pub fn execute(&mut self, input: Vec<u8>, item_price: U256, caller: Address) -> (r: Result<
        U256,
        Vec<u8>,
    >)
        ensures
            *final(self) == *old(self),
            match r {
                Ok(value) => reported(program_result(input@, item_price@, caller@)) == Ok::<
                    nat,
                    Seq<u8>,
                >(value@),
                Err(text) => reported(program_result(input@, item_price@, caller@)) == Err::<
                    nat,
                    Seq<u8>,
                >(text@),
            },
    {
        match interpret(input.as_slice(), item_price, caller) {
            Ok(value) => Ok(value),
            Err(e) => Err(e.message()),
        }
    }

    /// The address of the price oracle.
    pub fn arb_price_consumer(&self) -> (r: Address)
        ensures
            r == self.price_consumer(),
    {
        self.arb_price_consumer
    }

    /// The address of the payment vault.
    pub fn redot_pay_vault(&self) -> (r: Address)
        ensures
            r == self.pay_vault(),
    {
        self.redot_pay_vault
    }
}

} // verus!
