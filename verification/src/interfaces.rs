use crate::address::Address;
use crate::word::U256;
use vstd::prelude::*;

verus! {

/// The price oracle as a program may ask it. Every call may fail with a diagnostic text.
pub trait IARBPriceConsumer {
    /// The latest price that the oracle knows.
    fn get_latest_price(&self) -> Result<U256, Vec<u8>>;

    /// The address of the feed that the oracle reads.
    fn get_price_feed_address(&self) -> Result<Address, Vec<u8>>;
}

/// The payment vault as a program may ask it. Every call may fail with a diagnostic text.
pub trait IRedotPayVault {
    fn initialize(&mut self) -> Result<(), Vec<u8>>;

    /// Takes a payment in and returns its id.
    fn accept_payment(
        &mut self,
        token: Address,
        amount: U256,
        recipient: Address,
        condition: U256,
        release_time: U256,
    ) -> Result<U256, Vec<u8>>;

    fn freeze_payment(&mut self, payment_id: U256, freeze_period: U256) -> Result<(), Vec<u8>>;

    fn release_payment(&mut self, payment_id: U256) -> Result<(), Vec<u8>>;

    fn refund_payment(&mut self, payment_id: U256) -> Result<(), Vec<u8>>;

    fn get_payment(&self, payment_id: U256) -> Result<
        (Address, Address, Address, U256, U256, U256, U256, U256),
        Vec<u8>,
    >;

    fn get_user_balance(&self, user: Address, token: Address) -> Result<U256, Vec<u8>>;

    fn get_frozen_balance(&self, user: Address, token: Address) -> Result<U256, Vec<u8>>;

    fn get_payment_counter(&self) -> Result<U256, Vec<u8>>;

    fn owner(&self) -> Result<Address, Vec<u8>>;

    fn is_authorized_approver(&self, addr: Address) -> Result<bool, Vec<u8>>;

    fn is_paused(&self) -> Result<bool, Vec<u8>>;

    fn add_approver(&mut self, approver: Address) -> Result<(), Vec<u8>>;

    fn remove_approver(&mut self, approver: Address) -> Result<(), Vec<u8>>;

    fn pause(&mut self) -> Result<(), Vec<u8>>;

    fn unpause(&mut self) -> Result<(), Vec<u8>>;

    fn require_owner(&self) -> Result<(), Vec<u8>>;

    fn require_owner_or_approver(&self) -> Result<(), Vec<u8>>;

    fn require_not_paused(&self) -> Result<(), Vec<u8>>;
}

} // verus!
