//! The values that the contract stores and hands out.
use vstd::prelude::*;

verus! {

/// Ledgers in a day, at five seconds a ledger.
pub const DAY_IN_LEDGERS: u32 = 17280;
/// How far the instance's lifetime is extended when it is renewed.
pub const INSTANCE_BUMP_AMOUNT: u32 = 7 * DAY_IN_LEDGERS;
/// Below this many remaining ledgers the instance's lifetime is renewed.
pub const INSTANCE_LIFETIME_THRESHOLD: u32 = INSTANCE_BUMP_AMOUNT - DAY_IN_LEDGERS;
/// How far a reserve deposit entry's lifetime is extended when it is renewed.
pub const BALANCE_BUMP_AMOUNT: u32 = 30 * DAY_IN_LEDGERS;
/// Below this many remaining ledgers a reserve deposit entry's lifetime is renewed.
pub const BALANCE_LIFETIME_THRESHOLD: u32 = BALANCE_BUMP_AMOUNT - DAY_IN_LEDGERS;

/// An account or contract on the ledger, named by its strkey
/// (`G...` for an account, `C...` for a contract).
#[derive(Debug, PartialEq, Eq)]
pub struct Address {
    pub strkey: String,
}

impl Clone for Address {
    fn clone(&self) -> (r: Self)
        ensures
            r == *self,
    {
        Address { strkey: self.strkey.clone() }
    }
}

/// Where an errand stands in its lifecycle.
#[derive(Clone, Copy, Debug, PartialEq, Eq, Structural)]
pub enum ErrandState {
    Created,
    Funded,
    Completed,
    Disputed,
    Resolved,
    Released,
}

/// What the reserve holds: the tracked deposits and a balance.
#[derive(Clone, Copy, Debug, PartialEq, Eq, Structural)]
pub struct Reserve {
    pub deposit: i128,
    pub balance: i128,
}

/// The conversion rates and fees of the platform.
#[derive(Clone, Copy, Debug, PartialEq, Eq, Structural)]
pub struct Rates {
    pub off_ramp: i128,
    pub on_ramp: i128,
    pub tx_fee: i128,
    pub platform_fee: i128,
    pub commission_percent: u32,
    pub precision: u32,
}

/// The rates together with the platform's operating accounts.
#[derive(Clone, Debug, PartialEq, Eq)]
pub struct Parameters {
    pub off_ramp: i128,
    pub on_ramp: i128,
    pub tx_fee: i128,
    pub platform_fee: i128,
    pub commission_percent: u32,
    pub precision: u32,
    pub paymaster: Address,
    pub errandgo_account: Address,
}

/// An errand held in escrow.
#[derive(Debug, PartialEq, Eq)]
pub struct ErrandData {
    pub customer_id: String,
    pub customer_wallet: Address,
    pub amount: i128,
    pub runner_id: String,
    pub runner_wallet: Address,
    pub state: ErrandState,
}

impl Clone for ErrandData {
    fn clone(&self) -> (r: Self)
        ensures
            r == *self,
    {
        ErrandData {
            customer_id: self.customer_id.clone(),
            customer_wallet: self.customer_wallet.clone(),
            amount: self.amount,
            runner_id: self.runner_id.clone(),
            runner_wallet: self.runner_wallet.clone(),
            state: self.state,
        }
    }
}

/// An allowance: an amount and the ledger at which it expires.
#[derive(Clone, Copy, Debug, PartialEq, Eq, Structural)]
pub struct AllowanceValue {
    pub amount: i128,
    pub expiration_ledger: u32,
}

} // verus!
