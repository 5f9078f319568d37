//! The events that the contract publishes.
use vstd::prelude::*;
use crate::data::{Address, ErrandState};

verus! {

/// Published when a customer converts crypto into fiat.
#[derive(Debug, PartialEq, Eq)]
pub struct OffRampEvent {
    pub customer_id: String,
    pub fiat_amount: i128,
}

/// Published when fiat is converted into crypto and sent to an account.
#[derive(Debug, PartialEq, Eq)]
pub struct OnRampEvent {
    pub account: Address,
    pub crypto_amount: i128,
}

/// Published when an errand enters a new state.
#[derive(Debug, PartialEq, Eq)]
pub struct ErrandStateEvent {
    pub errand_id: String,
    pub state: ErrandState,
}

/// An event, under the topic that its kind names.
#[derive(Debug, PartialEq, Eq)]
pub enum Event {
    OffRamp(OffRampEvent),
    OnRamp(OnRampEvent),
    ErrandState(ErrandStateEvent),
}

} // verus!
