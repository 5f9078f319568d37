//! A verified model of the ErrandGo escrow, errand and payment contract.
//!
//! The contract's storage, and the record of what it asks of its host
//! (authorisations, token transfers, events, code upgrades), live in [`env::Env`].
//! Every entry point of [`contract::ErrandGo`] is a function of that environment
//! whose effect is stated exactly over [`env::EnvView`].
use vstd::prelude::*;

pub mod access;
pub mod arith;
pub mod asset_utils;
pub mod contract;
pub mod data;
pub mod env;
pub mod error;
pub mod errands;
pub mod events;
pub mod laws;
pub mod payment_asset;
pub mod rates;
pub mod reserves;
pub mod table;

verus! {

} // verus!
