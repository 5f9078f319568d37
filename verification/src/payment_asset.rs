//! The token in which the contract takes and makes payments.
use vstd::prelude::*;
use crate::access::role_or;
use crate::data::Address;
use crate::env::{Env, EnvView};
use crate::error::ContractError;

verus! {

/// The payment asset, or `PaymentAssetNotFound`.
pub fn read_payment_asset(e: &Env) -> (r: Result<Address, ContractError>)
    ensures
        r == role_or(e@.payment_asset, ContractError::PaymentAssetNotFound),
{
    match e.stored_payment_asset() {
        Some(a) => Ok(a),
        None => Err(ContractError::PaymentAssetNotFound),
    }
}

/// Stores the payment asset.
pub fn write_payment_asset(e: &mut Env, asset: &Address)
    ensures
        final(e)@ == (EnvView { payment_asset: Some(*asset), ..old(e)@ }),
{
    e.store_payment_asset(asset.clone());
}

} // verus!
