//! The platform's roles: administrator, treasury account and paymaster.
use vstd::prelude::*;
use crate::data::Address;
use crate::env::{Env, EnvView};
use crate::error::ContractError;

verus! {

/// What reading a stored role gives: the address, or `missing` when none is stored.
pub open spec fn role_or(stored: Option<Address>, missing: ContractError) -> Result<Address, ContractError> {
    match stored {
        Some(a) => Ok(a),
        None => Err(missing),
    }
}

/// The administrator, or `AdminNotFound`.
pub fn read_administrator(e: &Env) -> (r: Result<Address, ContractError>)
    ensures
        r == role_or(e@.admin, ContractError::AdminNotFound),
{
    match e.stored_admin() {
        Some(a) => Ok(a),
        None => Err(ContractError::AdminNotFound),
    }
}

/// Stores the treasury account.
pub fn write_errandgo_account(e: &mut Env, id: &Address)
    ensures
        final(e)@ == (EnvView { errandgo_account: Some(*id), ..old(e)@ }),
{
    e.store_errandgo_account(id.clone());
}

/// The treasury account, or `EGAccountNotFound`.
pub fn read_errandgo_account(e: &Env) -> (r: Result<Address, ContractError>)
    ensures
        r == role_or(e@.errandgo_account, ContractError::EGAccountNotFound),
{
    match e.stored_errandgo_account() {
        Some(a) => Ok(a),
        None => Err(ContractError::EGAccountNotFound),
    }
}

/// Stores the paymaster.
pub fn write_paymaster(e: &mut Env, id: &Address)
    ensures
        final(e)@ == (EnvView { paymaster: Some(*id), ..old(e)@ }),
{
    e.store_paymaster(id.clone());
}

/// The paymaster, or `PaymasterNotFound`.
pub fn read_paymaster(e: &Env) -> (r: Result<Address, ContractError>)
    ensures
        r == role_or(e@.paymaster, ContractError::PaymasterNotFound),
{
    match e.stored_paymaster() {
        Some(a) => Ok(a),
        None => Err(ContractError::PaymasterNotFound),
    }
}

/// Stores the administrator.
pub fn write_administrator(e: &mut Env, id: &Address)
    ensures
        final(e)@ == (EnvView { admin: Some(*id), ..old(e)@ }),
{
    e.store_admin(id.clone());
}

} // verus!
