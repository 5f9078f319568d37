//! The reserve: liquidity deposited with the contract, tracked per asset.
use vstd::prelude::*;
use crate::data::{Address, BALANCE_BUMP_AMOUNT, BALANCE_LIFETIME_THRESHOLD};
use crate::env::{Env, EnvView, HostCall};
use crate::error::ContractError;
use crate::payment_asset::read_payment_asset;

verus! {

/// The deposit tracked for `asset`; zero while none is stored.
pub open spec fn deposit_in(v: EnvView, asset: Address) -> i128 {
    if v.reserve_deposits.contains_key(asset.strkey@) {
        v.reserve_deposits[asset.strkey@]
    } else {
        0
    }
}

/// `a + b`, clamped to the range of `i128`.
pub open spec fn saturated_sum(a: i128, b: i128) -> i128 {
    if a + b > i128::MAX {
        i128::MAX
    } else if a + b < i128::MIN {
        i128::MIN
    } else {
        (a + b) as i128
    }
}

/// `a + b`, clamped to the range of `i128`.
pub fn saturating_add_i128(a: i128, b: i128) -> (r: i128)
    ensures
        r == saturated_sum(a, b),
{
    match a.checked_add(b) {
        Some(s) => s,
        None => if b > 0 { i128::MAX } else { i128::MIN },
    }
}

/// The request that renews the lifetime of the reserve deposit entry of `asset`.
pub open spec fn renew_deposit(asset: Address) -> HostCall {
    HostCall::ExtendReserveTtl {
        asset,
        threshold: BALANCE_LIFETIME_THRESHOLD,
        extend_to: BALANCE_BUMP_AMOUNT,
    }
}

/// The environment after the deposit of `asset` was read: an existing entry
/// has its lifetime renewed.
pub open spec fn after_deposit_read(v: EnvView, asset: Address) -> EnvView {
    if v.reserve_deposits.contains_key(asset.strkey@) {
        v.call(renew_deposit(asset))
    } else {
        v
    }
}

/// The environment with the deposit for `asset` set to `amount`, and the
/// entry's lifetime renewed.
pub open spec fn with_deposit(v: EnvView, asset: Address, amount: i128) -> EnvView {
    EnvView { reserve_deposits: v.reserve_deposits.insert(asset.strkey@, amount), ..v }.call(
        renew_deposit(asset),
    )
}

/// What removing `amount` from the reserve of `asset` does, given the
/// contract's balance of the payment asset at that moment.
pub open spec fn remove_reserve_outcome(v: EnvView, asset: Address, amount: i128, reserve_balance: i128)
    -> (EnvView, Result<(), ContractError>)
{
    let deposit = deposit_in(v, asset);
    let v1 = after_deposit_read(v, asset);
    if v.payment_asset is None {
        (v1, Err(ContractError::PaymentAssetNotFound))
    } else if reserve_balance < amount {
        (v1, Err(ContractError::InsufficientBalance))
    } else if deposit - amount < i128::MIN || deposit - amount > i128::MAX {
        (v1, Err(ContractError::Underflow))
    } else {
        (with_deposit(v1, asset, (deposit - amount) as i128), Ok(()))
    }
}

/// The deposit tracked for `asset`; zero while none is stored. An existing
/// entry has its lifetime renewed.
pub fn read_reserve_deposit(e: &mut Env, asset: Address) -> (r: i128)
    ensures
        r == deposit_in(old(e)@, asset),
        final(e)@ == after_deposit_read(old(e)@, asset),
{
    match e.stored_reserve_deposit(&asset) {
        Some(d) => {
            e.record(HostCall::ExtendReserveTtl {
                asset,
                threshold: BALANCE_LIFETIME_THRESHOLD,
                extend_to: BALANCE_BUMP_AMOUNT,
            });
            d
        },
        None => 0,
    }
}

/// Sets the deposit tracked for `asset`, and renews the entry's lifetime.
pub fn write_reserve_deposit(e: &mut Env, asset: Address, amount: i128)
    ensures
        final(e)@ == with_deposit(old(e)@, asset, amount),
{
    e.store_reserve_deposit(&asset, amount);
    e.record(HostCall::ExtendReserveTtl {
        asset,
        threshold: BALANCE_LIFETIME_THRESHOLD,
        extend_to: BALANCE_BUMP_AMOUNT,
    });
}

/// Adds `amount` to the deposit tracked for `asset`, saturating at the bounds of `i128`.
pub fn write_add_reserve(e: &mut Env, asset: Address, amount: i128)
    ensures
        final(e)@ == with_deposit(
            after_deposit_read(old(e)@, asset),
            asset,
            saturated_sum(deposit_in(old(e)@, asset), amount),
        ),
{
    let balance = read_reserve_deposit(e, asset.clone());
    write_reserve_deposit(e, asset, saturating_add_i128(balance, amount));
}

/// Takes `amount` off the deposit tracked for `asset`. `reserve_balance` is what
/// the payment asset reports the contract to hold when the removal is made; the
/// removal is refused when it is below `amount`, and when the new deposit would
/// leave the range of `i128`.
pub fn write_remove_reserve(e: &mut Env, asset: Address, amount: i128, reserve_balance: i128)
    -> (r: Result<(), ContractError>)
    ensures
        (final(e)@, r) == remove_reserve_outcome(old(e)@, asset, amount, reserve_balance),
{
    let deposit = read_reserve_deposit(e, asset.clone());
    let _payment_asset = match read_payment_asset(e) {
        Ok(a) => a,
        Err(err) => return Err(err),
    };
    if reserve_balance < amount {
        return Err(ContractError::InsufficientBalance);
    }
    let new_deposit = match deposit.checked_sub(amount) {
        Some(d) => d,
        None => return Err(ContractError::Underflow),
    };
    write_reserve_deposit(e, asset, new_deposit);
    Ok(())
}

} // verus!
