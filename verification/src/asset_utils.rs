//! Token transfers between the contract and other accounts.
use vstd::prelude::*;
use crate::data::Address;
use crate::env::{Env, HostCall};

verus! {

/// Moves `amount` of `asset` from `from` into the contract.
pub fn take_asset(e: &mut Env, from: &Address, asset: Address, amount: i128)
    ensures
        final(e)@ == old(e)@.call(HostCall::TakeAsset { from: *from, asset, amount }),
{
    e.record(HostCall::TakeAsset { from: from.clone(), asset, amount });
}

/// Moves `amount` of `asset` from the contract to `to`.
pub fn send_asset(e: &mut Env, to: &Address, asset: Address, amount: i128)
    ensures
        final(e)@ == old(e)@.call(HostCall::SendAsset { to: *to, asset, amount }),
{
    e.record(HostCall::SendAsset { to: to.clone(), asset, amount });
}

} // verus!
