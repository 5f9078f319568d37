//! The errands held in escrow, by errand id.
use vstd::prelude::*;
use crate::data::{Address, ErrandData, ErrandState};
use crate::env::{Env, EnvView};
use crate::error::ContractError;

verus! {

/// The errand stored under `id`, or `ErrandNotFound`.
pub open spec fn errand_in(v: EnvView, id: Seq<char>) -> Result<ErrandData, ContractError> {
    if v.errands.contains_key(id) {
        Ok(v.errands[id])
    } else {
        Err(ContractError::ErrandNotFound)
    }
}

/// The environment with `d` stored under errand id `id`.
pub open spec fn with_errand(v: EnvView, id: Seq<char>, d: ErrandData) -> EnvView {
    EnvView { errands: v.errands.insert(id, d), ..v }
}

/// The environment with no errand under `id`.
pub open spec fn without_errand(v: EnvView, id: Seq<char>) -> EnvView {
    EnvView { errands: v.errands.remove(id), ..v }
}

/// Whether an errand is stored under `errand_id`.
pub fn read_errand_funded(e: &Env, errand_id: String) -> (b: bool)
    ensures
        b == e@.errands.contains_key(errand_id@),
{
    e.has_errand(&errand_id)
}

/// The errand stored under `errand_id`, or `ErrandNotFound`.
pub fn read_errand(e: &Env, errand_id: String) -> (r: Result<ErrandData, ContractError>)
    ensures
        r == errand_in(e@, errand_id@),
{
    match e.stored_errand(&errand_id) {
        Some(d) => Ok(d),
        None => Err(ContractError::ErrandNotFound),
    }
}

/// Stores a newly funded errand under `errand_id`.
pub fn write_errand(
    e: &mut Env,
    errand_id: String,
    customer_id: String,
    customer_wallet: Address,
    amount: i128,
    runner_id: String,
    runner_wallet: Address,
)
    ensures
        final(e)@ == with_errand(
            old(e)@,
            errand_id@,
            ErrandData {
                customer_id,
                customer_wallet,
                amount,
                runner_id,
                runner_wallet,
                state: ErrandState::Funded,
            },
        ),
{
    e.store_errand(
        errand_id,
        ErrandData {
            customer_id,
            customer_wallet,
            amount,
            runner_id,
            runner_wallet,
            state: ErrandState::Funded,
        },
    );
}

/// Stores `errand` under `errand_id`, in place of what was there.
pub fn write_update_errand(e: &mut Env, errand_id: String, errand: ErrandData)
    ensures
        final(e)@ == with_errand(old(e)@, errand_id@, errand),
{
    e.store_errand(errand_id, errand);
}

/// Removes the errand under `errand_id`, or answers `ErrandNotFound` when there is none.
pub fn write_remove_errand(e: &mut Env, errand_id: String) -> (r: Result<(), ContractError>)
    ensures
        old(e)@.errands.contains_key(errand_id@) ==> r == Ok::<(), ContractError>(())
            && final(e)@ == without_errand(old(e)@, errand_id@),
        !old(e)@.errands.contains_key(errand_id@) ==> r == Err::<(), ContractError>(
            ContractError::ErrandNotFound,
        ) && final(e)@ == old(e)@,
{
    if !e.has_errand(&errand_id) {
        return Err(ContractError::ErrandNotFound);
    }
    e.delete_errand(&errand_id);
    Ok(())
}

} // verus!
