//! The entry points of the ErrandGo contract.
//!
//! Each entry point is a function of the environment. Its contract names the
//! environment after the call (storage and the requests made of the host, in
//! order) and the result, by an `*_outcome` spec function below. On a refusal
//! the storage is left as it was; the host requests made before the refusal
//! (such as an authorisation) stay on record, as the host performs them before
//! the invocation ends.
use vstd::prelude::*;
use crate::access::{
    read_administrator, read_errandgo_account, read_paymaster, write_administrator,
    write_errandgo_account, write_paymaster,
};
use crate::arith::{converted, convert, in_i128, share, share_of};
use crate::asset_utils::{send_asset, take_asset};
use crate::data::{
    Address, ErrandData, ErrandState, Parameters, Rates, Reserve, INSTANCE_BUMP_AMOUNT,
    INSTANCE_LIFETIME_THRESHOLD,
};
use crate::env::{Env, EnvView, HostCall};
use crate::errands::{
    errand_in, read_errand, read_errand_funded, with_errand, without_errand, write_errand,
    write_remove_errand, write_update_errand,
};
use crate::error::ContractError;
use crate::events::{ErrandStateEvent, Event, OffRampEvent, OnRampEvent};
use crate::payment_asset::{read_payment_asset, write_payment_asset};
use crate::rates::{rates_in, read_rates, write_rates};
use crate::reserves::{
    after_deposit_read, deposit_in, read_reserve_deposit, saturated_sum, with_deposit, write_add_reserve,
};

verus! {

/// `Ok(())` for an amount of at least zero, `NegativeAmount` below zero.
pub fn check_nonnegative_amount(amount: i128) -> (r: Result<(), ContractError>)
    ensures
        r == (if amount < 0 {
            Err(ContractError::NegativeAmount)
        } else {
            Ok::<(), ContractError>(())
        }),
{
    if amount < 0 {
        return Err(ContractError::NegativeAmount);
    }
    Ok(())
}

/// The environment after the host was asked to check `a`'s authorisation.
pub open spec fn authorised(v: EnvView, a: Address) -> EnvView {
    v.call(HostCall::RequireAuth(a))
}

/// What `update_rates` does.
pub open spec fn update_rates_outcome(
    v: EnvView,
    off_ramp: i128,
    on_ramp: i128,
    tx_fee: i128,
    platform_fee: i128,
    commission_percent: u32,
    precision: u32,
) -> (EnvView, Result<(), ContractError>) {
    match v.admin {
        None => (v, Err(ContractError::AdminNotFound)),
        Some(admin) => (
            EnvView {
                rates: Some(Rates { off_ramp, on_ramp, tx_fee, platform_fee, commission_percent, precision }),
                ..authorised(v, admin)
            },
            Ok(()),
        ),
    }
}

/// What `update_admin` does.
pub open spec fn update_admin_outcome(v: EnvView, id: Address) -> (EnvView, Result<(), ContractError>) {
    match v.admin {
        None => (v, Err(ContractError::AdminNotFound)),
        Some(admin) => (EnvView { admin: Some(id), ..authorised(v, admin) }, Ok(())),
    }
}

/// What `update_errandgo_account` does.
pub open spec fn update_errandgo_account_outcome(v: EnvView, id: Address) -> (EnvView, Result<(), ContractError>) {
    match v.admin {
        None => (v, Err(ContractError::AdminNotFound)),
        Some(admin) => (EnvView { errandgo_account: Some(id), ..authorised(v, admin) }, Ok(())),
    }
}

/// What `update_paymaster` does.
pub open spec fn update_paymaster_outcome(v: EnvView, id: Address) -> (EnvView, Result<(), ContractError>) {
    match v.admin {
        None => (v, Err(ContractError::AdminNotFound)),
        Some(admin) => (EnvView { paymaster: Some(id), ..authorised(v, admin) }, Ok(())),
    }
}

/// What `deposit_to_reserve` does.
pub open spec fn deposit_to_reserve_outcome(v: EnvView, from: Address, amount: i128)
    -> (EnvView, Result<(), ContractError>)
{
    let v1 = authorised(v, from);
    if amount < 0 {
        (v1, Err(ContractError::NegativeAmount))
    } else {
        match v.payment_asset {
            None => (v1, Err(ContractError::PaymentAssetNotFound)),
            Some(asset) => (
                with_deposit(
                    after_deposit_read(v1.call(HostCall::TakeAsset { from, asset, amount }), asset),
                    asset,
                    saturated_sum(deposit_in(v, asset), amount),
                ),
                Ok(()),
            ),
        }
    }
}

/// What `withdraw_from_reserve` does: the checks and the transfer. The
/// deposit is then taken down by `write_remove_reserve`, once the contract's
/// balance after the transfer is known.
pub open spec fn withdraw_from_reserve_outcome(v: EnvView, to: Address, amount: i128)
    -> (EnvView, Result<(), ContractError>)
{
    match v.admin {
        None => (v, Err(ContractError::AdminNotFound)),
        Some(admin) => {
            let v1 = authorised(v, admin);
            if amount < 0 {
                (v1, Err(ContractError::NegativeAmount))
            } else {
                match v.payment_asset {
                    None => (v1, Err(ContractError::PaymentAssetNotFound)),
                    Some(asset) => (v1.call(HostCall::SendAsset { to, asset, amount }), Ok(())),
                }
            }
        },
    }
}

/// What `on_ramp` does.
pub open spec fn on_ramp_outcome(v: EnvView, to: Address, fiat_amount: i128)
    -> (EnvView, Result<(Address, i128), ContractError>)
{
    match v.paymaster {
        None => (v, Err(ContractError::PaymasterNotFound)),
        Some(paymaster) => {
            let v1 = authorised(v, paymaster);
            let rates = rates_in(v);
            if fiat_amount < 0 {
                (v1, Err(ContractError::NegativeAmount))
            } else {
                match converted(fiat_amount, rates.on_ramp, rates.precision) {
                    Err(e) => (v1, Err(e)),
                    Ok(amount) => match v.payment_asset {
                        None => (v1, Err(ContractError::PaymentAssetNotFound)),
                        Some(asset) => (
                            v1.call(HostCall::SendAsset { to, asset, amount }).call(
                                HostCall::Publish(Event::OnRamp(OnRampEvent { account: to, crypto_amount: amount })),
                            ),
                            Ok((to, amount)),
                        ),
                    },
                }
            }
        },
    }
}

/// What `off_ramp` does.
pub open spec fn off_ramp_outcome(v: EnvView, from: Address, customer_id: String, amount: i128)
    -> (EnvView, Result<(String, i128), ContractError>)
{
    let v1 = authorised(v, from);
    let rates = rates_in(v);
    if amount < 0 {
        (v1, Err(ContractError::NegativeAmount))
    } else {
        match v.payment_asset {
            None => (v1, Err(ContractError::PaymentAssetNotFound)),
            Some(asset) => if !in_i128(amount + rates.tx_fee) {
                (v1, Err(ContractError::Overflow))
            } else {
                let v2 = v1.call(HostCall::TakeAsset { from, asset, amount: (amount + rates.tx_fee) as i128 });
                match v.errandgo_account {
                    None => (v2, Err(ContractError::EGAccountNotFound)),
                    Some(account) => {
                        let v3 = v2.call(HostCall::SendAsset { to: account, asset, amount: rates.tx_fee });
                        match converted(amount, rates.off_ramp, rates.precision) {
                            Err(e) => (v3, Err(e)),
                            Ok(fiat_amount) => (
                                v3.call(HostCall::Publish(Event::OffRamp(OffRampEvent { customer_id, fiat_amount }))),
                                Ok((customer_id, fiat_amount)),
                            ),
                        }
                    },
                }
            },
        }
    }
}

/// What `fund_errand_escrow` does.
pub open spec fn fund_errand_escrow_outcome(
    v: EnvView,
    errand_id: String,
    customer_id: String,
    customer_wallet: Address,
    runner_id: String,
    runner_wallet: Address,
    fiat_amount: i128,
) -> (EnvView, Result<(String, i128), ContractError>) {
    let rates = rates_in(v);
    if v.errands.contains_key(errand_id@) {
        (v, Err(ContractError::ErrandAlreadyFunded))
    } else {
        let v1 = authorised(v, customer_wallet);
        if fiat_amount < 0 {
            (v1, Err(ContractError::NegativeAmount))
        } else {
            match converted(fiat_amount, rates.on_ramp, rates.precision) {
                Err(e) => (v1, Err(e)),
                Ok(amount) => if !in_i128(amount + rates.platform_fee) {
                    (v1, Err(ContractError::Overflow))
                } else {
                    match v.payment_asset {
                        None => (v1, Err(ContractError::PaymentAssetNotFound)),
                        Some(asset) => {
                            let v2 = v1.call(HostCall::TakeAsset {
                                from: customer_wallet,
                                asset,
                                amount: (amount + rates.platform_fee) as i128,
                            });
                            let errand = ErrandData {
                                customer_id,
                                customer_wallet,
                                amount,
                                runner_id,
                                runner_wallet,
                                state: ErrandState::Funded,
                            };
                            (
                                with_errand(v2, errand_id@, errand).call(HostCall::Publish(
                                    Event::ErrandState(ErrandStateEvent { errand_id, state: ErrandState::Funded }),
                                )),
                                Ok((errand_id, amount)),
                            )
                        },
                    }
                },
            }
        }
    }
}

/// What the paymaster's move of a funded errand into `next` does
/// (`mark_errand_completed`, `mark_errand_disputed`).
pub open spec fn mark_errand_outcome(v: EnvView, errand_id: String, next: ErrandState)
    -> (EnvView, Result<(String, ErrandState), ContractError>)
{
    match v.paymaster {
        None => (v, Err(ContractError::PaymasterNotFound)),
        Some(paymaster) => {
            let v1 = authorised(v, paymaster);
            match errand_in(v, errand_id@) {
                Err(e) => (v1, Err(e)),
                Ok(errand) => if errand.state != ErrandState::Funded {
                    (v1, Err(ContractError::InvalidErrandState))
                } else {
                    (
                        with_errand(v1, errand_id@, ErrandData { state: next, ..errand }).call(
                            HostCall::Publish(Event::ErrandState(ErrandStateEvent { errand_id, state: next })),
                        ),
                        Ok((errand_id, next)),
                    )
                },
            }
        },
    }
}

/// What `release_errand_escrow` does.
pub open spec fn release_errand_escrow_outcome(v: EnvView, errand_id: String)
    -> (EnvView, Result<(String, ErrandState), ContractError>)
{
    let rates = rates_in(v);
    let runner_percent = 100 - rates.commission_percent;
    if runner_percent < 0 {
        (v, Err(ContractError::NegativeAmount))
    } else {
        match v.paymaster {
            None => (v, Err(ContractError::PaymasterNotFound)),
            Some(paymaster) => {
                let v1 = authorised(v, paymaster);
                match errand_in(v, errand_id@) {
                    Err(e) => (v1, Err(e)),
                    Ok(errand) => if errand.state != ErrandState::Completed {
                        (v1, Err(ContractError::UnCompletedErrandState))
                    } else {
                        match v.payment_asset {
                            None => (v1, Err(ContractError::PaymentAssetNotFound)),
                            Some(asset) => match share_of(errand.amount, rates.commission_percent as int) {
                                Err(e) => (v1, Err(e)),
                                Ok(commission) => if !in_i128(rates.platform_fee + commission) {
                                    (v1, Err(ContractError::Overflow))
                                } else {
                                    match share_of(errand.amount, runner_percent) {
                                        Err(e) => (v1, Err(e)),
                                        Ok(runner_amount) => match v.errandgo_account {
                                            None => (v1, Err(ContractError::EGAccountNotFound)),
                                            Some(account) => {
                                                let v2 = v1.call(HostCall::SendAsset {
                                                    to: account,
                                                    asset,
                                                    amount: (rates.platform_fee + commission) as i128,
                                                }).call(HostCall::SendAsset {
                                                    to: errand.runner_wallet,
                                                    asset,
                                                    amount: runner_amount,
                                                });
                                                (without_errand(v2, errand_id@), Ok((errand_id, ErrandState::Released)))
                                            },
                                        },
                                    }
                                },
                            },
                        }
                    },
                }
            },
        }
    }
}

/// What `resolve_disputed_errand` does.
pub open spec fn resolve_disputed_errand_outcome(v: EnvView, errand_id: String, cust_percent: u32)
    -> (EnvView, Result<(String, ErrandState), ContractError>)
{
    let rates = rates_in(v);
    let diff = rates.commission_percent + cust_percent;
    let runner_percent = 100 - diff;
    if diff > u32::MAX {
        (v, Err(ContractError::Overflow))
    } else if runner_percent < 0 {
        (v, Err(ContractError::NegativeAmount))
    } else {
        match v.admin {
            None => (v, Err(ContractError::AdminNotFound)),
            Some(admin) => {
                let v1 = authorised(v, admin);
                match errand_in(v, errand_id@) {
                    Err(e) => (v1, Err(e)),
                    Ok(errand) => if errand.state != ErrandState::Disputed {
                        (v1, Err(ContractError::UndisputedErrandState))
                    } else {
                        match v.payment_asset {
                            None => (v1, Err(ContractError::PaymentAssetNotFound)),
                            Some(asset) => match share_of(errand.amount, rates.commission_percent as int) {
                                Err(e) => (v1, Err(e)),
                                Ok(commission) => if !in_i128(rates.platform_fee + commission) {
                                    (v1, Err(ContractError::Overflow))
                                } else {
                                    match share_of(errand.amount, cust_percent as int) {
                                        Err(e) => (v1, Err(e)),
                                        Ok(customer_amount) => match share_of(errand.amount, runner_percent) {
                                            Err(e) => (v1, Err(e)),
                                            Ok(runner_amount) => match v.errandgo_account {
                                                None => (v1, Err(ContractError::EGAccountNotFound)),
                                                Some(account) => {
                                                    let v2 = v1.call(HostCall::SendAsset {
                                                        to: account,
                                                        asset,
                                                        amount: (rates.platform_fee + commission) as i128,
                                                    }).call(HostCall::SendAsset {
                                                        to: errand.customer_wallet,
                                                        asset,
                                                        amount: customer_amount,
                                                    }).call(HostCall::SendAsset {
                                                        to: errand.runner_wallet,
                                                        asset,
                                                        amount: runner_amount,
                                                    });
                                                    (without_errand(v2, errand_id@), Ok((errand_id, ErrandState::Resolved)))
                                                },
                                            },
                                        },
                                    }
                                },
                            },
                        }
                    },
                }
            },
        }
    }
}

/// What `get_reserve` does: it answers the tracked deposit of the payment
/// asset, renewing the lifetime of the instance and of the deposit entry.
pub open spec fn get_reserve_outcome(v: EnvView) -> (EnvView, Result<Reserve, ContractError>) {
    match v.payment_asset {
        None => (v, Err(ContractError::PaymentAssetNotFound)),
        Some(asset) => (
            after_deposit_read(
                v.call(HostCall::ExtendInstanceTtl {
                    threshold: INSTANCE_LIFETIME_THRESHOLD,
                    extend_to: INSTANCE_BUMP_AMOUNT,
                }),
                asset,
            ),
            Ok(Reserve { deposit: deposit_in(v, asset), balance: 0 }),
        ),
    }
}

/// What `get_parameters` answers.
pub open spec fn parameters_in(v: EnvView) -> Result<Parameters, ContractError> {
    let rates = rates_in(v);
    match v.paymaster {
        None => Err(ContractError::PaymasterNotFound),
        Some(paymaster) => match v.errandgo_account {
            None => Err(ContractError::EGAccountNotFound),
            Some(errandgo_account) => Ok(Parameters {
                on_ramp: rates.on_ramp,
                off_ramp: rates.off_ramp,
                tx_fee: rates.tx_fee,
                platform_fee: rates.platform_fee,
                commission_percent: rates.commission_percent,
                precision: rates.precision,
                paymaster,
                errandgo_account,
            }),
        },
    }
}

/// What `upgrade` does.
pub open spec fn upgrade_outcome(v: EnvView, wasm: [u8; 32]) -> (EnvView, Result<(), ContractError>) {
    match v.admin {
        None => (v, Err(ContractError::AdminNotFound)),
        Some(admin) => (authorised(v, admin).call(HostCall::UpdateContractWasm(wasm)), Ok(())),
    }
}

/// The ErrandGo contract.
pub struct ErrandGo;

impl ErrandGo {
    /// Sets up a new instance: its roles, payment asset and rates.
    /// A precision above 18 is refused by the caller (the deployment aborts).
    pub fn __constructor(
        e: &mut Env,
        admin: Address,
        errandgo_account: Address,
        paymaster: Address,
        asset: Address,
        on_ramp: i128,
        off_ramp: i128,
        tx_fee: i128,
        platform_fee: i128,
        commission_percent: u32,
        precision: u32,
    )
        requires
            precision <= 18,
        ensures
            final(e)@ == (EnvView {
                admin: Some(admin),
                errandgo_account: Some(errandgo_account),
                paymaster: Some(paymaster),
                payment_asset: Some(asset),
                rates: Some(Rates { off_ramp, on_ramp, tx_fee, platform_fee, commission_percent, precision }),
                ..old(e)@
            }),
    {
        write_administrator(e, &admin);
        write_errandgo_account(e, &errandgo_account);
        write_paymaster(e, &paymaster);
        write_payment_asset(e, &asset);
        write_rates(e, off_ramp, on_ramp, tx_fee, platform_fee, commission_percent, precision);
    }

    /// Replaces the rates; the administrator must authorise.
    pub fn update_rates(
        e: &mut Env,
        off_ramp: i128,
        on_ramp: i128,
        tx_fee: i128,
        platform_fee: i128,
        commission_percent: u32,
        precision: u32,
    ) -> (r: Result<(), ContractError>)
        ensures
            (final(e)@, r) == update_rates_outcome(
                old(e)@,
                off_ramp,
                on_ramp,
                tx_fee,
                platform_fee,
                commission_percent,
                precision,
            ),
    {
        let admin = read_administrator(e)?;
        e.record(HostCall::RequireAuth(admin));
        write_rates(e, off_ramp, on_ramp, tx_fee, platform_fee, commission_percent, precision);
        Ok(())
    }

    /// Replaces the administrator; the current administrator must authorise.
    pub fn update_admin(e: &mut Env, id: Address) -> (r: Result<(), ContractError>)
        ensures
            (final(e)@, r) == update_admin_outcome(old(e)@, id),
    {
        let admin = read_administrator(e)?;
        e.record(HostCall::RequireAuth(admin));
        write_administrator(e, &id);
        Ok(())
    }

    /// Replaces the treasury account; the administrator must authorise.
    pub fn update_errandgo_account(e: &mut Env, id: Address) -> (r: Result<(), ContractError>)
        ensures
            (final(e)@, r) == update_errandgo_account_outcome(old(e)@, id),
    {
        let admin = read_administrator(e)?;
        e.record(HostCall::RequireAuth(admin));
        write_errandgo_account(e, &id);
        Ok(())
    }

    /// Replaces the paymaster; the administrator must authorise.
    pub fn update_paymaster(e: &mut Env, id: Address) -> (r: Result<(), ContractError>)
        ensures
            (final(e)@, r) == update_paymaster_outcome(old(e)@, id),
    {
        let admin = read_administrator(e)?;
        e.record(HostCall::RequireAuth(admin));
        write_paymaster(e, &id);
        Ok(())
    }

    /// `from` deposits `amount` of the payment asset into the reserve.
    pub fn deposit_to_reserve(e: &mut Env, from: Address, amount: i128) -> (r: Result<(), ContractError>)
        ensures
            (final(e)@, r) == deposit_to_reserve_outcome(old(e)@, from, amount),
    {
        e.record(HostCall::RequireAuth(from.clone()));
        check_nonnegative_amount(amount)?;
        let asset = read_payment_asset(e)?;
        take_asset(e, &from, asset.clone(), amount);
        write_add_reserve(e, asset, amount);
        Ok(())
    }

    /// The administrator sends `amount` of the payment asset from the reserve
    /// to `to`. The deposit is taken down afterwards by `write_remove_reserve`,
    /// with the contract's balance as the asset reports it after the transfer.
    pub fn withdraw_from_reserve(e: &mut Env, to: Address, amount: i128) -> (r: Result<(), ContractError>)
        ensures
            (final(e)@, r) == withdraw_from_reserve_outcome(old(e)@, to, amount),
    {
        let admin = read_administrator(e)?;
        e.record(HostCall::RequireAuth(admin));
        check_nonnegative_amount(amount)?;
        let asset = read_payment_asset(e)?;
        send_asset(e, &to, asset, amount);
        Ok(())
    }

    /// The paymaster converts `fiat_amount` into the payment asset at the
    /// on-ramp rate and sends it to `to`.
    pub fn on_ramp(e: &mut Env, to: Address, fiat_amount: i128) -> (r: Result<(Address, i128), ContractError>)
        ensures
            (final(e)@, r) == on_ramp_outcome(old(e)@, to, fiat_amount),
    {
        let paymaster = read_paymaster(e)?;
        e.record(HostCall::RequireAuth(paymaster));
        check_nonnegative_amount(fiat_amount)?;
        let rates = read_rates(e);
        let amount = convert(fiat_amount, rates.on_ramp, rates.precision)?;
        let asset = read_payment_asset(e)?;
        send_asset(e, &to, asset, amount);
        e.record(HostCall::Publish(Event::OnRamp(OnRampEvent { account: to.clone(), crypto_amount: amount })));
        Ok((to, amount))
    }

    /// `from` pays `amount` plus the transaction fee; the fee goes to the
    /// treasury and the fiat value of `amount`, at the off-ramp rate, is
    /// announced for settlement to `customer_id`.
    pub fn off_ramp(e: &mut Env, from: Address, customer_id: String, amount: i128)
        -> (r: Result<(String, i128), ContractError>)
        ensures
            (final(e)@, r) == off_ramp_outcome(old(e)@, from, customer_id, amount),
    {
        e.record(HostCall::RequireAuth(from.clone()));
        check_nonnegative_amount(amount)?;
        let asset = read_payment_asset(e)?;
        let rates = read_rates(e);
        let total_amount = amount.checked_add(rates.tx_fee).ok_or(ContractError::Overflow)?;
        take_asset(e, &from, asset.clone(), total_amount);
        let errand_account = read_errandgo_account(e)?;
        send_asset(e, &errand_account, asset, rates.tx_fee);
        let fiat_amount = convert(amount, rates.off_ramp, rates.precision)?;
        e.record(HostCall::Publish(Event::OffRamp(OffRampEvent {
            customer_id: customer_id.clone(),
            fiat_amount,
        })));
        Ok((customer_id, fiat_amount))
    }

    /// The customer funds a new errand: the on-ramp value of `fiat_amount`
    /// plus the platform fee is taken into escrow and the errand is stored as funded.
    pub fn fund_errand_escrow(
        e: &mut Env,
        errand_id: String,
        customer_id: String,
        customer_wallet: Address,
        runner_id: String,
        runner_wallet: Address,
        fiat_amount: i128,
    ) -> (r: Result<(String, i128), ContractError>)
        ensures
            (final(e)@, r) == fund_errand_escrow_outcome(
                old(e)@,
                errand_id,
                customer_id,
                customer_wallet,
                runner_id,
                runner_wallet,
                fiat_amount,
            ),
    {
        if read_errand_funded(e, errand_id.clone()) {
            return Err(ContractError::ErrandAlreadyFunded);
        }
        e.record(HostCall::RequireAuth(customer_wallet.clone()));
        check_nonnegative_amount(fiat_amount)?;
        let rates = read_rates(e);
        let amount = convert(fiat_amount, rates.on_ramp, rates.precision)?;
        let rate = read_rates(e);
        let amount_total = amount.checked_add(rate.platform_fee).ok_or(ContractError::Overflow)?;
        let asset = read_payment_asset(e)?;
        take_asset(e, &customer_wallet, asset, amount_total);
        write_errand(e, errand_id.clone(), customer_id, customer_wallet, amount, runner_id, runner_wallet);
        e.record(HostCall::Publish(Event::ErrandState(ErrandStateEvent {
            errand_id: errand_id.clone(),
            state: ErrandState::Funded,
        })));
        Ok((errand_id, amount))
    }

    fn mark_errand(e: &mut Env, errand_id: String, next: ErrandState) -> (r: Result<(String, ErrandState), ContractError>)
        ensures
            (final(e)@, r) == mark_errand_outcome(old(e)@, errand_id, next),
    {
        let paymaster = read_paymaster(e)?;
        e.record(HostCall::RequireAuth(paymaster));
        let mut errand = read_errand(e, errand_id.clone())?;
        match errand.state {
            ErrandState::Funded => {
                errand.state = next;
            },
            _ => return Err(ContractError::InvalidErrandState),
        }
        write_update_errand(e, errand_id.clone(), errand);
        e.record(HostCall::Publish(Event::ErrandState(ErrandStateEvent { errand_id: errand_id.clone(), state: next })));
        Ok((errand_id, next))
    }

    /// The paymaster marks a funded errand completed.
    pub fn mark_errand_completed(e: &mut Env, errand_id: String) -> (r: Result<(String, ErrandState), ContractError>)
        ensures
            (final(e)@, r) == mark_errand_outcome(old(e)@, errand_id, ErrandState::Completed),
    {
        Self::mark_errand(e, errand_id, ErrandState::Completed)
    }

    /// The paymaster marks a funded errand disputed.
    pub fn mark_errand_disputed(e: &mut Env, errand_id: String) -> (r: Result<(String, ErrandState), ContractError>)
        ensures
            (final(e)@, r) == mark_errand_outcome(old(e)@, errand_id, ErrandState::Disputed),
    {
        Self::mark_errand(e, errand_id, ErrandState::Disputed)
    }

    /// The paymaster releases a completed errand: the treasury gets the platform
    /// fee and the commission, the runner the rest of the errand amount, and the
    /// errand leaves storage.
    pub fn release_errand_escrow(e: &mut Env, errand_id: String) -> (r: Result<(String, ErrandState), ContractError>)
        ensures
            (final(e)@, r) == release_errand_escrow_outcome(old(e)@, errand_id),
    {
        let rates = read_rates(e);
        let runner_percent = 100i128.checked_sub(rates.commission_percent as i128).ok_or(
            ContractError::InvalidPercent,
        )?;
        check_nonnegative_amount(runner_percent)?;
        let paymaster = read_paymaster(e)?;
        e.record(HostCall::RequireAuth(paymaster));
        let errand = read_errand(e, errand_id.clone())?;
        if errand.state != ErrandState::Completed {
            return Err(ContractError::UnCompletedErrandState);
        }
        let asset = read_payment_asset(e)?;
        let comm_amt = share(errand.amount, rates.commission_percent as i128)?;
        let comm_total = rates.platform_fee.checked_add(comm_amt).ok_or(ContractError::Overflow)?;
        let runner_amt = share(errand.amount, runner_percent)?;
        let errand_go_acct = read_errandgo_account(e)?;
        send_asset(e, &errand_go_acct, asset.clone(), comm_total);
        send_asset(e, &errand.runner_wallet, asset, runner_amt);
        write_remove_errand(e, errand_id.clone())?;
        Ok((errand_id, ErrandState::Released))
    }

    /// The administrator resolves a disputed errand: the treasury gets the
    /// platform fee and the commission, the customer `cust_percent` percent of
    /// the errand amount, the runner what remains, and the errand leaves storage.
    pub fn resolve_disputed_errand(e: &mut Env, errand_id: String, cust_percent: u32)
        -> (r: Result<(String, ErrandState), ContractError>)
        ensures
            (final(e)@, r) == resolve_disputed_errand_outcome(old(e)@, errand_id, cust_percent),
    {
        let rates = read_rates(e);
        let diff = rates.commission_percent.checked_add(cust_percent).ok_or(ContractError::Overflow)?;
        let runner_percent = 100i128.checked_sub(diff as i128).ok_or(ContractError::InvalidPercent)?;
        check_nonnegative_amount(runner_percent)?;
        let admin = read_administrator(e)?;
        e.record(HostCall::RequireAuth(admin));
        let errand = read_errand(e, errand_id.clone())?;
        if errand.state != ErrandState::Disputed {
            return Err(ContractError::UndisputedErrandState);
        }
        let asset = read_payment_asset(e)?;
        let comm_amt = share(errand.amount, rates.commission_percent as i128)?;
        let comm_total = rates.platform_fee.checked_add(comm_amt).ok_or(ContractError::Overflow)?;
        let cust_amt = share(errand.amount, cust_percent as i128)?;
        let runner_amt = share(errand.amount, runner_percent)?;
        let errand_go_acct = read_errandgo_account(e)?;
        send_asset(e, &errand_go_acct, asset.clone(), comm_total);
        send_asset(e, &errand.customer_wallet, asset.clone(), cust_amt);
        send_asset(e, &errand.runner_wallet, asset, runner_amt);
        write_remove_errand(e, errand_id.clone())?;
        Ok((errand_id, ErrandState::Resolved))
    }

    /// The tracked reserve deposit of the payment asset; the balance is
    /// reported as zero.
    pub fn get_reserve(e: &mut Env) -> (r: Result<Reserve, ContractError>)
        ensures
            (final(e)@, r) == get_reserve_outcome(old(e)@),
    {
        let asset = read_payment_asset(e)?;
        e.record(HostCall::ExtendInstanceTtl {
            threshold: INSTANCE_LIFETIME_THRESHOLD,
            extend_to: INSTANCE_BUMP_AMOUNT,
        });
        Ok(Reserve { deposit: read_reserve_deposit(e, asset), balance: 0 })
    }

    /// The rates in force.
    pub fn get_rates(e: &Env) -> (r: Rates)
        ensures
            r == rates_in(e@),
    {
        let rates = read_rates(e);
        rates
    }

    /// The rates in force with the paymaster and the treasury account.
    pub fn get_parameters(e: &Env) -> (r: Result<Parameters, ContractError>)
        ensures
            r == parameters_in(e@),
    {
        let rates = read_rates(e);
        Ok(Parameters {
            on_ramp: rates.on_ramp,
            off_ramp: rates.off_ramp,
            tx_fee: rates.tx_fee,
            platform_fee: rates.platform_fee,
            commission_percent: rates.commission_percent,
            precision: rates.precision,
            paymaster: read_paymaster(e)?,
            errandgo_account: read_errandgo_account(e)?,
        })
    }

    /// Replaces the contract's code; the administrator must authorise.
    pub fn upgrade(e: &mut Env, wasm: [u8; 32]) -> (r: Result<(), ContractError>)
        ensures
            (final(e)@, r) == upgrade_outcome(old(e)@, wasm),
    {
        let admin = read_administrator(e)?;
        e.record(HostCall::RequireAuth(admin));
        e.record(HostCall::UpdateContractWasm(wasm));
        Ok(())
    }
}

} // verus!
