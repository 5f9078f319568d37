use errandgo::contract::{check_nonnegative_amount, ErrandGo};
use errandgo::data::{
    Address, ErrandState, Parameters, Rates, Reserve, BALANCE_BUMP_AMOUNT, BALANCE_LIFETIME_THRESHOLD,
    INSTANCE_BUMP_AMOUNT, INSTANCE_LIFETIME_THRESHOLD,
};
use errandgo::env::{Env, HostCall};
use errandgo::error::ContractError;
use errandgo::events::{ErrandStateEvent, Event, OffRampEvent, OnRampEvent};
use errandgo::errands::read_errand;
use errandgo::reserves::{read_reserve_deposit, write_remove_reserve, write_reserve_deposit};

fn addr(s: &str) -> Address {
    Address { strkey: s.to_string() }
}

fn admin() -> Address {
    addr("GADMIN")
}
fn treasury() -> Address {
    addr("GTREASURY")
}
fn paymaster() -> Address {
    addr("GPAYMASTER")
}
fn asset() -> Address {
    addr("CASSET")
}
fn customer() -> Address {
    addr("GCUSTOMER")
}
fn runner() -> Address {
    addr("GRUNNER")
}

/// on_ramp 2.5 and off_ramp 1.0 at precision 6, tx fee 5, platform fee 10, commission 10%.
fn deployed() -> Env {
    let mut e = Env::new();
    ErrandGo::__constructor(
        &mut e,
        admin(),
        treasury(),
        paymaster(),
        asset(),
        2_500_000,
        1_000_000,
        5,
        10,
        10,
        6,
    );
    e
}

fn fund(e: &mut Env, id: &str, fiat: i128) -> Result<(String, i128), ContractError> {
    ErrandGo::fund_errand_escrow(
        e,
        id.to_string(),
        "cust-1".to_string(),
        customer(),
        "runner-1".to_string(),
        runner(),
        fiat,
    )
}

#[test]
fn nonnegative_amounts_pass_and_negative_ones_are_refused() {
    assert_eq!(check_nonnegative_amount(0), Ok(()));
    assert_eq!(check_nonnegative_amount(5), Ok(()));
    assert_eq!(check_nonnegative_amount(-1), Err(ContractError::NegativeAmount));
}

#[test]
fn constructor_stores_roles_and_rates() {
    let e = deployed();
    assert!(e.calls().is_empty());
    assert_eq!(
        ErrandGo::get_rates(&e),
        Rates { off_ramp: 1_000_000, on_ramp: 2_500_000, tx_fee: 5, platform_fee: 10, commission_percent: 10, precision: 6 }
    );
    assert_eq!(
        ErrandGo::get_parameters(&e),
        Ok(Parameters {
            off_ramp: 1_000_000,
            on_ramp: 2_500_000,
            tx_fee: 5,
            platform_fee: 10,
            commission_percent: 10,
            precision: 6,
            paymaster: paymaster(),
            errandgo_account: treasury(),
        })
    );
}

#[test]
fn rates_default_while_none_are_stored() {
    let e = Env::new();
    assert_eq!(
        ErrandGo::get_rates(&e),
        Rates { off_ramp: 0, on_ramp: 0, tx_fee: 0, platform_fee: 0, commission_percent: 0, precision: 7 }
    );
    assert_eq!(ErrandGo::get_parameters(&e), Err(ContractError::PaymasterNotFound));
}

#[test]
fn update_rates_needs_the_administrator() {
    let mut e = deployed();
    assert_eq!(ErrandGo::update_rates(&mut e, 1, 2, 3, 4, 5, 6), Ok(()));
    assert_eq!(e.calls(), &vec![HostCall::RequireAuth(admin())]);
    assert_eq!(
        ErrandGo::get_rates(&e),
        Rates { off_ramp: 1, on_ramp: 2, tx_fee: 3, platform_fee: 4, commission_percent: 5, precision: 6 }
    );
}

#[test]
fn administrative_requests_without_an_administrator_are_refused() {
    let mut e = Env::new();
    assert_eq!(ErrandGo::update_rates(&mut e, 1, 2, 3, 4, 5, 6), Err(ContractError::AdminNotFound));
    assert_eq!(ErrandGo::update_admin(&mut e, admin()), Err(ContractError::AdminNotFound));
    assert_eq!(ErrandGo::update_paymaster(&mut e, admin()), Err(ContractError::AdminNotFound));
    assert_eq!(ErrandGo::update_errandgo_account(&mut e, admin()), Err(ContractError::AdminNotFound));
    assert_eq!(ErrandGo::withdraw_from_reserve(&mut e, admin(), 1), Err(ContractError::AdminNotFound));
    assert_eq!(ErrandGo::upgrade(&mut e, [7u8; 32]), Err(ContractError::AdminNotFound));
    assert!(e.calls().is_empty());
    assert_eq!(ErrandGo::get_rates(&e).precision, 7);
}

#[test]
fn roles_are_handed_over() {
    let mut e = deployed();
    assert_eq!(ErrandGo::update_admin(&mut e, addr("GNEWADMIN")), Ok(()));
    assert_eq!(ErrandGo::update_paymaster(&mut e, addr("GNEWPM")), Ok(()));
    assert_eq!(ErrandGo::update_errandgo_account(&mut e, addr("GNEWTREASURY")), Ok(()));
    assert_eq!(
        e.calls(),
        &vec![
            HostCall::RequireAuth(admin()),
            HostCall::RequireAuth(addr("GNEWADMIN")),
            HostCall::RequireAuth(addr("GNEWADMIN")),
        ]
    );
    let p = ErrandGo::get_parameters(&e).unwrap();
    assert_eq!(p.paymaster, addr("GNEWPM"));
    assert_eq!(p.errandgo_account, addr("GNEWTREASURY"));
}

#[test]
fn deposit_is_taken_and_tracked() {
    let mut e = deployed();
    assert_eq!(ErrandGo::deposit_to_reserve(&mut e, customer(), 100), Ok(()));
    assert_eq!(ErrandGo::deposit_to_reserve(&mut e, customer(), 50), Ok(()));
    let renew = HostCall::ExtendReserveTtl {
        asset: asset(),
        threshold: BALANCE_LIFETIME_THRESHOLD,
        extend_to: BALANCE_BUMP_AMOUNT,
    };
    assert_eq!(
        e.calls(),
        &vec![
            HostCall::RequireAuth(customer()),
            HostCall::TakeAsset { from: customer(), asset: asset(), amount: 100 },
            renew.clone_call(),
            HostCall::RequireAuth(customer()),
            HostCall::TakeAsset { from: customer(), asset: asset(), amount: 50 },
            renew.clone_call(),
            renew,
        ]
    );
    assert_eq!(ErrandGo::get_reserve(&mut e), Ok(Reserve { deposit: 150, balance: 0 }));
}

trait CloneCall {
    fn clone_call(&self) -> HostCall;
}

impl CloneCall for HostCall {
    fn clone_call(&self) -> HostCall {
        match self {
            HostCall::ExtendReserveTtl { asset, threshold, extend_to } => HostCall::ExtendReserveTtl {
                asset: asset.clone(),
                threshold: *threshold,
                extend_to: *extend_to,
            },
            _ => panic!("only renewals are copied here"),
        }
    }
}

#[test]
fn negative_deposit_is_refused_after_authorisation() {
    let mut e = deployed();
    assert_eq!(ErrandGo::deposit_to_reserve(&mut e, customer(), -1), Err(ContractError::NegativeAmount));
    assert_eq!(e.calls(), &vec![HostCall::RequireAuth(customer())]);
    assert_eq!(ErrandGo::get_reserve(&mut e), Ok(Reserve { deposit: 0, balance: 0 }));
}

#[test]
fn deposit_without_payment_asset_is_refused() {
    let mut e = Env::new();
    assert_eq!(
        ErrandGo::deposit_to_reserve(&mut e, customer(), 1),
        Err(ContractError::PaymentAssetNotFound)
    );
    assert_eq!(ErrandGo::get_reserve(&mut e), Err(ContractError::PaymentAssetNotFound));
}

#[test]
fn deposit_saturates_at_the_top_of_the_range() {
    let mut e = deployed();
    assert_eq!(ErrandGo::deposit_to_reserve(&mut e, customer(), i128::MAX), Ok(()));
    assert_eq!(ErrandGo::deposit_to_reserve(&mut e, customer(), 10), Ok(()));
    assert_eq!(ErrandGo::get_reserve(&mut e), Ok(Reserve { deposit: i128::MAX, balance: 0 }));
}

#[test]
fn get_reserve_renews_instance_and_entry() {
    let mut e = deployed();
    write_reserve_deposit(&mut e, asset(), 9);
    let before = e.calls().len();
    assert_eq!(ErrandGo::get_reserve(&mut e), Ok(Reserve { deposit: 9, balance: 0 }));
    assert_eq!(
        &e.calls()[before..],
        &[
            HostCall::ExtendInstanceTtl { threshold: INSTANCE_LIFETIME_THRESHOLD, extend_to: INSTANCE_BUMP_AMOUNT },
            HostCall::ExtendReserveTtl {
                asset: asset(),
                threshold: BALANCE_LIFETIME_THRESHOLD,
                extend_to: BALANCE_BUMP_AMOUNT,
            },
        ]
    );
    assert_eq!(INSTANCE_BUMP_AMOUNT, 120960);
    assert_eq!(INSTANCE_LIFETIME_THRESHOLD, 103680);
    assert_eq!(BALANCE_BUMP_AMOUNT, 518400);
    assert_eq!(BALANCE_LIFETIME_THRESHOLD, 501120);
}

#[test]
fn withdrawal_sends_then_takes_down_the_deposit() {
    let mut e = deployed();
    ErrandGo::deposit_to_reserve(&mut e, customer(), 100).unwrap();
    let before = e.calls().len();
    assert_eq!(ErrandGo::withdraw_from_reserve(&mut e, treasury(), 40), Ok(()));
    assert_eq!(
        &e.calls()[before..],
        &[
            HostCall::RequireAuth(admin()),
            HostCall::SendAsset { to: treasury(), asset: asset(), amount: 40 },
        ]
    );
    assert_eq!(write_remove_reserve(&mut e, asset(), 40, 60), Ok(()));
    assert_eq!(read_reserve_deposit(&mut e, asset()), 60);
}

#[test]
fn withdrawal_checks_the_remaining_balance() {
    let mut e = deployed();
    ErrandGo::deposit_to_reserve(&mut e, customer(), 100).unwrap();
    assert_eq!(ErrandGo::withdraw_from_reserve(&mut e, treasury(), -5), Err(ContractError::NegativeAmount));
    assert_eq!(write_remove_reserve(&mut e, asset(), 40, 39), Err(ContractError::InsufficientBalance));
    assert_eq!(read_reserve_deposit(&mut e, asset()), 100);
}

#[test]
fn withdrawal_below_the_range_is_an_underflow() {
    let mut e = deployed();
    write_reserve_deposit(&mut e, asset(), i128::MIN);
    assert_eq!(write_remove_reserve(&mut e, asset(), 1, 10), Err(ContractError::Underflow));
    assert_eq!(read_reserve_deposit(&mut e, asset()), i128::MIN);
}

#[test]
fn removal_without_payment_asset_is_refused() {
    let mut e = Env::new();
    assert_eq!(write_remove_reserve(&mut e, asset(), 1, 10), Err(ContractError::PaymentAssetNotFound));
}

#[test]
fn deposit_then_removal_restores_the_deposit() {
    let mut e = deployed();
    write_reserve_deposit(&mut e, asset(), 70);
    ErrandGo::deposit_to_reserve(&mut e, customer(), 30).unwrap();
    assert_eq!(write_remove_reserve(&mut e, asset(), 30, 30), Ok(()));
    assert_eq!(read_reserve_deposit(&mut e, asset()), 70);
}

#[test]
fn on_ramp_converts_at_the_on_ramp_rate() {
    let mut e = deployed();
    assert_eq!(ErrandGo::on_ramp(&mut e, customer(), 1000), Ok((customer(), 2500)));
    assert_eq!(
        e.calls(),
        &vec![
            HostCall::RequireAuth(paymaster()),
            HostCall::SendAsset { to: customer(), asset: asset(), amount: 2500 },
            HostCall::Publish(Event::OnRamp(OnRampEvent { account: customer(), crypto_amount: 2500 })),
        ]
    );
}

#[test]
fn on_ramp_rounds_toward_zero() {
    let mut e = deployed();
    assert_eq!(ErrandGo::on_ramp(&mut e, customer(), 3), Ok((customer(), 7)));
    ErrandGo::update_rates(&mut e, 0, -1, 0, 0, 0, 1).unwrap();
    assert_eq!(ErrandGo::on_ramp(&mut e, customer(), 15), Ok((customer(), -1)));
}

#[test]
fn on_ramp_refusals() {
    let mut e = deployed();
    assert_eq!(ErrandGo::on_ramp(&mut e, customer(), -1), Err(ContractError::NegativeAmount));
    ErrandGo::update_rates(&mut e, 0, 1, 0, 0, 0, 39).unwrap();
    assert_eq!(ErrandGo::on_ramp(&mut e, customer(), 1), Err(ContractError::Overflow));
    ErrandGo::update_rates(&mut e, 0, 1, 0, 0, 0, 38).unwrap();
    assert_eq!(ErrandGo::on_ramp(&mut e, customer(), 10i128.pow(38)), Ok((customer(), 1)));
    ErrandGo::update_rates(&mut e, 0, i128::MAX, 0, 0, 0, 0).unwrap();
    assert_eq!(ErrandGo::on_ramp(&mut e, customer(), 2), Err(ContractError::Overflow));
    let mut bare = Env::new();
    assert_eq!(ErrandGo::on_ramp(&mut bare, customer(), 1), Err(ContractError::PaymasterNotFound));
}

#[test]
fn on_ramp_without_payment_asset_is_refused() {
    let mut e = Env::new();
    errandgo::access::write_paymaster(&mut e, &paymaster());
    assert_eq!(ErrandGo::on_ramp(&mut e, customer(), 1), Err(ContractError::PaymentAssetNotFound));
    assert_eq!(e.calls(), &vec![HostCall::RequireAuth(paymaster())]);
}

#[test]
fn off_ramp_takes_amount_and_fee_and_announces_fiat() {
    let mut e = deployed();
    assert_eq!(
        ErrandGo::off_ramp(&mut e, customer(), "cust-9".to_string(), 200),
        Ok(("cust-9".to_string(), 200))
    );
    assert_eq!(
        e.calls(),
        &vec![
            HostCall::RequireAuth(customer()),
            HostCall::TakeAsset { from: customer(), asset: asset(), amount: 205 },
            HostCall::SendAsset { to: treasury(), asset: asset(), amount: 5 },
            HostCall::Publish(Event::OffRamp(OffRampEvent { customer_id: "cust-9".to_string(), fiat_amount: 200 })),
        ]
    );
}

#[test]
fn off_ramp_refusals() {
    let mut e = deployed();
    assert_eq!(
        ErrandGo::off_ramp(&mut e, customer(), "c".to_string(), -3),
        Err(ContractError::NegativeAmount)
    );
    assert_eq!(
        ErrandGo::off_ramp(&mut e, customer(), "c".to_string(), i128::MAX),
        Err(ContractError::Overflow)
    );
    let mut no_treasury = Env::new();
    errandgo::payment_asset::write_payment_asset(&mut no_treasury, &asset());
    assert_eq!(
        ErrandGo::off_ramp(&mut no_treasury, customer(), "c".to_string(), 3),
        Err(ContractError::EGAccountNotFound)
    );
}

#[test]
fn funding_takes_escrow_plus_fee_and_stores_a_funded_errand() {
    let mut e = deployed();
    assert_eq!(fund(&mut e, "errand-1", 1000), Ok(("errand-1".to_string(), 2500)));
    assert_eq!(
        e.calls(),
        &vec![
            HostCall::RequireAuth(customer()),
            HostCall::TakeAsset { from: customer(), asset: asset(), amount: 2510 },
            HostCall::Publish(Event::ErrandState(ErrandStateEvent {
                errand_id: "errand-1".to_string(),
                state: ErrandState::Funded,
            })),
        ]
    );
    let errand = read_errand(&e, "errand-1".to_string()).unwrap();
    assert_eq!(errand.amount, 2500);
    assert_eq!(errand.state, ErrandState::Funded);
    assert_eq!(errand.customer_wallet, customer());
    assert_eq!(errand.runner_wallet, runner());
    assert_eq!(errand.customer_id, "cust-1");
    assert_eq!(errand.runner_id, "runner-1");
}

#[test]
fn an_errand_is_funded_once() {
    let mut e = deployed();
    fund(&mut e, "errand-1", 1000).unwrap();
    let before = e.calls().len();
    assert_eq!(fund(&mut e, "errand-1", 5), Err(ContractError::ErrandAlreadyFunded));
    assert_eq!(e.calls().len(), before);
    assert_eq!(read_errand(&e, "errand-1".to_string()).unwrap().amount, 2500);
}

#[test]
fn funding_refusals() {
    let mut e = deployed();
    assert_eq!(fund(&mut e, "e", -1), Err(ContractError::NegativeAmount));
    ErrandGo::update_rates(&mut e, 0, 1, 0, i128::MAX, 0, 0).unwrap();
    assert_eq!(fund(&mut e, "e", 1), Err(ContractError::Overflow));
    assert_eq!(read_errand(&e, "e".to_string()), Err(ContractError::ErrandNotFound));
}

#[test]
fn marking_moves_funded_errands_only() {
    let mut e = deployed();
    fund(&mut e, "a", 1000).unwrap();
    fund(&mut e, "b", 1000).unwrap();
    assert_eq!(
        ErrandGo::mark_errand_completed(&mut e, "a".to_string()),
        Ok(("a".to_string(), ErrandState::Completed))
    );
    assert_eq!(
        ErrandGo::mark_errand_disputed(&mut e, "b".to_string()),
        Ok(("b".to_string(), ErrandState::Disputed))
    );
    assert_eq!(
        ErrandGo::mark_errand_completed(&mut e, "a".to_string()),
        Err(ContractError::InvalidErrandState)
    );
    assert_eq!(
        ErrandGo::mark_errand_disputed(&mut e, "a".to_string()),
        Err(ContractError::InvalidErrandState)
    );
    assert_eq!(
        ErrandGo::mark_errand_completed(&mut e, "zzz".to_string()),
        Err(ContractError::ErrandNotFound)
    );
    assert_eq!(read_errand(&e, "a".to_string()).unwrap().state, ErrandState::Completed);
    assert_eq!(read_errand(&e, "b".to_string()).unwrap().state, ErrandState::Disputed);
    assert_eq!(
        e.calls().last(),
        Some(&HostCall::RequireAuth(paymaster()))
    );
}

#[test]
fn release_pays_treasury_and_runner_and_forgets_the_errand() {
    let mut e = deployed();
    fund(&mut e, "a", 1000).unwrap();
    ErrandGo::mark_errand_completed(&mut e, "a".to_string()).unwrap();
    let before = e.calls().len();
    assert_eq!(
        ErrandGo::release_errand_escrow(&mut e, "a".to_string()),
        Ok(("a".to_string(), ErrandState::Released))
    );
    assert_eq!(
        &e.calls()[before..],
        &[
            HostCall::RequireAuth(paymaster()),
            HostCall::SendAsset { to: treasury(), asset: asset(), amount: 260 },
            HostCall::SendAsset { to: runner(), asset: asset(), amount: 2250 },
        ]
    );
    assert_eq!(read_errand(&e, "a".to_string()), Err(ContractError::ErrandNotFound));
    assert_eq!(
        ErrandGo::release_errand_escrow(&mut e, "a".to_string()),
        Err(ContractError::ErrandNotFound)
    );
    assert_eq!(fund(&mut e, "a", 4), Ok(("a".to_string(), 10)));
}

#[test]
fn release_loses_at_most_one_unit_to_rounding() {
    let mut e = deployed();
    ErrandGo::update_rates(&mut e, 0, 1, 0, 10, 10, 0).unwrap();
    fund(&mut e, "a", 7).unwrap();
    ErrandGo::mark_errand_completed(&mut e, "a".to_string()).unwrap();
    let before = e.calls().len();
    ErrandGo::release_errand_escrow(&mut e, "a".to_string()).unwrap();
    assert_eq!(
        &e.calls()[before + 1..],
        &[
            HostCall::SendAsset { to: treasury(), asset: asset(), amount: 10 },
            HostCall::SendAsset { to: runner(), asset: asset(), amount: 6 },
        ]
    );
}

#[test]
fn release_refusals() {
    let mut e = deployed();
    fund(&mut e, "a", 1000).unwrap();
    assert_eq!(
        ErrandGo::release_errand_escrow(&mut e, "a".to_string()),
        Err(ContractError::UnCompletedErrandState)
    );
    ErrandGo::mark_errand_completed(&mut e, "a".to_string()).unwrap();
    ErrandGo::update_rates(&mut e, 1_000_000, 2_500_000, 5, 10, 101, 6).unwrap();
    let before = e.calls().len();
    assert_eq!(
        ErrandGo::release_errand_escrow(&mut e, "a".to_string()),
        Err(ContractError::NegativeAmount)
    );
    assert_eq!(e.calls().len(), before);
    assert_eq!(read_errand(&e, "a".to_string()).unwrap().state, ErrandState::Completed);
}

#[test]
fn resolution_splits_three_ways() {
    let mut e = deployed();
    fund(&mut e, "b", 1000).unwrap();
    ErrandGo::mark_errand_disputed(&mut e, "b".to_string()).unwrap();
    let before = e.calls().len();
    assert_eq!(
        ErrandGo::resolve_disputed_errand(&mut e, "b".to_string(), 30),
        Ok(("b".to_string(), ErrandState::Resolved))
    );
    assert_eq!(
        &e.calls()[before..],
        &[
            HostCall::RequireAuth(admin()),
            HostCall::SendAsset { to: treasury(), asset: asset(), amount: 260 },
            HostCall::SendAsset { to: customer(), asset: asset(), amount: 750 },
            HostCall::SendAsset { to: runner(), asset: asset(), amount: 1500 },
        ]
    );
    assert_eq!(read_errand(&e, "b".to_string()), Err(ContractError::ErrandNotFound));
}

#[test]
fn resolution_refusals() {
    let mut e = deployed();
    fund(&mut e, "b", 1000).unwrap();
    assert_eq!(
        ErrandGo::resolve_disputed_errand(&mut e, "b".to_string(), 30),
        Err(ContractError::UndisputedErrandState)
    );
    ErrandGo::mark_errand_disputed(&mut e, "b".to_string()).unwrap();
    assert_eq!(
        ErrandGo::resolve_disputed_errand(&mut e, "b".to_string(), u32::MAX),
        Err(ContractError::Overflow)
    );
    assert_eq!(
        ErrandGo::resolve_disputed_errand(&mut e, "b".to_string(), 91),
        Err(ContractError::NegativeAmount)
    );
    assert_eq!(
        ErrandGo::resolve_disputed_errand(&mut e, "zzz".to_string(), 10),
        Err(ContractError::ErrandNotFound)
    );
    assert_eq!(read_errand(&e, "b".to_string()).unwrap().state, ErrandState::Disputed);
}

#[test]
fn upgrade_needs_the_administrator() {
    let mut e = deployed();
    assert_eq!(ErrandGo::upgrade(&mut e, [3u8; 32]), Ok(()));
    assert_eq!(
        e.calls(),
        &vec![HostCall::RequireAuth(admin()), HostCall::UpdateContractWasm([3u8; 32])]
    );
}

#[test]
fn error_codes_round_trip() {
    let all = [
        (ContractError::InvalidPrecision, 301),
        (ContractError::NegativeAmount, 303),
        (ContractError::Underflow, 305),
        (ContractError::Overflow, 306),
        (ContractError::InsufficientPayment, 307),
        (ContractError::InsufficientBalance, 309),
        (ContractError::PaymentAssetNotFound, 311),
        (ContractError::AdminNotFound, 313),
        (ContractError::EGAccountNotFound, 315),
        (ContractError::PaymasterNotFound, 317),
        (ContractError::ErrandNotFound, 319),
        (ContractError::ErrandAlreadyFunded, 320),
        (ContractError::InvalidErrandState, 321),
        (ContractError::UndisputedErrandState, 323),
        (ContractError::UnCompletedErrandState, 325),
        (ContractError::InvalidPercent, 327),
    ];
    for (err, code) in all {
        assert_eq!(err.code(), code);
        assert_eq!(ContractError::from_code(code), Some(err));
    }
    assert_eq!(ContractError::from_code(302), None);
}

#[test]
fn resolution_loses_at_most_two_units_to_rounding() {
    let mut e = deployed();
    ErrandGo::update_rates(&mut e, 0, 1, 0, 10, 10, 0).unwrap();
    fund(&mut e, "b", 9).unwrap();
    ErrandGo::mark_errand_disputed(&mut e, "b".to_string()).unwrap();
    let before = e.calls().len();
    ErrandGo::resolve_disputed_errand(&mut e, "b".to_string(), 10).unwrap();
    assert_eq!(
        &e.calls()[before + 1..],
        &[
            HostCall::SendAsset { to: treasury(), asset: asset(), amount: 10 },
            HostCall::SendAsset { to: customer(), asset: asset(), amount: 0 },
            HostCall::SendAsset { to: runner(), asset: asset(), amount: 7 },
        ]
    );
}

#[test]
fn refused_requests_leave_storage_as_it_was() {
    let mut e = deployed();
    fund(&mut e, "a", 1000).unwrap();
    ErrandGo::deposit_to_reserve(&mut e, customer(), 100).unwrap();
    assert_eq!(
        ErrandGo::off_ramp(&mut e, customer(), "c".to_string(), -1),
        Err(ContractError::NegativeAmount)
    );
    assert_eq!(
        ErrandGo::release_errand_escrow(&mut e, "a".to_string()),
        Err(ContractError::UnCompletedErrandState)
    );
    assert_eq!(fund(&mut e, "a", 1), Err(ContractError::ErrandAlreadyFunded));
    assert_eq!(read_errand(&e, "a".to_string()).unwrap().state, ErrandState::Funded);
    assert_eq!(read_errand(&e, "a".to_string()).unwrap().amount, 2500);
    assert_eq!(ErrandGo::get_reserve(&mut e), Ok(Reserve { deposit: 100, balance: 0 }));
    assert_eq!(ErrandGo::get_rates(&e).on_ramp, 2_500_000);
}
