//! Properties of the contract as a whole: what every entry point keeps, what a
//! refused request leaves behind, and how calls relate to one another.
use vstd::prelude::*;
use crate::arith::{
    checked_pow10, converted, in_i128, lemma_pow10_grows, lemma_quotient_bounds, pow10, quotient,
};
use crate::contract::{
    deposit_to_reserve_outcome, fund_errand_escrow_outcome, get_reserve_outcome, mark_errand_outcome, off_ramp_outcome,
    on_ramp_outcome, parameters_in, release_errand_escrow_outcome, resolve_disputed_errand_outcome,
    update_admin_outcome, update_errandgo_account_outcome, update_paymaster_outcome, update_rates_outcome,
    upgrade_outcome, withdraw_from_reserve_outcome,
};
use crate::data::{Address, ErrandData, ErrandState, Rates};
use crate::events::{ErrandStateEvent, Event, OffRampEvent, OnRampEvent};
use crate::env::{EnvView, HostCall};
use crate::error::ContractError;
use crate::rates::rates_in;
use crate::reserves::{deposit_in, remove_reserve_outcome};

verus! {

/// A request to the contract, as a value: the entry points that change the
/// environment, with their arguments.
pub enum Request {
    UpdateRates {
        off_ramp: i128,
        on_ramp: i128,
        tx_fee: i128,
        platform_fee: i128,
        commission_percent: u32,
        precision: u32,
    },
    UpdateAdmin(Address),
    UpdateErrandgoAccount(Address),
    UpdatePaymaster(Address),
    DepositToReserve { from: Address, amount: i128 },
    WithdrawFromReserve { to: Address, amount: i128 },
    RemoveReserve { asset: Address, amount: i128, reserve_balance: i128 },
    OnRamp { to: Address, fiat_amount: i128 },
    OffRamp { from: Address, customer_id: String, amount: i128 },
    FundErrandEscrow {
        errand_id: String,
        customer_id: String,
        customer_wallet: Address,
        runner_id: String,
        runner_wallet: Address,
        fiat_amount: i128,
    },
    MarkErrandCompleted(String),
    MarkErrandDisputed(String),
    ReleaseErrandEscrow(String),
    ResolveDisputedErrand { errand_id: String, cust_percent: u32 },
    Upgrade([u8; 32]),
    GetReserve,
}

/// The environment after `req`, and whether it was accepted.
pub open spec fn serve(v: EnvView, req: Request) -> (EnvView, bool) {
    match req {
        Request::UpdateRates { off_ramp, on_ramp, tx_fee, platform_fee, commission_percent, precision } => {
            let o = update_rates_outcome(v, off_ramp, on_ramp, tx_fee, platform_fee, commission_percent, precision);
            (o.0, o.1 is Ok)
        },
        Request::UpdateAdmin(id) => {
            let o = update_admin_outcome(v, id);
            (o.0, o.1 is Ok)
        },
        Request::UpdateErrandgoAccount(id) => {
            let o = update_errandgo_account_outcome(v, id);
            (o.0, o.1 is Ok)
        },
        Request::UpdatePaymaster(id) => {
            let o = update_paymaster_outcome(v, id);
            (o.0, o.1 is Ok)
        },
        Request::DepositToReserve { from, amount } => {
            let o = deposit_to_reserve_outcome(v, from, amount);
            (o.0, o.1 is Ok)
        },
        Request::WithdrawFromReserve { to, amount } => {
            let o = withdraw_from_reserve_outcome(v, to, amount);
            (o.0, o.1 is Ok)
        },
        Request::RemoveReserve { asset, amount, reserve_balance } => {
            let o = remove_reserve_outcome(v, asset, amount, reserve_balance);
            (o.0, o.1 is Ok)
        },
        Request::OnRamp { to, fiat_amount } => {
            let o = on_ramp_outcome(v, to, fiat_amount);
            (o.0, o.1 is Ok)
        },
        Request::OffRamp { from, customer_id, amount } => {
            let o = off_ramp_outcome(v, from, customer_id, amount);
            (o.0, o.1 is Ok)
        },
        Request::FundErrandEscrow { errand_id, customer_id, customer_wallet, runner_id, runner_wallet, fiat_amount } => {
            let o = fund_errand_escrow_outcome(v, errand_id, customer_id, customer_wallet, runner_id, runner_wallet, fiat_amount);
            (o.0, o.1 is Ok)
        },
        Request::MarkErrandCompleted(errand_id) => {
            let o = mark_errand_outcome(v, errand_id, ErrandState::Completed);
            (o.0, o.1 is Ok)
        },
        Request::MarkErrandDisputed(errand_id) => {
            let o = mark_errand_outcome(v, errand_id, ErrandState::Disputed);
            (o.0, o.1 is Ok)
        },
        Request::ReleaseErrandEscrow(errand_id) => {
            let o = release_errand_escrow_outcome(v, errand_id);
            (o.0, o.1 is Ok)
        },
        Request::ResolveDisputedErrand { errand_id, cust_percent } => {
            let o = resolve_disputed_errand_outcome(v, errand_id, cust_percent);
            (o.0, o.1 is Ok)
        },
        Request::Upgrade(wasm) => {
            let o = upgrade_outcome(v, wasm);
            (o.0, o.1 is Ok)
        },
        Request::GetReserve => {
            let o = get_reserve_outcome(v);
            (o.0, o.1 is Ok)
        },
    }
}

/// Whose authorisation a request needs, where it needs one.
pub open spec fn authoriser(v: EnvView, req: Request) -> Option<Address> {
    match req {
        Request::UpdateRates { .. } => v.admin,
        Request::UpdateAdmin(_) => v.admin,
        Request::UpdateErrandgoAccount(_) => v.admin,
        Request::UpdatePaymaster(_) => v.admin,
        Request::WithdrawFromReserve { .. } => v.admin,
        Request::ResolveDisputedErrand { .. } => v.admin,
        Request::Upgrade(_) => v.admin,
        Request::OnRamp { .. } => v.paymaster,
        Request::MarkErrandCompleted(_) => v.paymaster,
        Request::MarkErrandDisputed(_) => v.paymaster,
        Request::ReleaseErrandEscrow(_) => v.paymaster,
        Request::DepositToReserve { from, .. } => Some(from),
        Request::OffRamp { from, .. } => Some(from),
        Request::FundErrandEscrow { customer_wallet, .. } => Some(customer_wallet),
        Request::RemoveReserve { .. } => None,
        Request::GetReserve => None,
    }
}

/// Whether two environments store the same things.
pub open spec fn same_storage(a: EnvView, b: EnvView) -> bool {
    &&& a.admin == b.admin
    &&& a.errandgo_account == b.errandgo_account
    &&& a.paymaster == b.paymaster
    &&& a.payment_asset == b.payment_asset
    &&& a.rates == b.rates
    &&& a.reserve_deposits == b.reserve_deposits
    &&& a.errands == b.errands
}

/// Every stored errand is funded, completed or disputed: released and resolved
/// errands leave storage.
pub open spec fn errands_in_flight(v: EnvView) -> bool {
    forall|id: Seq<char>| #[trigger] v.errands.contains_key(id) ==> {
        let s = v.errands[id].state;
        s == ErrandState::Funded || s == ErrandState::Completed || s == ErrandState::Disputed
    }
}

/// A refused request changes no storage, and every request leaves the earlier
/// record of host requests as it was.
pub proof fn lemma_refusal_changes_no_storage(v: EnvView, req: Request)
    ensures
        !serve(v, req).1 ==> same_storage(serve(v, req).0, v),
        serve(v, req).0.calls.len() >= v.calls.len(),
        serve(v, req).0.calls.subrange(0, v.calls.len() as int) == v.calls,
{
    let after = serve(v, req).0;
    assert(after.calls.subrange(0, v.calls.len() as int) =~= v.calls);
    match req {
        Request::UpdateRates { .. } => {},
        Request::UpdateAdmin(_) => {},
        Request::UpdateErrandgoAccount(_) => {},
        Request::UpdatePaymaster(_) => {},
        Request::DepositToReserve { .. } => {},
        Request::WithdrawFromReserve { .. } => {},
        Request::RemoveReserve { .. } => {},
        Request::OnRamp { .. } => {},
        Request::OffRamp { .. } => {},
        Request::FundErrandEscrow { .. } => {},
        Request::MarkErrandCompleted(_) => {},
        Request::MarkErrandDisputed(_) => {},
        Request::ReleaseErrandEscrow(_) => {},
        Request::ResolveDisputedErrand { .. } => {},
        Request::Upgrade(_) => {},
        Request::GetReserve => {},
    }
}

/// A request that is accepted was authorised: the first host request it makes
/// is to check the authorisation of the role that guards it (the
/// administrator, the paymaster, or the paying account).
pub proof fn lemma_accepted_requests_are_authorised(v: EnvView, req: Request)
    ensures
        serve(v, req).1 ==> match authoriser(v, req) {
            Some(a) => serve(v, req).0.calls.len() > v.calls.len()
                && serve(v, req).0.calls[v.calls.len() as int] == HostCall::RequireAuth(a),
            None => true,
        },
{
}

/// The state of the errand stored under `id`, if one is.
pub open spec fn state_of(v: EnvView, id: Seq<char>) -> Option<ErrandState> {
    if v.errands.contains_key(id) {
        Some(v.errands[id].state)
    } else {
        None
    }
}

/// The moves an errand may make: into storage as funded; funded to completed or
/// disputed; completed out of storage (released); disputed out of storage (resolved).
pub open spec fn allowed_move(before: Option<ErrandState>, after: Option<ErrandState>) -> bool {
    ||| before == after
    ||| before is None && after == Some(ErrandState::Funded)
    ||| before == Some(ErrandState::Funded) && after == Some(ErrandState::Completed)
    ||| before == Some(ErrandState::Funded) && after == Some(ErrandState::Disputed)
    ||| before == Some(ErrandState::Completed) && after is None
    ||| before == Some(ErrandState::Disputed) && after is None
}

/// No request moves an errand otherwise than the lifecycle allows.
pub proof fn lemma_errand_moves_follow_lifecycle(v: EnvView, req: Request, id: Seq<char>)
    ensures
        allowed_move(state_of(v, id), state_of(serve(v, req).0, id)),
{
    match req {
        Request::UpdateRates { .. } => {},
        Request::UpdateAdmin(_) => {},
        Request::UpdateErrandgoAccount(_) => {},
        Request::UpdatePaymaster(_) => {},
        Request::DepositToReserve { .. } => {},
        Request::WithdrawFromReserve { .. } => {},
        Request::RemoveReserve { .. } => {},
        Request::OnRamp { .. } => {},
        Request::OffRamp { .. } => {},
        Request::FundErrandEscrow { .. } => {},
        Request::MarkErrandCompleted(_) => {},
        Request::MarkErrandDisputed(_) => {},
        Request::ReleaseErrandEscrow(_) => {},
        Request::ResolveDisputedErrand { .. } => {},
        Request::Upgrade(_) => {},
        Request::GetReserve => {},
    }
}

/// Every request keeps the stored errands in flight.
pub proof fn lemma_errands_stay_in_flight(v: EnvView, req: Request)
    requires
        errands_in_flight(v),
    ensures
        errands_in_flight(serve(v, req).0),
{
    let after = serve(v, req).0;
    assert forall|id: Seq<char>| #[trigger] after.errands.contains_key(id) implies {
        let s = after.errands[id].state;
        s == ErrandState::Funded || s == ErrandState::Completed || s == ErrandState::Disputed
    } by {
        lemma_errand_moves_follow_lifecycle(v, req, id);
        if v.errands.contains_key(id) {
        }
    }
}

/// Which entry point makes which move: marking completed and marking disputed
/// need a funded errand; release needs a completed one and resolution a disputed
/// one, and both take the errand out of storage.
pub proof fn lemma_entry_points_move_errands(v: EnvView, errand_id: String, cust_percent: u32)
    ensures
        mark_errand_outcome(v, errand_id, ErrandState::Completed).1 is Ok ==> state_of(v, errand_id@)
            == Some(ErrandState::Funded) && state_of(
            mark_errand_outcome(v, errand_id, ErrandState::Completed).0,
            errand_id@,
        ) == Some(ErrandState::Completed),
        mark_errand_outcome(v, errand_id, ErrandState::Disputed).1 is Ok ==> state_of(v, errand_id@)
            == Some(ErrandState::Funded) && state_of(
            mark_errand_outcome(v, errand_id, ErrandState::Disputed).0,
            errand_id@,
        ) == Some(ErrandState::Disputed),
        release_errand_escrow_outcome(v, errand_id).1 is Ok ==> state_of(v, errand_id@) == Some(
            ErrandState::Completed,
        ) && state_of(release_errand_escrow_outcome(v, errand_id).0, errand_id@) is None,
        resolve_disputed_errand_outcome(v, errand_id, cust_percent).1 is Ok ==> state_of(v, errand_id@)
            == Some(ErrandState::Disputed) && state_of(
            resolve_disputed_errand_outcome(v, errand_id, cust_percent).0,
            errand_id@,
        ) is None,
{
}

/// An errand id that is in escrow cannot be funded again: a second funding
/// under the same id is answered `ErrandAlreadyFunded` and changes nothing.
pub proof fn lemma_errand_funded_once(
    v: EnvView,
    errand_id: String,
    customer_id: String,
    customer_wallet: Address,
    runner_id: String,
    runner_wallet: Address,
    fiat_amount: i128,
    again_id: String,
    again_customer_id: String,
    again_customer_wallet: Address,
    again_runner_id: String,
    again_runner_wallet: Address,
    again_fiat_amount: i128,
)
    requires
        fund_errand_escrow_outcome(v, errand_id, customer_id, customer_wallet, runner_id, runner_wallet, fiat_amount).1 is Ok,
        again_id@ == errand_id@,
    ensures
        ({
            let w = fund_errand_escrow_outcome(
                v,
                errand_id,
                customer_id,
                customer_wallet,
                runner_id,
                runner_wallet,
                fiat_amount,
            ).0;
            fund_errand_escrow_outcome(
                w,
                again_id,
                again_customer_id,
                again_customer_wallet,
                again_runner_id,
                again_runner_wallet,
                again_fiat_amount,
            ) == (w, Err::<(String, i128), ContractError>(ContractError::ErrandAlreadyFunded))
        }),
{
}

/// Splitting an amount by two complementary percentages, each share rounded
/// toward zero, loses at most one unit.
pub proof fn lemma_two_way_split(a: int, p: int)
    requires
        0 <= a,
        0 <= p <= 100,
    ensures
        a - 1 <= quotient(a * p, 100) + quotient(a * (100 - p), 100) <= a,
{
    let x = a * p;
    let y = a * (100 - p);
    assert(x >= 0 && y >= 0 && x + y == 100 * a) by (nonlinear_arith)
        requires
            0 <= a,
            0 <= p <= 100,
            x == a * p,
            y == a * (100 - p),
    ;
}

/// Splitting an amount three ways by percentages that add up to one hundred,
/// each share rounded toward zero, loses at most two units.
pub proof fn lemma_three_way_split(a: int, p: int, q: int)
    requires
        0 <= a,
        0 <= p,
        0 <= q,
        p + q <= 100,
    ensures
        a - 2 <= quotient(a * p, 100) + quotient(a * q, 100) + quotient(a * (100 - p - q), 100) <= a,
{
    let x = a * p;
    let y = a * q;
    let z = a * (100 - p - q);
    assert(x >= 0 && y >= 0 && z >= 0 && x + y + z == 100 * a) by (nonlinear_arith)
        requires
            0 <= a,
            0 <= p,
            0 <= q,
            p + q <= 100,
            x == a * p,
            y == a * q,
            z == a * (100 - p - q),
    ;
}

/// The amount that a host request sends out of the contract.
pub open spec fn sent(c: HostCall) -> int {
    match c {
        HostCall::SendAsset { amount, .. } => amount as int,
        _ => 0,
    }
}

/// Releasing a completed errand pays out, to the treasury and the runner
/// together, the platform fee plus the errand amount, less at most one unit
/// lost to rounding (for an errand amount of at least zero).
pub proof fn lemma_release_pays_out_the_escrow(v: EnvView, errand_id: String)
    requires
        release_errand_escrow_outcome(v, errand_id).1 is Ok,
        v.errands.contains_key(errand_id@),
        v.errands[errand_id@].amount >= 0,
    ensures
        ({
            let n = v.calls.len() as int;
            let w = release_errand_escrow_outcome(v, errand_id).0;
            let paid = sent(w.calls[n + 1]) + sent(w.calls[n + 2]);
            let owed = rates_in(v).platform_fee + v.errands[errand_id@].amount;
            w.calls.len() == n + 3 && owed - 1 <= paid <= owed
        }),
{
    let rates = rates_in(v);
    lemma_two_way_split(v.errands[errand_id@].amount as int, rates.commission_percent as int);
}

/// Resolving a disputed errand pays out, to the treasury, the customer and the
/// runner together, the platform fee plus the errand amount, less at most two
/// units lost to rounding (for an errand amount of at least zero).
pub proof fn lemma_resolution_pays_out_the_escrow(v: EnvView, errand_id: String, cust_percent: u32)
    requires
        resolve_disputed_errand_outcome(v, errand_id, cust_percent).1 is Ok,
        v.errands.contains_key(errand_id@),
        v.errands[errand_id@].amount >= 0,
    ensures
        ({
            let n = v.calls.len() as int;
            let w = resolve_disputed_errand_outcome(v, errand_id, cust_percent).0;
            let paid = sent(w.calls[n + 1]) + sent(w.calls[n + 2]) + sent(w.calls[n + 3]);
            let owed = rates_in(v).platform_fee + v.errands[errand_id@].amount;
            w.calls.len() == n + 4 && owed - 2 <= paid <= owed
        }),
{
    let rates = rates_in(v);
    lemma_three_way_split(
        v.errands[errand_id@].amount as int,
        rates.commission_percent as int,
        cust_percent as int,
    );
}

/// Ten to the power of the precision fits in `i128` exactly for precisions up
/// to 38; the constructor's cap of 18 keeps every conversion clear of that
/// overflow until the rates are changed.
pub proof fn lemma_precision_range(p: u32)
    ensures
        checked_pow10(p) is Some <==> p <= 38,
{
    reveal_with_fuel(pow10, 40);
    assert(pow10(38) == 100000000000000000000000000000000000000int);
    assert(pow10(39) == 1000000000000000000000000000000000000000int);
    if p <= 38 {
        lemma_pow10_grows(p as nat, 38);
    } else {
        lemma_pow10_grows(39, p as nat);
    }
}

/// The rates that `update_rates` stores are those that `get_rates` and
/// `get_parameters` then report.
pub proof fn lemma_rates_read_back(
    v: EnvView,
    off_ramp: i128,
    on_ramp: i128,
    tx_fee: i128,
    platform_fee: i128,
    commission_percent: u32,
    precision: u32,
)
    requires
        update_rates_outcome(v, off_ramp, on_ramp, tx_fee, platform_fee, commission_percent, precision).1 is Ok,
    ensures
        ({
            let w = update_rates_outcome(v, off_ramp, on_ramp, tx_fee, platform_fee, commission_percent, precision).0;
            &&& rates_in(w) == (Rates { off_ramp, on_ramp, tx_fee, platform_fee, commission_percent, precision })
            &&& parameters_in(w) is Ok ==> {
                let p = parameters_in(w)->Ok_0;
                &&& p.off_ramp == off_ramp
                &&& p.on_ramp == on_ramp
                &&& p.tx_fee == tx_fee
                &&& p.platform_fee == platform_fee
                &&& p.commission_percent == commission_percent
                &&& p.precision == precision
            }
        }),
{
}

/// A role that the administrator hands over is the one that is read back: the
/// new administrator then authorises every administrative request, and the new
/// paymaster and treasury account are those that `get_parameters` reports.
pub proof fn lemma_roles_read_back(v: EnvView, id: Address, req: Request)
    ensures
        update_admin_outcome(v, id).1 is Ok ==> match req {
            Request::UpdateRates { .. } | Request::UpdateAdmin(_) | Request::UpdateErrandgoAccount(_)
            | Request::UpdatePaymaster(_) | Request::WithdrawFromReserve { .. }
            | Request::ResolveDisputedErrand { .. } | Request::Upgrade(_) => authoriser(
                update_admin_outcome(v, id).0,
                req,
            ) == Some(id),
            _ => true,
        },
        update_paymaster_outcome(v, id).1 is Ok && parameters_in(update_paymaster_outcome(v, id).0) is Ok
            ==> parameters_in(update_paymaster_outcome(v, id).0)->Ok_0.paymaster == id,
        update_errandgo_account_outcome(v, id).1 is Ok && parameters_in(update_errandgo_account_outcome(v, id).0) is Ok
            ==> parameters_in(update_errandgo_account_outcome(v, id).0)->Ok_0.errandgo_account == id,
{
}

/// Removing from the reserve what was just deposited, when the contract holds
/// enough, brings the tracked deposit back to what it was (where the deposit did
/// not saturate).
pub proof fn lemma_reserve_deposit_then_removal(v: EnvView, from: Address, amount: i128, reserve_balance: i128)
    requires
        deposit_to_reserve_outcome(v, from, amount).1 is Ok,
        reserve_balance >= amount,
        in_i128(deposit_in(v, v.payment_asset->0) + amount),
    ensures
        ({
            let asset = v.payment_asset->0;
            let w = deposit_to_reserve_outcome(v, from, amount).0;
            let u = remove_reserve_outcome(w, asset, amount, reserve_balance);
            u.1 is Ok && deposit_in(u.0, asset) == deposit_in(v, asset)
        }),
{
}

/// The amount that a host request takes into the contract.
pub open spec fn taken(c: HostCall) -> int {
    match c {
        HostCall::TakeAsset { amount, .. } => amount as int,
        _ => 0,
    }
}

/// Converting a non-negative amount at a non-negative rate gives a
/// non-negative amount.
pub proof fn lemma_conversion_not_negative(amount: i128, rate: i128, precision: u32)
    requires
        amount >= 0,
        rate >= 0,
        converted(amount, rate, precision) is Ok,
    ensures
        converted(amount, rate, precision)->Ok_0 >= 0,
{
    let product = amount * rate;
    assert(product >= 0) by (nonlinear_arith)
        requires
            amount >= 0,
            rate >= 0,
            product == amount * rate,
    ;
    lemma_pow10_grows(0, precision as nat);
    lemma_quotient_bounds(product, pow10(precision as nat));
}

/// An errand funded, completed and released with the rates unchanged pays out
/// what funding took in (the escrow plus the platform fee), less at most one
/// unit lost to rounding; disputed and resolved, less at most two. This holds
/// for a non-negative on-ramp rate, under which every escrow is non-negative.
pub proof fn lemma_errand_pays_out_what_it_took(
    v: EnvView,
    errand_id: String,
    customer_id: String,
    customer_wallet: Address,
    runner_id: String,
    runner_wallet: Address,
    fiat_amount: i128,
    cust_percent: u32,
)
    requires
        rates_in(v).on_ramp >= 0,
        fund_errand_escrow_outcome(v, errand_id, customer_id, customer_wallet, runner_id, runner_wallet, fiat_amount).1 is Ok,
    ensures
        ({
            let funded = fund_errand_escrow_outcome(
                v,
                errand_id,
                customer_id,
                customer_wallet,
                runner_id,
                runner_wallet,
                fiat_amount,
            ).0;
            let took = taken(funded.calls[v.calls.len() as int + 1]);
            let completed = mark_errand_outcome(funded, errand_id, ErrandState::Completed).0;
            let released = release_errand_escrow_outcome(completed, errand_id).0;
            let n = completed.calls.len() as int;
            release_errand_escrow_outcome(completed, errand_id).1 is Ok
                ==> took - 1 <= sent(released.calls[n + 1]) + sent(released.calls[n + 2]) <= took
        }),
        ({
            let funded = fund_errand_escrow_outcome(
                v,
                errand_id,
                customer_id,
                customer_wallet,
                runner_id,
                runner_wallet,
                fiat_amount,
            ).0;
            let took = taken(funded.calls[v.calls.len() as int + 1]);
            let disputed = mark_errand_outcome(funded, errand_id, ErrandState::Disputed).0;
            let resolved = resolve_disputed_errand_outcome(disputed, errand_id, cust_percent).0;
            let n = disputed.calls.len() as int;
            resolve_disputed_errand_outcome(disputed, errand_id, cust_percent).1 is Ok
                ==> took - 2 <= sent(resolved.calls[n + 1]) + sent(resolved.calls[n + 2]) + sent(
                resolved.calls[n + 3],
            ) <= took
        }),
{
    let rates = rates_in(v);
    lemma_conversion_not_negative(fiat_amount, rates.on_ramp, rates.precision);
    let funded = fund_errand_escrow_outcome(
        v,
        errand_id,
        customer_id,
        customer_wallet,
        runner_id,
        runner_wallet,
        fiat_amount,
    ).0;
    let completed = mark_errand_outcome(funded, errand_id, ErrandState::Completed).0;
    if release_errand_escrow_outcome(completed, errand_id).1 is Ok {
        lemma_release_pays_out_the_escrow(completed, errand_id);
    }
    let disputed = mark_errand_outcome(funded, errand_id, ErrandState::Disputed).0;
    if resolve_disputed_errand_outcome(disputed, errand_id, cust_percent).1 is Ok {
        lemma_resolution_pays_out_the_escrow(disputed, errand_id, cust_percent);
    }
}

/// An off-ramp is accepted exactly when the amount is not negative, the payment
/// asset and the treasury are stored, and amount + fee, `10^precision` and
/// amount * off-ramp rate all fit in `i128`. It then takes amount + fee from the
/// customer, passes the fee to the treasury, and announces and answers the fiat
/// value `amount * off_ramp / 10^precision`, rounded toward zero, at the stored
/// off-ramp rate and precision.
pub proof fn lemma_off_ramp_announces_the_fiat_value(v: EnvView, from: Address, customer_id: String, amount: i128)
    ensures
        ({
            let r = rates_in(v);
            let o = off_ramp_outcome(v, from, customer_id, amount);
            let fiat = quotient(amount * r.off_ramp, pow10(r.precision as nat)) as i128;
            &&& o.1 is Ok <==> (amount >= 0 && v.payment_asset is Some && v.errandgo_account is Some
                && in_i128(amount + r.tx_fee) && pow10(r.precision as nat) <= i128::MAX
                && in_i128(amount * r.off_ramp))
            &&& o.1 is Ok ==> {
                &&& o.1 == Ok::<(String, i128), ContractError>((customer_id, fiat))
                &&& o.0.calls == v.calls.push(HostCall::RequireAuth(from)).push(
                    HostCall::TakeAsset {
                        from,
                        asset: v.payment_asset->0,
                        amount: (amount + r.tx_fee) as i128,
                    },
                ).push(HostCall::SendAsset {
                    to: v.errandgo_account->0,
                    asset: v.payment_asset->0,
                    amount: r.tx_fee,
                }).push(HostCall::Publish(Event::OffRamp(OffRampEvent { customer_id, fiat_amount: fiat })))
                &&& same_storage(o.0, v)
            }
        }),
{
    lemma_pow10_grows(0, rates_in(v).precision as nat);
}

/// An on-ramp is accepted exactly when the paymaster and the payment asset are
/// stored, the fiat amount is not negative, and `10^precision` and
/// fiat * on-ramp rate fit in `i128`. It then sends `to` the crypto value
/// `fiat * on_ramp / 10^precision`, rounded toward zero, announces it, and
/// answers `to` with that value.
pub proof fn lemma_on_ramp_sends_the_crypto_value(v: EnvView, to: Address, fiat_amount: i128)
    ensures
        ({
            let r = rates_in(v);
            let o = on_ramp_outcome(v, to, fiat_amount);
            let crypto = quotient(fiat_amount * r.on_ramp, pow10(r.precision as nat)) as i128;
            &&& o.1 is Ok <==> (v.paymaster is Some && v.payment_asset is Some && fiat_amount >= 0
                && pow10(r.precision as nat) <= i128::MAX && in_i128(fiat_amount * r.on_ramp))
            &&& o.1 is Ok ==> {
                &&& o.1 == Ok::<(Address, i128), ContractError>((to, crypto))
                &&& o.0.calls == v.calls.push(HostCall::RequireAuth(v.paymaster->0)).push(
                    HostCall::SendAsset { to, asset: v.payment_asset->0, amount: crypto },
                ).push(HostCall::Publish(Event::OnRamp(OnRampEvent { account: to, crypto_amount: crypto })))
                &&& same_storage(o.0, v)
            }
        }),
{
    lemma_pow10_grows(0, rates_in(v).precision as nat);
}

/// Funding is accepted exactly when no errand is stored under the id, the fiat
/// amount is not negative, the payment asset is stored, and `10^precision`,
/// fiat * on-ramp rate and escrow + platform fee fit in `i128`. The escrow is
/// `fiat * on_ramp / 10^precision`, rounded toward zero; escrow + platform fee
/// is taken from the customer's wallet, and the errand is stored as funded with
/// the given customer, runner and escrow.
pub proof fn lemma_funding_escrows_the_converted_amount(
    v: EnvView,
    errand_id: String,
    customer_id: String,
    customer_wallet: Address,
    runner_id: String,
    runner_wallet: Address,
    fiat_amount: i128,
)
    ensures
        ({
            let r = rates_in(v);
            let o = fund_errand_escrow_outcome(v, errand_id, customer_id, customer_wallet, runner_id, runner_wallet, fiat_amount);
            let escrow = quotient(fiat_amount * r.on_ramp, pow10(r.precision as nat));
            &&& o.1 is Ok <==> (!v.errands.contains_key(errand_id@) && fiat_amount >= 0
                && v.payment_asset is Some && pow10(r.precision as nat) <= i128::MAX
                && in_i128(fiat_amount * r.on_ramp) && in_i128(escrow + r.platform_fee))
            &&& o.1 is Ok ==> {
                &&& o.1 == Ok::<(String, i128), ContractError>((errand_id, escrow as i128))
                &&& o.0.errands == v.errands.insert(errand_id@, ErrandData {
                    customer_id,
                    customer_wallet,
                    amount: escrow as i128,
                    runner_id,
                    runner_wallet,
                    state: ErrandState::Funded,
                })
                &&& o.0.calls == v.calls.push(HostCall::RequireAuth(customer_wallet)).push(
                    HostCall::TakeAsset {
                        from: customer_wallet,
                        asset: v.payment_asset->0,
                        amount: (escrow + r.platform_fee) as i128,
                    },
                ).push(HostCall::Publish(Event::ErrandState(ErrandStateEvent {
                    errand_id,
                    state: ErrandState::Funded,
                })))
            }
        }),
{
    lemma_pow10_grows(0, rates_in(v).precision as nat);
}

/// Marking is accepted exactly when the paymaster is stored and a funded errand
/// is stored under the id; the errand then takes the new state and keeps all
/// else, and the move is announced.
pub proof fn lemma_marking_moves_a_funded_errand(v: EnvView, errand_id: String, next: ErrandState)
    ensures
        ({
            let o = mark_errand_outcome(v, errand_id, next);
            &&& o.1 is Ok <==> (v.paymaster is Some && v.errands.contains_key(errand_id@)
                && v.errands[errand_id@].state == ErrandState::Funded)
            &&& o.1 is Ok ==> {
                &&& o.1 == Ok::<(String, ErrandState), ContractError>((errand_id, next))
                &&& o.0.errands == v.errands.insert(errand_id@, ErrandData { state: next, ..v.errands[errand_id@] })
                &&& o.0.calls == v.calls.push(HostCall::RequireAuth(v.paymaster->0)).push(
                    HostCall::Publish(Event::ErrandState(ErrandStateEvent { errand_id, state: next })),
                )
            }
        }),
{
}

/// Release is accepted exactly when the commission is at most 100 percent, the
/// paymaster, the payment asset and the treasury are stored, a completed errand
/// is stored under the id, and the products and the treasury's total fit in
/// `i128`. The treasury then gets the platform fee plus
/// `escrow * commission_percent / 100`, the runner `escrow * (100 -
/// commission_percent) / 100` (each rounded toward zero), and the errand leaves
/// storage.
pub proof fn lemma_release_pays_commission_and_runner_share(v: EnvView, errand_id: String)
    ensures
        ({
            let r = rates_in(v);
            let cp = r.commission_percent as int;
            let o = release_errand_escrow_outcome(v, errand_id);
            let d = v.errands[errand_id@];
            let a = d.amount as int;
            &&& o.1 is Ok <==> (cp <= 100 && v.paymaster is Some && v.payment_asset is Some
                && v.errandgo_account is Some && v.errands.contains_key(errand_id@)
                && d.state == ErrandState::Completed && in_i128(a * cp)
                && in_i128(r.platform_fee + quotient(a * cp, 100)) && in_i128(a * (100 - cp)))
            &&& o.1 is Ok ==> {
                &&& o.1 == Ok::<(String, ErrandState), ContractError>((errand_id, ErrandState::Released))
                &&& o.0.errands == v.errands.remove(errand_id@)
                &&& o.0.calls == v.calls.push(HostCall::RequireAuth(v.paymaster->0)).push(
                    HostCall::SendAsset {
                        to: v.errandgo_account->0,
                        asset: v.payment_asset->0,
                        amount: (r.platform_fee + quotient(a * cp, 100)) as i128,
                    },
                ).push(HostCall::SendAsset {
                    to: d.runner_wallet,
                    asset: v.payment_asset->0,
                    amount: quotient(a * (100 - cp), 100) as i128,
                })
            }
        }),
{
}

/// Resolution is refused with `NegativeAmount` exactly when the commission and
/// the customer's percent add up to more than 100 (and to no more than
/// `u32::MAX`, above which it is an `Overflow`). It is accepted exactly when they
/// add up to at most 100, the administrator, the payment asset and the treasury
/// are stored, a disputed errand is stored under the id, and the products and
/// the treasury's total fit in `i128`; a customer share of everything but the
/// commission is a full refund, with nothing for the runner. The treasury then
/// gets the platform fee plus `escrow * commission_percent / 100`, the customer
/// `escrow * cust_percent / 100`, the runner `escrow * (100 - commission_percent
/// - cust_percent) / 100` (each rounded toward zero), and the errand leaves
/// storage.
pub proof fn lemma_resolution_splits_by_percent(v: EnvView, errand_id: String, cust_percent: u32)
    ensures
        ({
            let r = rates_in(v);
            let cp = r.commission_percent as int;
            let c = cust_percent as int;
            let o = resolve_disputed_errand_outcome(v, errand_id, cust_percent);
            let d = v.errands[errand_id@];
            let a = d.amount as int;
            &&& o.1 == Err::<(String, ErrandState), ContractError>(ContractError::NegativeAmount) <==> (
            100 < cp + c <= u32::MAX)
            &&& cp + c > u32::MAX ==> o.1 == Err::<(String, ErrandState), ContractError>(ContractError::Overflow)
            &&& o.1 is Ok <==> (cp + c <= 100 && v.admin is Some && v.payment_asset is Some
                && v.errandgo_account is Some && v.errands.contains_key(errand_id@)
                && d.state == ErrandState::Disputed && in_i128(a * cp)
                && in_i128(r.platform_fee + quotient(a * cp, 100)) && in_i128(a * c)
                && in_i128(a * (100 - cp - c)))
            &&& o.1 is Ok ==> {
                &&& o.1 == Ok::<(String, ErrandState), ContractError>((errand_id, ErrandState::Resolved))
                &&& o.0.errands == v.errands.remove(errand_id@)
                &&& o.0.calls == v.calls.push(HostCall::RequireAuth(v.admin->0)).push(
                    HostCall::SendAsset {
                        to: v.errandgo_account->0,
                        asset: v.payment_asset->0,
                        amount: (r.platform_fee + quotient(a * cp, 100)) as i128,
                    },
                ).push(HostCall::SendAsset {
                    to: d.customer_wallet,
                    asset: v.payment_asset->0,
                    amount: quotient(a * c, 100) as i128,
                }).push(HostCall::SendAsset {
                    to: d.runner_wallet,
                    asset: v.payment_asset->0,
                    amount: quotient(a * (100 - cp - c), 100) as i128,
                })
            }
        }),
{
}

/// An upgrade is accepted exactly when the administrator is stored; it then asks
/// for the administrator's authorisation and installs exactly the hash given.
pub proof fn lemma_upgrade_installs_the_given_hash(v: EnvView, wasm: [u8; 32])
    ensures
        ({
            let o = upgrade_outcome(v, wasm);
            &&& o.1 is Ok <==> v.admin is Some
            &&& o.1 is Ok ==> o.0.calls == v.calls.push(HostCall::RequireAuth(v.admin->0)).push(
                HostCall::UpdateContractWasm(wasm),
            ) && o.0.calls.last() == HostCall::UpdateContractWasm(wasm) && same_storage(o.0, v)
        }),
{
}

/// A withdrawal is accepted exactly when the administrator and the payment
/// asset are stored and the amount is not negative; it then sends exactly that
/// amount of the payment asset to the destination given.
pub proof fn lemma_withdrawal_sends_to_the_destination(v: EnvView, to: Address, amount: i128)
    ensures
        ({
            let o = withdraw_from_reserve_outcome(v, to, amount);
            &&& o.1 is Ok <==> (v.admin is Some && amount >= 0 && v.payment_asset is Some)
            &&& o.1 is Ok ==> o.0.calls == v.calls.push(HostCall::RequireAuth(v.admin->0)).push(
                HostCall::SendAsset { to, asset: v.payment_asset->0, amount },
            ) && o.0.calls.last() == HostCall::SendAsset { to, asset: v.payment_asset->0, amount }
                && same_storage(o.0, v)
        }),
{
}

/// Taking `amount` off the reserve is accepted exactly when the payment asset
/// is stored, the contract holds at least `amount`, and the new deposit fits in
/// `i128`; the deposit of the asset then drops by exactly `amount`.
pub proof fn lemma_removal_takes_the_deposit_down(v: EnvView, asset: Address, amount: i128, reserve_balance: i128)
    ensures
        ({
            let o = remove_reserve_outcome(v, asset, amount, reserve_balance);
            &&& o.1 is Ok <==> (v.payment_asset is Some && reserve_balance >= amount
                && in_i128(deposit_in(v, asset) - amount))
            &&& o.1 is Ok ==> deposit_in(o.0, asset) == deposit_in(v, asset) - amount
            &&& o.1 == Err::<(), ContractError>(ContractError::InsufficientBalance) <==> (
            v.payment_asset is Some && reserve_balance < amount)
        }),
{
}

/// A deposit is accepted exactly when the amount is not negative and the payment
/// asset is stored; it then takes the amount from the depositor and raises the
/// tracked deposit of the payment asset by it, clamped to the range of `i128`.
pub proof fn lemma_deposit_raises_the_reserve(v: EnvView, from: Address, amount: i128)
    ensures
        ({
            let o = deposit_to_reserve_outcome(v, from, amount);
            let asset = v.payment_asset->0;
            let sum = deposit_in(v, asset) + amount;
            &&& o.1 is Ok <==> (amount >= 0 && v.payment_asset is Some)
            &&& o.1 is Ok ==> {
                &&& deposit_in(o.0, asset) == (if sum > i128::MAX { i128::MAX as int } else { sum })
                &&& o.0.calls[v.calls.len() as int] == HostCall::RequireAuth(from)
                &&& o.0.calls[v.calls.len() as int + 1] == HostCall::TakeAsset { from, asset, amount }
                &&& o.0.errands == v.errands
            }
        }),
{
}

} // verus!
