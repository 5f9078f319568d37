//! The platform's conversion rates and fees.
use vstd::prelude::*;
use crate::data::Rates;
use crate::env::{Env, EnvView};

verus! {

/// The rates in force while none are stored: everything zero, precision 7.
pub open spec fn default_rates() -> Rates {
    Rates { on_ramp: 0, off_ramp: 0, tx_fee: 0, platform_fee: 0, commission_percent: 0, precision: 7 }
}

/// The rates in force in an environment.
pub open spec fn rates_in(v: EnvView) -> Rates {
    match v.rates {
        Some(r) => r,
        None => default_rates(),
    }
}

/// The rates in force: those stored, else the defaults.
pub fn read_rates(e: &Env) -> (r: Rates)
    ensures
        r == rates_in(e@),
{
    match e.stored_rates() {
        Some(r) => r,
        None => Rates {
            on_ramp: 0,
            off_ramp: 0,
            tx_fee: 0,
            platform_fee: 0,
            commission_percent: 0,
            precision: 7,
        },
    }
}

/// Stores the rates.
pub fn write_rates(
    e: &mut Env,
    off_ramp: i128,
    on_ramp: i128,
    tx_fee: i128,
    platform_fee: i128,
    commission_percent: u32,
    precision: u32,
)
    ensures
        final(e)@ == (EnvView {
            rates: Some(Rates { off_ramp, on_ramp, tx_fee, platform_fee, commission_percent, precision }),
            ..old(e)@
        }),
{
    e.store_rates(Rates { off_ramp, on_ramp, tx_fee, platform_fee, commission_percent, precision });
}

} // verus!
