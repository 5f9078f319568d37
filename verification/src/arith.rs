//! The arithmetic of conversions and payouts: powers of ten, truncating
//! division, and checked products.
use vstd::prelude::*;
use crate::error::ContractError;

verus! {

/// Whether `x` is a value of `i128`.
pub open spec fn in_i128(x: int) -> bool {
    i128::MIN <= x <= i128::MAX
}

/// Ten to the power `n`.
pub open spec fn pow10(n: nat) -> int
    decreases n,
{
    if n == 0 {
        1
    } else {
        10 * pow10((n - 1) as nat)
    }
}

/// `10^p` as an `i128`, or `None` where it does not fit.
pub open spec fn checked_pow10(p: u32) -> Option<i128> {
    if pow10(p as nat) <= i128::MAX {
        Some(pow10(p as nat) as i128)
    } else {
        None
    }
}

/// `x / d` rounded toward zero, for a positive `d`.
pub open spec fn quotient(x: int, d: int) -> int {
    if x >= 0 {
        x / d
    } else {
        -((-x) / d)
    }
}

/// `amount * rate / 10^precision`, rounded toward zero; `Overflow` where the
/// power of ten or the product leaves `i128`.
pub open spec fn converted(amount: i128, rate: i128, precision: u32) -> Result<i128, ContractError> {
    match checked_pow10(precision) {
        None => Err(ContractError::Overflow),
        Some(denominator) => if in_i128(amount * rate) {
            Ok(quotient(amount * rate, denominator as int) as i128)
        } else {
            Err(ContractError::Overflow)
        },
    }
}

/// `percent` percent of `amount`, rounded toward zero; `Overflow` where the
/// product leaves `i128`.
pub open spec fn share_of(amount: i128, percent: int) -> Result<i128, ContractError> {
    if in_i128(amount * percent) {
        Ok(quotient(amount * percent, 100) as i128)
    } else {
        Err(ContractError::Overflow)
    }
}

/// Powers of ten are positive and grow with the exponent.
pub proof fn lemma_pow10_grows(i: nat, j: nat)
    requires
        i <= j,
    ensures
        1 <= pow10(i) <= pow10(j),
    decreases j,
{
    if i < j {
        lemma_pow10_grows(i, (j - 1) as nat);
    } else if i > 0 {
        lemma_pow10_grows((i - 1) as nat, (i - 1) as nat);
    }
}

/// Rounding a value of `i128` toward zero by a positive divisor stays within `i128`.
pub proof fn lemma_quotient_bounds(x: int, d: int)
    requires
        d >= 1,
    ensures
        x >= 0 ==> 0 <= quotient(x, d) <= x,
        x < 0 ==> x <= quotient(x, d) <= 0,
{
    if x >= 0 {
        assert(0 <= x / d <= x) by (nonlinear_arith)
            requires
                x >= 0,
                d >= 1,
        ;
    } else {
        let y = -x;
        assert(0 <= y / d <= y) by (nonlinear_arith)
            requires
                y >= 0,
                d >= 1,
        ;
    }
}

/// `10^p` as an `i128`, or `None` where it does not fit.
pub fn pow10_checked(p: u32) -> (r: Option<i128>)
    ensures
        r == checked_pow10(p),
{
    let mut acc: i128 = 1;
    let mut i: u32 = 0;
    while i < p
        invariant
            i <= p,
            acc == pow10(i as nat),
        decreases p - i,
    {
        match acc.checked_mul(10) {
            Some(next) => {
                acc = next;
            },
            None => {
                proof {
                    lemma_pow10_grows((i + 1) as nat, p as nat);
                }
                return None;
            },
        }
        i = i + 1;
    }
    Some(acc)
}

/// `x / d` rounded toward zero, for a positive `d`.
fn divide(x: i128, d: i128) -> (r: i128)
    requires
        d >= 1,
    ensures
        r == quotient(x as int, d as int),
{
    proof {
        lemma_quotient_bounds(x as int, d as int);
    }
    match x.checked_div(d) {
        Some(q) => q,
        None => 0,
    }
}

/// `amount * rate / 10^precision`, rounded toward zero, or `Overflow`.
pub fn convert(amount: i128, rate: i128, precision: u32) -> (r: Result<i128, ContractError>)
    ensures
        r == converted(amount, rate, precision),
{
    let denominator = pow10_checked(precision).ok_or(ContractError::Overflow)?;
    proof {
        lemma_pow10_grows(0, precision as nat);
    }
    let numerator = amount.checked_mul(rate).ok_or(ContractError::Overflow)?;
    Ok(divide(numerator, denominator))
}

/// `percent` percent of `amount`, rounded toward zero, or `Overflow`.
pub fn share(amount: i128, percent: i128) -> (r: Result<i128, ContractError>)
    ensures
        r == share_of(amount, percent as int),
{
    let product = amount.checked_mul(percent).ok_or(ContractError::Overflow)?;
    Ok(divide(product, 100))
}

} // verus!
