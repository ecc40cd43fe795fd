//! Checked conversions and the rounding of sizes to a market's step.

use crate::error::ErrorCode;
use vstd::prelude::*;

verus! {

/// The magnitude of a signed amount as a mathematical integer.
pub open spec fn magnitude(x: int) -> int {
    if x < 0 {
        -x
    } else {
        x
    }
}

/// The magnitude of a signed amount. Every `i128` has one that fits `u128`.
pub fn unsigned_abs(x: i128) -> (r: u128)
    ensures
        r == magnitude(x as int),
{
    if x >= 0 {
        x as u128
    } else if x == i128::MIN {
        0x8000_0000_0000_0000_0000_0000_0000_0000u128
    } else {
        (-x) as u128
    }
}

/// The smaller of two amounts.
pub open spec fn smaller(a: u128, b: u128) -> u128 {
    if a <= b {
        a
    } else {
        b
    }
}

/// The smaller of two amounts.
pub fn min_amount(a: u128, b: u128) -> (r: u128)
    ensures
        r == smaller(a, b),
{
    if a <= b {
        a
    } else {
        b
    }
}

/// An unsigned amount as a signed one; `CastingFailure` exactly when it does not fit.
pub fn cast_to_i128(x: u128) -> (r: Result<i128, ErrorCode>)
    ensures
        x <= i128::MAX ==> r == Ok::<i128, ErrorCode>(x as i128),
        x > i128::MAX ==> r == Err::<i128, ErrorCode>(ErrorCode::CastingFailure),
{
    if x <= 0x7fff_ffff_ffff_ffff_ffff_ffff_ffff_ffffu128 {
        Ok(x as i128)
    } else {
        Err(ErrorCode::CastingFailure)
    }
}

/// An unsigned amount in 64 bits; `CastingFailure` exactly when it does not fit.
pub fn cast_to_u64(x: u128) -> (r: Result<u64, ErrorCode>)
    ensures
        x <= u64::MAX ==> r == Ok::<u64, ErrorCode>(x as u64),
        x > u64::MAX ==> r == Err::<u64, ErrorCode>(ErrorCode::CastingFailure),
{
    if x <= 0xffff_ffff_ffff_ffffu128 {
        Ok(x as u64)
    } else {
        Err(ErrorCode::CastingFailure)
    }
}

/// What `standardize_base_asset_amount` returns: the largest multiple of
/// `step_size` that does not exceed `base_asset_amount`.
pub open spec fn standardized(base_asset_amount: u128, step_size: u128) -> u128
    recommends
        step_size > 0,
{
    (base_asset_amount - base_asset_amount % step_size) as u128
}

/// Rounds a requested size down to the market's step size.
///
/// A step size of zero is an arithmetic error.
pub fn standardize_base_asset_amount(base_asset_amount: u128, step_size: u128) -> (r: Result<
    u128,
    ErrorCode,
>)
    ensures
        step_size == 0 ==> r == Err::<u128, ErrorCode>(ErrorCode::MathError),
        step_size > 0 ==> r == Ok::<u128, ErrorCode>(standardized(base_asset_amount, step_size)),
        r matches Ok(amount) ==> amount % step_size == 0 && amount <= base_asset_amount
            && base_asset_amount - amount < step_size,
{
    proof {
        if step_size > 0 {
            lemma_standardized_is_multiple(base_asset_amount, step_size);
        }
    }
    match base_asset_amount.checked_rem_euclid(step_size) {
        None => Err(ErrorCode::MathError),
        Some(remainder) => {
            proof {
                vstd::arithmetic::div_mod::lemma_mod_decreases(
                    base_asset_amount as nat,
                    step_size as nat,
                );
            }
            match base_asset_amount.checked_sub(remainder) {
                None => Err(ErrorCode::MathError),
                Some(amount) => Ok(amount),
            }
        },
    }
}

/// A standardized size is a whole number of steps, and less than one step
/// below the requested size.
pub proof fn lemma_standardized_is_multiple(base_asset_amount: u128, step_size: u128)
    requires
        step_size > 0,
    ensures
        standardized(base_asset_amount, step_size) % step_size == 0,
        standardized(base_asset_amount, step_size) <= base_asset_amount,
        base_asset_amount - standardized(base_asset_amount, step_size) < step_size,
{
    let a = base_asset_amount as int;
    let s = step_size as int;
    vstd::arithmetic::div_mod::lemma_fundamental_div_mod(a, s);
    vstd::arithmetic::div_mod::lemma_mod_multiples_basic(a / s, s);
    assert(a - a % s == s * (a / s));
    assert(s * (a / s) == (a / s) * s) by (nonlinear_arith);
    vstd::arithmetic::div_mod::lemma_mod_pos_bound(a, s);
}

} // verus!
