//! Checked `i128` arithmetic returning typed errors instead of panicking.
use vstd::prelude::*;
use crate::math::{tdiv, fits_i128};

verus! {

/// Failures of checked arithmetic.
#[derive(Copy, Clone, Debug, PartialEq, Eq, Structural)]
pub enum MathError {
    Overflow,
    DivisionByZero,
    NegativeSqrt,
}

/// `Ok(v)` when `v` fits an `i128`, `Err(Overflow)` otherwise.
pub open spec fn checked_result(v: int) -> Result<i128, MathError> {
    if fits_i128(v) { Ok(v as i128) } else { Err(MathError::Overflow) }
}

/// Checked addition.
pub fn safe_add(a: i128, b: i128) -> (r: Result<i128, MathError>)
    ensures
        r == checked_result(a + b),
{
    match a.checked_add(b) {
        Some(v) => Ok(v),
        None => Err(MathError::Overflow),
    }
}

/// Checked subtraction.
pub fn safe_sub(a: i128, b: i128) -> (r: Result<i128, MathError>)
    ensures
        r == checked_result(a - b),
{
    match a.checked_sub(b) {
        Some(v) => Ok(v),
        None => Err(MathError::Overflow),
    }
}

/// Checked multiplication.
pub fn safe_mul(a: i128, b: i128) -> (r: Result<i128, MathError>)
    ensures
        r == checked_result(a * b),
{
    match a.checked_mul(b) {
        Some(v) => Ok(v),
        None => Err(MathError::Overflow),
    }
}

/// Checked truncating division.
pub fn safe_div(a: i128, b: i128) -> (r: Result<i128, MathError>)
    ensures
        b == 0 ==> r == Err::<i128, MathError>(MathError::DivisionByZero),
        b != 0 ==> r == checked_result(tdiv(a as int, b as int)),
{
    if b == 0 {
        return Err(MathError::DivisionByZero);
    }
    match a.checked_div(b) {
        Some(v) => Ok(v),
        None => Err(MathError::Overflow),
    }
}

/// `a * bps / 10 000` with checked arithmetic.
pub open spec fn bps_mul_spec(a: int, bps: int) -> Result<i128, MathError> {
    if fits_i128(a * bps) { checked_result(tdiv(a * bps, 10_000)) } else { Err(MathError::Overflow) }
}

/// Scales `a` by a basis-point factor.
pub fn bps_mul(a: i128, bps: i128) -> (r: Result<i128, MathError>)
    ensures
        r == bps_mul_spec(a as int, bps as int),
{
    let p = safe_mul(a, bps)?;
    safe_div(p, 10_000)
}

} // verus!
