//! Fixed-point decimal arithmetic at 18-decimal precision (WAD scale).
//!
//! A WAD-scaled integer `x` represents `x / 10^18`. Products and quotients
//! are formed in 256-bit host integers so that intermediate values beyond
//! `i128` do not overflow; results are range-checked back into `i128`.
//! Fixed-point products and quotients round down (toward negative infinity)
//! for every sign of their operands.
use vstd::prelude::*;
use soroban_sdk::{Env, I256};
use crate::math::{tdiv, fits_i128};
use crate::safe_math::{MathError, safe_add, safe_sub, checked_result};

verus! {

#[verifier::external_type_specification]
#[verifier::external_body]
pub struct ExEnv(Env);

/// 10^18: the WAD scale.
pub const WAD: i128 = 1_000_000_000_000_000_000;
/// 10^27: the RAY scale.
pub const RAY: i128 = 1_000_000_000_000_000_000_000_000_000;
/// Seconds in a 365-day year.
pub const SECONDS_PER_YEAR: u64 = 31_536_000;

/// `Some(tdiv(a*b, d))` when the quotient fits an `i128`, `None` otherwise.
pub open spec fn mul_div_spec(a: int, b: int, d: int) -> Option<i128> {
    if fits_i128(tdiv(a * b, d)) { Some(tdiv(a * b, d) as i128) } else { None }
}

/// Computes `a * b / d` in the host's 256-bit signed integers
/// (`I256::from_i128`, `I256::mul`, `I256::div`, `I256::to_i128`). The product
/// of two `i128` values always fits 256 bits and the host divides with
/// truncation toward zero; `to_i128` yields `None` when the quotient does not
/// fit. The host aborts the call on a zero divisor (excluded by `requires`)
/// and when the environment's metering budget is exhausted, which nothing
/// here states.
#[verifier::external_body]
fn i256_mul_div(env: &Env, a: i128, b: i128, d: i128) -> (r: Option<i128>)
    requires
        d != 0,
    ensures
        r == mul_div_spec(a as int, b as int, d as int),
{
    I256::from_i128(env, a).mul(&I256::from_i128(env, b)).div(&I256::from_i128(env, d)).to_i128()
}

/// Largest magnitude of a 256-bit signed product formed without aborting.
pub open spec fn fits_i256(v: int) -> bool {
    -0x8000000000000000000000000000000000000000000000000000000000000000int <= v
        <= 0x7fffffffffffffffffffffffffffffffffffffffffffffffffffffffffffffffint
}

/// `a * b * c`, divided with truncation by `d1` and then by `d2`.
pub open spec fn mul3_div2_spec(a: int, b: int, c: int, d1: int, d2: int) -> Option<i128> {
    let q = tdiv(tdiv(a * b * c, d1), d2);
    if fits_i128(q) { Some(q as i128) } else { None }
}

/// Computes `a * b * c / d1 / d2` in the host's 256-bit signed integers
/// (`I256::from_i128`, `I256::mul`, `I256::div`, `I256::to_i128`). The host
/// aborts on a 256-bit overflow of the product and on a zero divisor, both
/// excluded by `requires`, and when the metering budget is exhausted, which
/// nothing here states. Divisions truncate toward zero.
#[verifier::external_body]
fn i256_mul3_div2(env: &Env, a: i128, b: i128, c: i128, d1: i128, d2: i128) -> (r: Option<i128>)
    requires
        d1 > 0,
        d2 > 0,
        fits_i256(a * b),
        fits_i256(a * b * c),
    ensures
        r == mul3_div2_spec(a as int, b as int, c as int, d1 as int, d2 as int),
{
    I256::from_i128(env, a)
        .mul(&I256::from_i128(env, b))
        .mul(&I256::from_i128(env, c))
        .div(&I256::from_i128(env, d1))
        .div(&I256::from_i128(env, d2))
        .to_i128()
}

/// Compares `a * b <= c * d` on host 256-bit integers (`I256::from_i128`,
/// `I256::mul` and the ordering of `I256`). Products of two `i128` values always
/// fit 256 bits. Budget exhaustion aborts the call, which nothing here states.
#[verifier::external_body]
fn i256_mul_le(env: &Env, a: i128, b: i128, c: i128, d: i128) -> (r: bool)
    ensures
        r == (a * b <= c * d),
{
    I256::from_i128(env, a).mul(&I256::from_i128(env, b)) <= I256::from_i128(env, c).mul(&I256::from_i128(env, d))
}

/// `x / d` rounded down (toward negative infinity), for `d != 0`.
pub open spec fn floor_div(x: int, d: int) -> int {
    if d > 0 { x / d } else { (-x) / (-d) }
}

/// `Some(floor(a*b/d))` when it fits an `i128`, `None` otherwise.
pub open spec fn mul_div_floor_spec(a: int, b: int, d: int) -> Option<i128> {
    if fits_i128(floor_div(a * b, d)) { Some(floor_div(a * b, d) as i128) } else { None }
}

/// Rounding down differs from truncation only for an inexact negative quotient,
/// where it is one less.
proof fn lemma_floor_from_trunc(x: int, d: int)
    requires
        d != 0,
    ensures
        floor_div(x, d) == (if x != 0 && ((x < 0) != (d < 0)) && tdiv(x, d) * d != x { tdiv(x, d) - 1 } else { tdiv(x, d) }),
        tdiv(x, d) > 0 ==> floor_div(x, d) == tdiv(x, d),
{
    let p: int = if d > 0 { d } else { -d };
    let n: int = if x >= 0 { x } else { -x };
    vstd::arithmetic::div_mod::lemma_fundamental_div_mod(n, p);
    vstd::arithmetic::div_mod::lemma_mod_pos_bound(n, p);
    vstd::arithmetic::div_mod::lemma_div_pos_is_pos(n, p);
    let q = n / p;
    let r = n % p;
    if x < 0 && d > 0 {
        assert(tdiv(x, d) == -q);
        if r == 0 {
            assert(x == (-q) * d + 0) by (nonlinear_arith) requires n == p * q + r, r == 0, x == -n, p == d;
            vstd::arithmetic::div_mod::lemma_fundamental_div_mod_converse(x, d, -q, 0);
            assert(tdiv(x, d) * d == x) by (nonlinear_arith) requires x == (-q) * d + 0, tdiv(x, d) == -q;
        } else {
            assert(x == (-q - 1) * d + (d - r)) by (nonlinear_arith) requires n == p * q + r, x == -n, p == d;
            vstd::arithmetic::div_mod::lemma_fundamental_div_mod_converse(x, d, -q - 1, d - r);
            assert(tdiv(x, d) * d != x) by (nonlinear_arith) requires n == p * q + r, x == -n, p == d, tdiv(x, d) == -q, r > 0;
        }
    } else if x > 0 && d < 0 {
        assert(tdiv(x, d) == -q);
        if r == 0 {
            assert(-x == (-q) * p + 0) by (nonlinear_arith) requires n == p * q + r, r == 0, x == n;
            vstd::arithmetic::div_mod::lemma_fundamental_div_mod_converse(-x, p, -q, 0);
            assert(tdiv(x, d) * d == x) by (nonlinear_arith) requires n == p * q + r, r == 0, x == n, p == -d, tdiv(x, d) == -q;
        } else {
            assert(-x == (-q - 1) * p + (p - r)) by (nonlinear_arith) requires n == p * q + r, x == n;
            vstd::arithmetic::div_mod::lemma_fundamental_div_mod_converse(-x, p, -q - 1, p - r);
            assert(tdiv(x, d) * d != x) by (nonlinear_arith) requires n == p * q + r, x == n, p == -d, tdiv(x, d) == -q, r > 0, r < p;
        }
    }
}

/// `a * b / WAD`, rounded down, or `Overflow` when it does not fit.
pub open spec fn fp_mul_spec(a: int, b: int) -> Result<i128, MathError> {
    match mul_div_floor_spec(a, b, WAD as int) {
        Some(v) => Ok(v),
        None => Err(MathError::Overflow),
    }
}

/// The truncated quotient `q` of `x / d` rounds down to `q - 1` exactly when
/// the quotient is negative and inexact, and to `q` otherwise; when `q` does
/// not fit, neither does the rounded-down quotient.
proof fn lemma_floor_result(x: int, d: int, q: Option<i128>)
    requires
        d != 0,
        q == (if fits_i128(tdiv(x, d)) { Some(tdiv(x, d) as i128) } else { None::<i128> }),
    ensures
        q is None ==> !fits_i128(floor_div(x, d)),
        q matches Some(t) ==> floor_div(x, d) == (if x != 0 && ((x < 0) != (d < 0)) && t * d != x { t - 1 } else { t as int }),
{
    lemma_floor_from_trunc(x, d);
}

/// Fixed-point multiply: `a * b / 10^18`, rounded down.
pub fn fp_mul(env: &Env, a: i128, b: i128) -> (r: Result<i128, MathError>)
    ensures
        r == fp_mul_spec(a as int, b as int),
{
    let q = i256_mul_div(env, a, b, WAD);
    proof {
        lemma_floor_result(a * b, WAD as int, q);
        assert((a * b < 0) == ((a < 0 && b > 0) || (a > 0 && b < 0))) by (nonlinear_arith);
        assert((a * b == 0) == (a == 0 || b == 0)) by (nonlinear_arith);
    }
    let t = match q {
        Some(v) => v,
        None => return Err(MathError::Overflow),
    };
    let negative = (a < 0 && b > 0) || (a > 0 && b < 0);
    if negative && !(i256_mul_le(env, a, b, t, WAD) && i256_mul_le(env, t, WAD, a, b)) {
        if t == i128::MIN {
            return Err(MathError::Overflow);
        }
        Ok(t - 1)
    } else {
        Ok(t)
    }
}

/// Fixed-point divide: `a * 10^18 / b`, rounded down.
pub fn fp_div(env: &Env, a: i128, b: i128) -> (r: Result<i128, MathError>)
    ensures
        b == 0 ==> r == Err::<i128, MathError>(MathError::DivisionByZero),
        b != 0 ==> r == (match mul_div_floor_spec(a as int, WAD as int, b as int) {
            Some(v) => Ok::<i128, MathError>(v),
            None => Err(MathError::Overflow),
        }),
{
    if b == 0 {
        return Err(MathError::DivisionByZero);
    }
    let q = i256_mul_div(env, a, WAD, b);
    proof {
        lemma_floor_result(a * WAD, b as int, q);
        assert((a * WAD < 0) == (a < 0)) by (nonlinear_arith);
        assert((a * WAD == 0) == (a == 0)) by (nonlinear_arith);
    }
    let t = match q {
        Some(v) => v,
        None => return Err(MathError::Overflow),
    };
    let negative = (a < 0 && b > 0) || (a > 0 && b < 0);
    if negative && !(i256_mul_le(env, a, WAD, t, b) && i256_mul_le(env, t, b, a, WAD)) {
        if t == i128::MIN {
            return Err(MathError::Overflow);
        }
        Ok(t - 1)
    } else {
        Ok(t)
    }
}

/// Fixed-point add: scale is preserved.
pub fn fp_add(a: i128, b: i128) -> (r: Result<i128, MathError>)
    ensures
        r == checked_result(a + b),
{
    safe_add(a, b)
}

/// Fixed-point subtract: scale is preserved.
pub fn fp_sub(a: i128, b: i128) -> (r: Result<i128, MathError>)
    ensures
        r == checked_result(a - b),
{
    safe_sub(a, b)
}

/// `r` is the integer square root of `n`.
pub open spec fn is_floor_sqrt(r: int, n: int) -> bool {
    0 <= r && r * r <= n && n < (r + 1) * (r + 1)
}

proof fn lemma_sqrt_upper_bound(a: int)
    requires
        0 <= a <= i128::MAX,
    ensures
        a * 1_000_000_000_000_000_000 < 0x4000000000000000000000000 * 0x4000000000000000000000000,
{
    assert(a * 1_000_000_000_000_000_000 <= 0x7fffffffffffffffffffffffffffffff * 1_000_000_000_000_000_000) by (nonlinear_arith)
        requires 0 <= a <= 0x7fffffffffffffffffffffffffffffff;
}

/// Fixed-point square root: `floor(sqrt(a * 10^18))`, a WAD-scaled result.
pub fn fp_sqrt(env: &Env, a: i128) -> (r: Result<i128, MathError>)
    ensures
        a < 0 ==> r == Err::<i128, MathError>(MathError::NegativeSqrt),
        a >= 0 ==> (r.is_ok() && is_floor_sqrt(r.unwrap() as int, a * WAD)),
{
    if a < 0 {
        return Err(MathError::NegativeSqrt);
    }
    if a == 0 {
        assert(is_floor_sqrt(0, a * WAD));
        return Ok(0);
    }
    proof {
        lemma_sqrt_upper_bound(a as int);
    }
    let mut lo: i128 = 0;
    let mut hi: i128 = 0x4000000000000000000000000;
    while hi - lo > 1
        invariant
            0 <= lo < hi <= 0x4000000000000000000000000,
            lo * lo <= a * WAD,
            a * WAD < hi * hi,
        decreases hi - lo,
    {
        let mid = lo + (hi - lo) / 2;
        if i256_mul_le(env, mid, mid, a, WAD) {
            lo = mid;
        } else {
            hi = mid;
        }
    }
    assert(hi == lo + 1);
    Ok(lo)
}

/// One squaring step of the fixed-point power loop: the running product and
/// base after consuming the low bit of `e`, or `None` on overflow.
pub open spec fn pow_loop(result: int, b: int, e: nat) -> Option<int>
    decreases e,
{
    if e == 0 {
        Some(result)
    } else {
        let stepped = if e % 2 == 1 {
            match mul_div_floor_spec(result, b, WAD as int) { Some(v) => Some(v as int), None => None }
        } else {
            Some(result)
        };
        match stepped {
            None => None,
            Some(r) => if e / 2 > 0 {
                match mul_div_floor_spec(b, b, WAD as int) {
                    None => None,
                    Some(b2) => pow_loop(r, b2 as int, e / 2),
                }
            } else {
                Some(r)
            },
        }
    }
}

/// Fixed-point power by binary exponentiation; each product is a fixed-point
/// multiply (so rounding happens at every step).
pub open spec fn fp_pow_spec(base: int, exp: nat) -> Result<i128, MathError> {
    if exp == 0 {
        Ok(WAD)
    } else {
        match pow_loop(WAD as int, base, exp) {
            Some(v) => Ok(v as i128),
            None => Err(MathError::Overflow),
        }
    }
}

/// Fixed-point power: `base^exp`, both in WAD scale.
pub fn fp_pow(env: &Env, base: i128, exp: u32) -> (r: Result<i128, MathError>)
    ensures
        r == fp_pow_spec(base as int, exp as nat),
        r.is_ok() ==> fits_i128(r.unwrap() as int),
{
    if exp == 0 {
        return Ok(WAD);
    }
    let mut result = WAD;
    let mut b = base;
    let mut e = exp;
    while e > 0
        invariant
            pow_loop(WAD as int, base as int, exp as nat) == pow_loop(result as int, b as int, e as nat),
        decreases e,
    {
        if e % 2 == 1 {
            result = fp_mul(env, result, b)?;
        }
        e = e / 2;
        if e > 0 {
            b = fp_mul(env, b, b)?;
        }
    }
    Ok(result)
}

/// Simple interest: `principal * rate_bps * elapsed / 10 000 / SECONDS_PER_YEAR`.
pub open spec fn simple_interest_spec(principal: int, rate_bps: int, elapsed_secs: int) -> Result<i128, MathError> {
    if elapsed_secs == 0 || principal == 0 || rate_bps == 0 {
        Ok(0)
    } else {
        match mul3_div2_spec(principal, rate_bps, elapsed_secs, 10_000, 31_536_000) {
            Some(v) => Ok(v),
            None => Err(MathError::Overflow),
        }
    }
}

/// Simple interest over `elapsed_secs` at an annual basis-point rate.
pub fn simple_interest(env: &Env, principal: i128, rate_bps: i128, elapsed_secs: u64) -> (r: Result<i128, MathError>)
    requires
        fits_i256(principal * rate_bps * elapsed_secs),
    ensures
        r == simple_interest_spec(principal as int, rate_bps as int, elapsed_secs as int),
{
    if elapsed_secs == 0 || principal == 0 || rate_bps == 0 {
        return Ok(0);
    }
    proof {
        assert(fits_i256(principal * rate_bps)) by (nonlinear_arith)
            requires
                i128::MIN <= principal <= i128::MAX,
                i128::MIN <= rate_bps <= i128::MAX,
        {}
    }
    match i256_mul3_div2(env, principal, rate_bps, elapsed_secs as i128, 10_000, 31_536_000) {
        Some(v) => Ok(v),
        None => Err(MathError::Overflow),
    }
}

/// Basis-point ratio: `numerator * 10 000 / denominator`.
pub fn bps_ratio(env: &Env, numerator: i128, denominator: i128) -> (r: Result<i128, MathError>)
    ensures
        denominator == 0 ==> r == Err::<i128, MathError>(MathError::DivisionByZero),
        denominator != 0 ==> r == (match mul_div_spec(numerator as int, 10_000, denominator as int) {
            Some(v) => Ok::<i128, MathError>(v),
            None => Err(MathError::Overflow),
        }),
{
    if denominator == 0 {
        return Err(MathError::DivisionByZero);
    }
    match i256_mul_div(env, numerator, 10_000, denominator) {
        Some(v) => Ok(v),
        None => Err(MathError::Overflow),
    }
}

/// Multiplying by 1.0 is the identity.
pub proof fn lemma_fp_mul_by_one(a: i128)
    ensures
        fp_mul_spec(a as int, WAD as int) == Ok::<i128, MathError>(a),
{
    let w = 1_000_000_000_000_000_000int;
    let ai = a as int;
    if ai > 0 {
        assert((ai * w) / w == ai) by (nonlinear_arith) requires ai > 0, w > 0;
    } else if ai < 0 {
        assert(((-ai) * w) / w == -ai) by (nonlinear_arith) requires ai < 0, w > 0;
        assert(-(ai * w) == (-ai) * w) by (nonlinear_arith);
    }
}

/// Dividing by 1.0 is the identity.
pub proof fn lemma_fp_div_by_one(a: i128)
    ensures
        mul_div_floor_spec(a as int, WAD as int, WAD as int) == Some(a),
{
    lemma_fp_mul_by_one(a);
}

} // verus!
