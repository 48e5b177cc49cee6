//! Variable-slope interest-rate model over checked arithmetic, utilization,
//! simple and discretely compounded interest.
use vstd::prelude::*;
use soroban_sdk::Env;
use crate::math::{tdiv, fits_i128};
use crate::safe_math::{MathError, safe_add, safe_mul, safe_div, bps_mul, bps_mul_spec, checked_result};
use crate::fixed_point::{simple_interest, simple_interest_spec, fits_i256};

verus! {

/// Parameters of a two-slope rate model (all in basis points).
pub struct InterestRateModel {
    pub base_rate: i128,
    pub slope1: i128,
    pub slope2: i128,
    pub optimal_utilization: i128,
}

/// `a * b / 10 000` through checked multiplication and division.
pub open spec fn mul_bps(a: int, b: int) -> Result<i128, MathError> {
    if fits_i128(a * b) { checked_result(tdiv(a * b, 10_000)) } else { Err(MathError::Overflow) }
}

/// Chains two checked results through addition.
pub open spec fn add_results(x: Result<i128, MathError>, y: Result<i128, MathError>) -> Result<i128, MathError> {
    match x {
        Err(e) => Err(e),
        Ok(a) => match y {
            Err(e) => Err(e),
            Ok(b) => checked_result(a + b),
        },
    }
}

/// The borrow rate of a model at a utilization.
pub open spec fn model_borrow_rate(m: InterestRateModel, u: int) -> Result<i128, MathError> {
    if u <= m.optimal_utilization {
        match mul_bps(u, m.slope1 as int) {
            Err(e) => Err(e),
            Ok(inc) => checked_result(m.base_rate + inc),
        }
    } else {
        match checked_result(u + (-m.optimal_utilization)) {
            Err(e) => Err(e),
            Ok(excess) => match mul_bps(m.optimal_utilization as int, m.slope1 as int) {
                Err(e) => Err(e),
                Ok(kink_part) => match mul_bps(excess as int, m.slope2 as int) {
                    Err(e) => Err(e),
                    Ok(excess_part) => add_results(checked_result(m.base_rate + kink_part), Ok(excess_part)),
                },
            },
        }
    }
}

fn mul_div_bps(a: i128, b: i128) -> (r: Result<i128, MathError>)
    ensures
        r == mul_bps(a as int, b as int),
{
    let p = safe_mul(a, b)?;
    safe_div(p, 10_000)
}

impl InterestRateModel {
    /// Borrow rate: `base + u * slope1 / 10 000` up to the kink, then
    /// `base + kink * slope1 / 10 000 + excess * slope2 / 10 000`.
    pub fn calculate_borrow_rate(&self, utilization: i128) -> (r: Result<i128, MathError>)
        requires
            self.optimal_utilization > i128::MIN,
        ensures
            r == model_borrow_rate(*self, utilization as int),
    {
        if utilization <= self.optimal_utilization {
            let inc = mul_div_bps(utilization, self.slope1)?;
            safe_add(self.base_rate, inc)
        } else {
            let excess = safe_add(utilization, -self.optimal_utilization)?;
            let kink_component = mul_div_bps(self.optimal_utilization, self.slope1)?;
            let excess_component = mul_div_bps(excess, self.slope2)?;
            let s = safe_add(self.base_rate, kink_component)?;
            safe_add(s, excess_component)
        }
    }

    /// Supply rate: `borrow_rate * (10 000 - reserve_factor) / 10 000 * utilization / 10 000`.
    pub fn calculate_supply_rate(&self, borrow_rate: i128, utilization: i128, reserve_factor: i128) -> (r: Result<i128, MathError>)
        requires
            reserve_factor > i128::MIN,
        ensures
            r == (match checked_result(10_000 + (-reserve_factor)) {
                Err(e) => Err(e),
                Ok(net) => match mul_bps(borrow_rate as int, net as int) {
                    Err(e) => Err(e),
                    Ok(to_pool) => mul_bps(to_pool as int, utilization as int),
                },
            }),
    {
        let net_factor = safe_add(10_000, -reserve_factor)?;
        let rate_to_pool = mul_div_bps(borrow_rate, net_factor)?;
        mul_div_bps(rate_to_pool, utilization)
    }
}

/// Utilization in bps: `total_borrows * 10 000 / total_supply`; an empty pool is 0%.
pub fn calculate_utilization(total_borrows: i128, total_supply: i128) -> (r: Result<i128, MathError>)
    ensures
        total_supply == 0 ==> r == Ok::<i128, MathError>(0),
        total_supply != 0 ==> r == mul_div_spec_bps(total_borrows as int, total_supply as int),
{
    if total_supply == 0 {
        return Ok(0);
    }
    let p = safe_mul(total_borrows, 10_000)?;
    safe_div(p, total_supply)
}

/// `a * 10 000 / d` through checked arithmetic.
pub open spec fn mul_div_spec_bps(a: int, d: int) -> Result<i128, MathError> {
    if fits_i128(a * 10_000) { checked_result(tdiv(a * 10_000, d)) } else { Err(MathError::Overflow) }
}

/// Simple interest on `principal` over `time_elapsed` seconds at `rate` bps a year.
pub fn accrue_interest(env: &Env, principal: i128, rate: i128, time_elapsed: u64) -> (r: Result<i128, MathError>)
    requires
        fits_i256(principal * rate * time_elapsed),
    ensures
        r == simple_interest_spec(principal as int, rate as int, time_elapsed as int),
{
    if time_elapsed == 0 {
        return Ok(0);
    }
    simple_interest(env, principal, rate, time_elapsed)
}

/// Balance after `n` periods of compounding at `rate` bps per period.
pub open spec fn compound_balance(principal: int, rate: int, n: nat) -> Result<i128, MathError>
    decreases n,
{
    if n == 0 {
        checked_result(principal)
    } else {
        match compound_balance(principal, rate, (n - 1) as nat) {
            Err(e) => Err(e),
            Ok(b) => match bps_mul_spec(b as int, rate) {
                Err(e) => Err(e),
                Ok(i) => checked_result(b + i),
            },
        }
    }
}

proof fn lemma_compound_error_persists(principal: int, rate: int, i: nat, n: nat)
    requires
        i <= n,
        compound_balance(principal, rate, i) is Err,
    ensures
        compound_balance(principal, rate, n) == compound_balance(principal, rate, i),
    decreases n - i,
{
    if i < n {
        lemma_compound_error_persists(principal, rate, i, (n - 1) as nat);
    }
}

/// Interest from compounding `principal` for `periods` periods at `rate` bps each.
pub fn compound_interest(principal: i128, rate: i128, periods: u64) -> (r: Result<i128, MathError>)
    requires
        principal > i128::MIN,
    ensures
        r == (match compound_balance(principal as int, rate as int, periods as nat) {
            Err(e) => Err(e),
            Ok(b) => checked_result(b + (-principal)),
        }),
{
    let mut result = principal;
    let mut i: u64 = 0;
    while i < periods
        invariant
            i <= periods,
            principal > i128::MIN,
            compound_balance(principal as int, rate as int, i as nat) == Ok::<i128, MathError>(result),
        decreases periods - i,
    {
        let interest = match bps_mul(result, rate) {
            Ok(v) => v,
            Err(e) => {
                proof { lemma_compound_error_persists(principal as int, rate as int, (i + 1) as nat, periods as nat); }
                return Err(e);
            },
        };
        result = match safe_add(result, interest) {
            Ok(v) => v,
            Err(e) => {
                proof { lemma_compound_error_persists(principal as int, rate as int, (i + 1) as nat, periods as nat); }
                return Err(e);
            },
        };
        i = i + 1;
    }
    safe_add(result, -principal)
}

/// The two-slope borrow rate, whenever it is computed: `base + u * slope1 /
/// 10 000` up to the optimal utilization, and above it `base + optimal *
/// slope1 / 10 000 + (u - optimal) * slope2 / 10 000`, so the rate just above
/// the kink continues from the rate at the kink. With a non-negative second
/// slope the rate above the kink is never below the rate at the kink.
pub proof fn lemma_borrow_rate_two_slopes(m: InterestRateModel, u: int)
    ensures
        model_borrow_rate(m, u) matches Ok(r) ==> r == m.base_rate + (if u <= m.optimal_utilization {
            tdiv(u * m.slope1, 10_000)
        } else {
            tdiv(m.optimal_utilization * m.slope1, 10_000) + tdiv((u - m.optimal_utilization) * m.slope2, 10_000)
        }),
        (u > m.optimal_utilization && m.slope2 >= 0 && model_borrow_rate(m, u) is Ok
            && model_borrow_rate(m, m.optimal_utilization as int) is Ok)
            ==> model_borrow_rate(m, u)->Ok_0 >= model_borrow_rate(m, m.optimal_utilization as int)->Ok_0,
{
    if u > m.optimal_utilization && m.slope2 >= 0 {
        let e = u - m.optimal_utilization;
        assert(e * m.slope2 >= 0) by (nonlinear_arith) requires e > 0, m.slope2 >= 0;
        assert(tdiv(e * m.slope2, 10_000) >= 0);
    }
}

/// For a non-negative borrow total and a positive supply, a computed
/// utilization is the borrows over the supply in basis points, rounded down:
/// `u * supply <= borrows * 10 000 < (u + 1) * supply`.
pub proof fn lemma_utilization_is_ratio(total_borrows: int, total_supply: int)
    requires
        total_borrows >= 0,
        total_supply > 0,
    ensures
        mul_div_spec_bps(total_borrows, total_supply) matches Ok(u) ==>
            u * total_supply <= total_borrows * 10_000 < (u + 1) * total_supply,
{
    let x = total_borrows * 10_000;
    vstd::arithmetic::div_mod::lemma_fundamental_div_mod(x, total_supply);
    vstd::arithmetic::div_mod::lemma_mod_pos_bound(x, total_supply);
    let q = x / total_supply;
    assert(tdiv(x, total_supply) == q);
    assert(q * total_supply <= x < (q + 1) * total_supply) by (nonlinear_arith)
        requires x == total_supply * q + x % total_supply, 0 <= x % total_supply < total_supply;
}

} // verus!
