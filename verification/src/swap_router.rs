//! Swap routing: an exact-input swap runs through a non-empty list of hops,
//! each on an AMM, feeding each hop's output into the next, and fails when a
//! hop fails or the final output is below the caller's minimum. Phoenix hops
//! are computed here (0.3% fee); other AMMs are called around this logic, one
//! hop at a time, and their outcome handed back.
use vstd::prelude::*;
use crate::math::{fits_i128, tdiv};
use crate::types::AccountId;

verus! {

/// Errors of the router.
#[derive(Copy, Clone, Debug, PartialEq, Eq, Structural)]
pub enum SwapRouterError {
    NoSwapRoutes,
    SlippageToleranceExceeded,
    SwapFailed,
}

/// Supported AMMs.
#[derive(Copy, Clone, Debug, PartialEq, Eq, Structural)]
pub enum AMMProtocol {
    Phoenix,
    Aquarius,
}

/// One hop of a route.
#[derive(Copy, Clone, Debug, PartialEq, Eq, Structural)]
pub struct SwapRoute {
    pub protocol: AMMProtocol,
    pub pool_address: AccountId,
    pub asset_in: AccountId,
    pub asset_out: AccountId,
}

/// A swap in progress: the amount carried into the next hop.
#[derive(Copy, Clone, Debug, PartialEq, Eq, Structural)]
pub struct SwapProgress {
    pub current_amount: i128,
    pub next_hop: usize,
}

/// Output of a Phoenix hop: the input less a 0.3% fee (truncated).
pub open spec fn phoenix_out(amount_in: i128) -> int {
    amount_in - tdiv(amount_in * 3, 1000)
}

/// A Phoenix hop.
pub fn phoenix_swap(pool: AccountId, asset_in: AccountId, asset_out: AccountId, amount_in: i128) -> (r: Result<i128, String>)
    requires
        fits_i128(amount_in * 3),
        fits_i128(phoenix_out(amount_in)),
    ensures
        r == Ok::<i128, String>(phoenix_out(amount_in) as i128),
{
    let fee = (amount_in * 3) / 1000;
    Ok(amount_in - fee)
}

/// The router contract: an exact-input swap is `start_swap`, then for each
/// hop `phoenix_hop` or the AMM's call followed by `record_hop`, then `finish_swap`.
pub struct SwapRouterContract;

impl SwapRouterContract {
    /// Starts a swap of `amount_in` along `routes` (which must not be empty).
    pub fn start_swap(amount_in: i128, routes: &Vec<SwapRoute>) -> (r: Result<SwapProgress, SwapRouterError>)
        ensures
            r == (if routes@.len() == 0 { Err(SwapRouterError::NoSwapRoutes) }
                else { Ok(SwapProgress { current_amount: amount_in, next_hop: 0 }) }),
    {
        if routes.len() == 0 {
            return Err(SwapRouterError::NoSwapRoutes);
        }
        Ok(SwapProgress { current_amount: amount_in, next_hop: 0 })
    }

    /// Records the outcome of the next hop: its output is carried on; a failed
    /// hop fails the swap.
    pub fn record_hop(progress: SwapProgress, hop: Result<i128, String>) -> (r: Result<SwapProgress, SwapRouterError>)
        requires
            progress.next_hop < usize::MAX,
        ensures
            r == (match hop {
                Ok(out) => Ok(SwapProgress { current_amount: out, next_hop: (progress.next_hop + 1) as usize }),
                Err(_) => Err(SwapRouterError::SwapFailed),
            }),
    {
        match hop {
            Ok(out) => Ok(SwapProgress { current_amount: out, next_hop: progress.next_hop + 1 }),
            Err(_) => Err(SwapRouterError::SwapFailed),
        }
    }

    /// Runs the next hop when it is on Phoenix.
    pub fn phoenix_hop(progress: SwapProgress, routes: &Vec<SwapRoute>) -> (r: Result<SwapProgress, SwapRouterError>)
        requires
            progress.next_hop < routes@.len(),
            routes@[progress.next_hop as int].protocol == AMMProtocol::Phoenix,
            fits_i128(progress.current_amount * 3),
            fits_i128(phoenix_out(progress.current_amount)),
        ensures
            r == Ok::<SwapProgress, SwapRouterError>(SwapProgress {
                current_amount: phoenix_out(progress.current_amount) as i128, next_hop: (progress.next_hop + 1) as usize }),
    {
        let n = routes.len();
        assert(progress.next_hop < n);
        let route = routes[progress.next_hop];
        let out = phoenix_swap(route.pool_address, route.asset_in, route.asset_out, progress.current_amount);
        Self::record_hop(progress, out)
    }

    /// Ends a swap after its last hop: the output must reach the minimum.
    pub fn finish_swap(progress: SwapProgress, min_amount_out: i128) -> (r: Result<i128, SwapRouterError>)
        ensures
            r == (if progress.current_amount < min_amount_out { Err(SwapRouterError::SlippageToleranceExceeded) }
                else { Ok(progress.current_amount) }),
    {
        if progress.current_amount < min_amount_out {
            return Err(SwapRouterError::SlippageToleranceExceeded);
        }
        Ok(progress.current_amount)
    }
}

/// A Phoenix hop never returns more than it was given (for a non-negative input).
pub proof fn lemma_phoenix_no_gain(amount_in: i128)
    requires
        amount_in >= 0,
    ensures
        0 <= phoenix_out(amount_in) <= amount_in,
{
    assert(0 <= (amount_in * 3) / 1000 <= amount_in) by (nonlinear_arith) requires amount_in >= 0;
}

} // verus!
