//! Gas regression checks against per-operation baselines.
use vstd::prelude::*;
use crate::math::tdiv;

verus! {

/// A recorded gas baseline.
pub struct GasBenchmark {
    pub operation: String,
    pub baseline_gas: u64,
    pub threshold_increase_bps: u32,
}

/// The result of checking measured gas against its baseline.
pub struct GasReport {
    pub operation: String,
    pub actual_gas: u64,
    pub expected_gas: u64,
    pub difference_bps: i32,
    pub passed: bool,
}

/// A set of gas baselines.
pub struct GasMetrics {
    pub benchmarks: Vec<GasBenchmark>,
}

/// Baseline gas of an operation: deposit 100k, borrow 150k, liquidate 200k,
/// repay 120k, anything else 50k.
pub open spec fn baseline_spec(op: Seq<char>) -> u64 {
    if op == "deposit"@ { 100_000 }
    else if op == "borrow"@ { 150_000 }
    else if op == "liquidate"@ { 200_000 }
    else if op == "repay"@ { 120_000 }
    else { 50_000 }
}

fn baseline_for(operation: &str) -> (r: u64)
    ensures
        r == baseline_spec(operation@),
{
    let op = operation.to_owned();
    if op == "deposit".to_owned() { 100_000 }
    else if op == "borrow".to_owned() { 150_000 }
    else if op == "liquidate".to_owned() { 200_000 }
    else if op == "repay".to_owned() { 120_000 }
    else { 50_000 }
}

impl GasMetrics {
    /// No baselines.
    pub fn new() -> (r: Self)
        ensures
            r.benchmarks@.len() == 0,
    {
        GasMetrics { benchmarks: Vec::new() }
    }

    /// Records a baseline.
    pub fn add_benchmark(&mut self, operation: &str, baseline_gas: u64, threshold_bps: u32)
        ensures
            final(self).benchmarks@.len() == old(self).benchmarks@.len() + 1,
            forall|i: int| 0 <= i < old(self).benchmarks@.len() ==> final(self).benchmarks@[i] == old(self).benchmarks@[i],
            final(self).benchmarks@.last().operation@ == operation@,
            final(self).benchmarks@.last().baseline_gas == baseline_gas,
            final(self).benchmarks@.last().threshold_increase_bps == threshold_bps,
    {
        self.benchmarks.push(GasBenchmark { operation: operation.to_owned(), baseline_gas, threshold_increase_bps: threshold_bps });
    }

    /// Checks measured gas: passes within 5% above the baseline; also reports
    /// the relative difference in bps.
    pub fn check_gas(operation: &str, actual_gas: u64) -> (r: GasReport)
        ensures
            r.operation@ == operation@,
            r.actual_gas == actual_gas,
            r.expected_gas == baseline_spec(operation@),
            r.passed == (actual_gas <= tdiv(baseline_spec(operation@) * 10_500, 10_000)),
            r.difference_bps as int == (tdiv((actual_gas - baseline_spec(operation@)) * 10_000, baseline_spec(operation@) as int) as i32) as int,
    {
        let baseline = baseline_for(operation);
        let max_gas: i128 = (baseline as i128) * 10_500 / 10_000;
        let passed = (actual_gas as i128) <= max_gas;
        let diff: i128 = (actual_gas as i128 - baseline as i128) * 10_000;
        let q = match diff.checked_div(baseline as i128) { Some(q) => q, None => 0 };
        let difference_bps = q as i32;
        GasReport { operation: operation.to_owned(), actual_gas, expected_gas: baseline, difference_bps, passed }
    }
}

} // verus!
