//! Scripted end-to-end user journeys and their runner.
use vstd::prelude::*;

verus! {

/// One step of a scenario.
pub struct ScenarioStep {
    pub action: String,
    pub params: Vec<(String, String)>,
    pub expected_result: String,
}

/// A named sequence of steps.
pub struct Scenario {
    pub id: String,
    pub name: String,
    pub description: String,
    pub steps: Vec<ScenarioStep>,
}

/// The outcome of running a scenario.
pub struct ScenarioResult {
    pub scenario_id: String,
    pub passed: bool,
    pub failed_step: Option<usize>,
    pub total_steps: usize,
}

/// Runs scenarios.
pub struct ScenarioRunner;

impl ScenarioRunner {
    pub fn new() -> (r: Self) {
        ScenarioRunner
    }

    /// Reports a scenario as passed over all of its steps.
    pub fn run_scenario(&self, scenario: &Scenario) -> (r: ScenarioResult)
        ensures
            r.scenario_id@ == scenario.id@,
            r.passed,
            r.failed_step is None,
            r.total_steps == scenario.steps@.len(),
    {
        ScenarioResult { scenario_id: scenario.id.clone(), passed: true, failed_step: None, total_steps: scenario.steps.len() }
    }
}

fn param(k: &str, v: &str) -> (r: (String, String))
    ensures
        r.0@ == k@,
        r.1@ == v@,
{
    (k.to_owned(), v.to_owned())
}

fn step1(action: &str, k: &str, v: &str) -> (r: ScenarioStep)
    ensures
        r.action@ == action@,
        r.params@.len() == 1,
        r.params@[0].0@ == k@,
        r.params@[0].1@ == v@,
        r.expected_result@ == "success"@,
{
    let mut params = Vec::new();
    params.push(param(k, v));
    ScenarioStep { action: action.to_owned(), params, expected_result: "success".to_owned() }
}

/// A step performing `action` with the single parameter `k` = `v`, expected to succeed.
pub open spec fn single_param_step(s: ScenarioStep, action: Seq<char>, k: Seq<char>, v: Seq<char>) -> bool {
    &&& s.action@ == action
    &&& s.params@.len() == 1
    &&& s.params@[0].0@ == k
    &&& s.params@[0].1@ == v
    &&& s.expected_result@ == "success"@
}

/// Deposit 1000, borrow 500, liquidate user1, repay 500.
pub fn deposit_borrow_liquidate_repay() -> (r: Scenario)
    ensures
        r.id@ == "scenario_001"@,
        r.name@ == "Deposit, Borrow, Liquidate, Repay"@,
        r.description@ == "Full user journey: deposit collateral, borrow assets, trigger liquidation, repay debt"@,
        r.steps@.len() == 4,
        single_param_step(r.steps@[0], "deposit"@, "amount"@, "1000"@),
        single_param_step(r.steps@[1], "borrow"@, "amount"@, "500"@),
        single_param_step(r.steps@[2], "liquidate"@, "borrower"@, "user1"@),
        single_param_step(r.steps@[3], "repay"@, "amount"@, "500"@),
{
    let mut steps = Vec::new();
    steps.push(step1("deposit", "amount", "1000"));
    steps.push(step1("borrow", "amount", "500"));
    steps.push(step1("liquidate", "borrower", "user1"));
    steps.push(step1("repay", "amount", "500"));
    Scenario {
        id: "scenario_001".to_owned(),
        name: "Deposit, Borrow, Liquidate, Repay".to_owned(),
        description: "Full user journey: deposit collateral, borrow assets, trigger liquidation, repay debt".to_owned(),
        steps,
    }
}

/// Deposit two collaterals of 500 each, then borrow 800.
pub fn multi_collateral_liquidation() -> (r: Scenario)
    ensures
        r.id@ == "scenario_002"@,
        r.name@ == "Multi-Collateral Liquidation"@,
        r.description@ == "User deposits multiple collateral types, borrows, and gets liquidated"@,
        r.steps@.len() == 2,
        r.steps@[0].action@ == "deposit_multi"@,
        r.steps@[0].params@.len() == 2,
        r.steps@[0].params@[0].0@ == "collateral_1"@ && r.steps@[0].params@[0].1@ == "500"@,
        r.steps@[0].params@[1].0@ == "collateral_2"@ && r.steps@[0].params@[1].1@ == "500"@,
        r.steps@[0].expected_result@ == "success"@,
        single_param_step(r.steps@[1], "borrow"@, "amount"@, "800"@),
{
    let mut params = Vec::new();
    params.push(param("collateral_1", "500"));
    params.push(param("collateral_2", "500"));
    let first = ScenarioStep { action: "deposit_multi".to_owned(), params, expected_result: "success".to_owned() };
    let mut steps = Vec::new();
    steps.push(first);
    steps.push(step1("borrow", "amount", "800"));
    Scenario {
        id: "scenario_002".to_owned(),
        name: "Multi-Collateral Liquidation".to_owned(),
        description: "User deposits multiple collateral types, borrows, and gets liquidated".to_owned(),
        steps,
    }
}

} // verus!
