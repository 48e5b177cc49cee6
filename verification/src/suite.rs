//! Test-suite records: the configuration a suite runs against and the result
//! of each test case.
use vstd::prelude::*;

verus! {

/// Network and accounts a suite runs against.
pub struct TestConfig {
    pub network: String,
    pub admin: String,
    pub governance: String,
    pub oracle_addresses: Vec<String>,
}

/// Outcome of one test case.
pub struct TestResult {
    pub name: String,
    pub passed: bool,
    pub message: String,
    pub gas_used: Option<u64>,
}

/// The result recorded for a test case's outcome: a pass is reported as
/// "Passed"; a failure carries the case's message. Cases are named "test".
pub fn test_result_for(outcome: Result<(), String>) -> (r: TestResult)
    ensures
        r.name@ == "test"@,
        r.gas_used is None,
        r.passed == outcome is Ok,
        outcome is Ok ==> r.message@ == "Passed"@,
        outcome matches Err(e) ==> r.message@ == e@,
{
    match outcome {
        Ok(()) => TestResult { name: "test".to_owned(), passed: true, message: "Passed".to_owned(), gas_used: None },
        Err(e) => TestResult { name: "test".to_owned(), passed: false, message: e, gas_used: None },
    }
}

} // verus!
