//! The sweep over strategies: results are kept in the order the strategies
//! ran, and the first failed run ends the sweep.
use vstd::prelude::*;

use crate::errors::RunError;
use crate::test_result::TestResult;

verus! {

/// One completed strategy run, with the wall-clock time around it.
pub struct TestRunResult {
    pub num_writes: usize,
    pub run_duration_ns: u64,
    pub result: TestResult,
}

/// The results of a sweep so far.
pub struct TestRunner {
    pub test_runs: Vec<TestRunResult>,
}

impl TestRunner {
    pub fn new() -> (r: TestRunner)
        ensures
            r.test_runs@.len() == 0,
    {
        TestRunner { test_runs: Vec::new() }
    }

    /// Takes the outcome of one strategy run. A result is appended; an error
    /// is handed back unchanged for the sweep to stop on, and nothing from
    /// that run is kept.
    pub fn record_run(
        &mut self,
        num_writes: usize,
        run_duration_ns: u64,
        outcome: Result<TestResult, RunError>,
    ) -> (r: Result<(), RunError>)
        ensures
            outcome matches Err(e) ==> r == Err::<(), RunError>(e) && final(self).test_runs@
                == old(self).test_runs@,
            outcome matches Ok(t) ==> r is Ok && final(self).test_runs@ == old(
                self,
            ).test_runs@.push(TestRunResult { num_writes, run_duration_ns, result: t }),
    {
        match outcome {
            Ok(result) => {
                self.test_runs.push(TestRunResult { num_writes, run_duration_ns, result });
                Ok(())
            },
            Err(e) => Err(e),
        }
    }
}

} // verus!
