//! The account a strategy keeps of one run: which writes were confirmed,
//! with what latency, and whether anything failed. The concurrency around it
//! reports each outcome here and is told whether to go on.
use vstd::prelude::*;

use crate::errors::RunError;
use crate::payload::{size_sum, WritePlan};
use crate::test_result::{summarize, TestResult};

verus! {

/// What became of one logical write.
pub enum WriteOutcome {
    /// The write was acknowledged complete, `latency_ns` after its payload
    /// was handed to the coordination mechanism.
    Completed { bytes: u64, latency_ns: u64 },
    /// The write, or the coordination around it, failed.
    Failed(RunError),
}

/// The abstract state of a ledger.
pub struct LedgerView {
    pub planned_writes: nat,
    pub planned_bytes: nat,
    pub samples: Seq<u64>,
    pub confirmed_bytes: nat,
    pub failure: Option<RunError>,
}

/// The ledger after one more outcome. The first failure is kept; a
/// confirmation beyond the plan, in writes or in bytes, is a coordination
/// failure.
pub open spec fn step(v: LedgerView, o: WriteOutcome) -> LedgerView {
    if v.failure is Some {
        v
    } else {
        match o {
            WriteOutcome::Failed(e) => LedgerView { failure: Some(e), ..v },
            WriteOutcome::Completed { bytes, latency_ns } => {
                if v.samples.len() >= v.planned_writes || v.confirmed_bytes + bytes
                    > v.planned_bytes {
                    LedgerView { failure: Some(RunError::CoordinationFailure), ..v }
                } else {
                    LedgerView {
                        samples: v.samples.push(latency_ns),
                        confirmed_bytes: (v.confirmed_bytes + bytes) as nat,
                        ..v
                    }
                }
            },
        }
    }
}

/// The ledger after a sequence of outcomes, in the order they were reported.
pub open spec fn step_all(v: LedgerView, os: Seq<WriteOutcome>) -> LedgerView
    decreases os.len(),
{
    if os.len() == 0 {
        v
    } else {
        step(step_all(v, os.drop_last()), os.last())
    }
}

/// Why a ledger yields no statistics, if it does not.
pub open spec fn verdict(v: LedgerView) -> Option<RunError> {
    if v.failure is Some {
        v.failure
    } else if v.samples.len() != v.planned_writes || v.confirmed_bytes != v.planned_bytes {
        Some(RunError::IncompleteRun)
    } else if v.samples.len() == 0 {
        Some(RunError::EmptySampleSet)
    } else {
        None
    }
}

/// The record of one run against its plan.
pub struct RunLedger {
    pub planned_writes: usize,
    pub planned_bytes: u64,
    pub samples: Vec<u64>,
    pub confirmed_bytes: u64,
    pub failure: Option<RunError>,
}

impl RunLedger {
    pub open spec fn view(&self) -> LedgerView {
        LedgerView {
            planned_writes: self.planned_writes as nat,
            planned_bytes: self.planned_bytes as nat,
            samples: self.samples@,
            confirmed_bytes: self.confirmed_bytes as nat,
            failure: self.failure,
        }
    }

    /// An empty ledger for a plan.
    pub open spec fn opened_for(v: LedgerView, plan: &WritePlan) -> bool {
        &&& v.planned_writes == plan.sizes@.len()
        &&& v.planned_bytes == plan.total_bytes
        &&& v.samples.len() == 0
        &&& v.confirmed_bytes == 0
        &&& v.failure is None
    }

    /// Opens the ledger of a run about to perform `plan`.
    pub fn new(plan: &WritePlan) -> (r: RunLedger)
        ensures
            Self::opened_for(r.view(), plan),
    {
        RunLedger {
            planned_writes: plan.sizes.len(),
            planned_bytes: plan.total_bytes,
            samples: Vec::new(),
            confirmed_bytes: 0,
            failure: None,
        }
    }

    /// Records one outcome. Returns whether the run may go on: false from the
    /// first failure on.
    pub fn record(&mut self, outcome: WriteOutcome) -> (go_on: bool)
        ensures
            final(self).view() == step(old(self).view(), outcome),
            go_on == (final(self).failure is None),
    {
        if self.failure.is_some() {
            return false;
        }
        match outcome {
            WriteOutcome::Failed(e) => {
                self.failure = Some(e);
                false
            },
            WriteOutcome::Completed { bytes, latency_ns } => {
                if self.samples.len() >= self.planned_writes || bytes > self.planned_bytes
                    || self.confirmed_bytes > self.planned_bytes - bytes {
                    self.failure = Some(RunError::CoordinationFailure);
                    false
                } else {
                    self.samples.push(latency_ns);
                    self.confirmed_bytes = self.confirmed_bytes + bytes;
                    true
                }
            },
        }
    }

    /// Closes the run: statistics over every confirmed write when the whole
    /// plan was confirmed and nothing failed, else the reason it was not.
    pub fn finish(self) -> (r: Result<TestResult, RunError>)
        ensures
            verdict(self.view()) matches Some(e) ==> r == Err::<TestResult, RunError>(e),
            verdict(self.view()) is None ==> (r matches Ok(t) && t.describes(
                self.samples@,
                self.planned_bytes,
            )),
    {
        if let Some(e) = self.failure {
            return Err(e);
        }
        if self.samples.len() != self.planned_writes || self.confirmed_bytes != self.planned_bytes {
            return Err(RunError::IncompleteRun);
        }
        summarize(&self.samples, self.planned_bytes)
    }
}

/// A failure reported at any point of a run is never forgotten: whatever
/// outcomes come after it, the ledger holds a failure and closing it yields
/// an error, never statistics.
pub proof fn lemma_failure_aborts_run(v: LedgerView, os: Seq<WriteOutcome>, i: int)
    requires
        0 <= i < os.len(),
        os[i] is Failed,
    ensures
        step_all(v, os).failure is Some,
        verdict(step_all(v, os)) is Some,
    decreases os.len(),
{
    if i < os.len() - 1 {
        lemma_failure_aborts_run(v, os.drop_last(), i);
    }
}

/// A run that reports statistics performed exactly the writes of its plan:
/// as many as were asked for, with the bytes of every payload drawn.
pub proof fn lemma_completed_run_matches_plan(
    plan: &WritePlan,
    num_writes: usize,
    lo: usize,
    hi: usize,
    start: LedgerView,
    os: Seq<WriteOutcome>,
    t: TestResult,
)
    requires
        plan.fits(num_writes, lo, hi),
        RunLedger::opened_for(start, plan),
        verdict(step_all(start, os)) is None,
        t.describes(step_all(start, os).samples, step_all(start, os).planned_bytes as u64),
    ensures
        t.num_writes == num_writes,
        t.total_bytes == size_sum(plan.sizes@),
{
    lemma_plan_kept(start, os);
}

proof fn lemma_plan_kept(v: LedgerView, os: Seq<WriteOutcome>)
    ensures
        step_all(v, os).planned_writes == v.planned_writes,
        step_all(v, os).planned_bytes == v.planned_bytes,
    decreases os.len(),
{
    if os.len() > 0 {
        lemma_plan_kept(v, os.drop_last());
    }
}

} // verus!
