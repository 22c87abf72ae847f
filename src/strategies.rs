//! The coordination strategies: their names and the fixed shape of each
//! topology. The concurrency itself runs outside the library and reports
//! each write to a `RunLedger`.
use vstd::prelude::*;

use crate::payload::WritePlan;

verus! {

/// How long the sink is after a run whose writes all append to it.
pub open spec fn appended_length(plan: &WritePlan) -> u64 {
    plan.total_bytes
}

/// One writer after another, reopening (and so truncating) the sink for each
/// write.
pub struct SyncIoTest;

/// One task per write, each appending under one shared exclusive lock.
pub struct ArcMutexTest;

/// Producers queue payloads to one dedicated writer that owns the sink.
pub struct MpscSingleWriterTest;

/// Producers queue payloads to a pool of writers, each of which claims a
/// disjoint range from an offset counter and writes it positionally.
pub struct FlumeMpmcTest;

/// Producers queue payloads with a one-shot acknowledgment to one buffered
/// writer, which flushes each write before acknowledging it.
pub struct FlumeMpscCallbackTest;

impl SyncIoTest {
    pub fn get_name(&self) -> (r: &'static str)
        ensures
            r@ == "SyncIoTest"@,
    {
        "SyncIoTest"
    }

    /// Each write replaces the sink's contents, so the last payload is what
    /// remains.
    pub fn expected_sink_len(&self, plan: &WritePlan) -> (r: u64)
        ensures
            plan.sizes@.len() == 0 ==> r == 0,
            plan.sizes@.len() > 0 ==> r == plan.sizes@.last(),
    {
        let n = plan.sizes.len();
        if n == 0 {
            0
        } else {
            plan.sizes[n - 1] as u64
        }
    }
}

impl ArcMutexTest {
    pub fn get_name(&self) -> (r: &'static str)
        ensures
            r@ == "ArcMutexTest"@,
    {
        "ArcMutexTest"
    }

    /// Writes never interleave under the lock, so the sink holds every
    /// payload, end to end.
    pub fn expected_sink_len(&self, plan: &WritePlan) -> (r: u64)
        ensures
            r == appended_length(plan),
    {
        plan.total_bytes
    }
}

impl MpscSingleWriterTest {
    pub fn get_name(&self) -> (r: &'static str)
        ensures
            r@ == "MpscSingleWriterTest"@,
    {
        "MpscSingleWriterTest"
    }

    /// The queue holds every payload of the run, so no producer waits; a
    /// queue needs room for at least one.
    pub fn queue_capacity(&self, num_writes: usize) -> (r: usize)
        ensures
            num_writes == 0 ==> r == 1,
            num_writes > 0 ==> r == num_writes,
    {
        if num_writes == 0 {
            1
        } else {
            num_writes
        }
    }

    pub fn expected_sink_len(&self, plan: &WritePlan) -> (r: u64)
        ensures
            r == appended_length(plan),
    {
        plan.total_bytes
    }
}

impl FlumeMpmcTest {
    pub fn get_name(&self) -> (r: &'static str)
        ensures
            r@ == "FlumeMpmcTest"@,
    {
        "FlumeMpmcTest"
    }

    /// The number of writer tasks that consume the shared queue.
    pub fn writer_count(&self) -> (r: usize)
        ensures
            r == 10,
    {
        10
    }

    /// The claimed ranges tile the sink from zero, so its length is the sum
    /// of the payloads, which is the counter's final value.
    pub fn expected_sink_len(&self, plan: &WritePlan) -> (r: u64)
        ensures
            r == appended_length(plan),
    {
        plan.total_bytes
    }
}

impl FlumeMpscCallbackTest {
    pub fn get_name(&self) -> (r: &'static str)
        ensures
            r@ == "FlumeMpscCallbackTest"@,
    {
        "FlumeMpscCallbackTest"
    }

    /// A small queue, so that producers feel backpressure.
    pub fn queue_capacity(&self) -> (r: usize)
        ensures
            r == 5,
    {
        5
    }

    pub fn expected_sink_len(&self, plan: &WritePlan) -> (r: u64)
        ensures
            r == appended_length(plan),
    {
        plan.total_bytes
    }
}

} // verus!
