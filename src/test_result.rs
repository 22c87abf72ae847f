//! Latency statistics over the per-write samples of one run.
use vstd::prelude::*;
use vstd::relations::{sorted_by, total_ordering};
use vstd::seq_lib::lemma_sorted_unique;

use crate::errors::RunError;

verus! {

broadcast use vstd::seq_lib::group_to_multiset_ensures;

/// The ascending order on latency samples.
pub open spec fn sample_leq() -> spec_fn(u64, u64) -> bool {
    |a: u64, b: u64| a <= b
}

/// The samples of a run in ascending order.
pub open spec fn sorted_samples(s: Seq<u64>) -> Seq<u64> {
    s.sort_by(sample_leq())
}

/// The sum of a sequence of samples.
pub open spec fn sample_sum(s: Seq<u64>) -> int
    decreases s.len(),
{
    if s.len() == 0 {
        0
    } else {
        sample_sum(s.drop_last()) + s.last()
    }
}

/// Truncated arithmetic mean.
pub open spec fn mean_of(s: Seq<u64>) -> int {
    sample_sum(sorted_samples(s)) / (s.len() as int)
}

/// The sample at position `n / 2` of the sorted samples.
pub open spec fn median_of(s: Seq<u64>) -> u64 {
    sorted_samples(s)[(s.len() / 2) as int]
}

/// The sample at position `9n / 10` of the sorted samples.
pub open spec fn p90_of(s: Seq<u64>) -> u64 {
    sorted_samples(s)[((9 * s.len()) / 10) as int]
}

/// Aggregate result of one strategy run. Durations are in nanoseconds.
pub struct TestResult {
    pub mean: u64,
    pub median: u64,
    pub p90: u64,
    pub num_writes: u64,
    pub total_bytes: u64,
}

impl TestResult {
    /// The statistics that the samples of a run and its byte total determine.
    pub open spec fn describes(&self, s: Seq<u64>, total_bytes: u64) -> bool {
        &&& self.mean as int == mean_of(s)
        &&& self.median == median_of(s)
        &&& self.p90 == p90_of(s)
        &&& self.num_writes as int == s.len()
        &&& self.total_bytes == total_bytes
    }
}

proof fn lemma_sample_leq_total()
    ensures
        total_ordering(sample_leq()),
{
}

/// The sorted samples are an ascending permutation of the samples.
pub proof fn lemma_sorted_samples(s: Seq<u64>)
    ensures
        sorted_by(sorted_samples(s), sample_leq()),
        sorted_samples(s).to_multiset() == s.to_multiset(),
        sorted_samples(s).len() == s.len(),
{
    lemma_sample_leq_total();
    s.lemma_sort_by_ensures(sample_leq());
    vstd::seq_lib::to_multiset_len(s);
    vstd::seq_lib::to_multiset_len(sorted_samples(s));
}

proof fn lemma_sum_bound(s: Seq<u64>)
    ensures
        0 <= sample_sum(s) <= s.len() * (u64::MAX as int),
    decreases s.len(),
{
    if s.len() > 0 {
        lemma_sum_bound(s.drop_last());
    }
}

/// Sorts the samples ascending by inserting each into a sorted prefix.
fn sort_samples(samples: &Vec<u64>) -> (r: Vec<u64>)
    ensures
        r@ == sorted_samples(samples@),
{
    let mut out: Vec<u64> = Vec::new();
    let mut i: usize = 0;
    while i < samples.len()
        invariant
            0 <= i <= samples.len(),
            sorted_by(out@, sample_leq()),
            out@.to_multiset() == samples@.subrange(0, i as int).to_multiset(),
        decreases samples.len() - i,
    {
        let x = samples[i];
        let mut p: usize = 0;
        while p < out.len() && out[p] <= x
            invariant
                0 <= p <= out.len(),
                forall|k: int| 0 <= k < p ==> out@[k] <= x,
            decreases out.len() - p,
        {
            p = p + 1;
        }
        proof {
            assert(samples@.subrange(0, i + 1) =~= samples@.subrange(0, i as int).push(x));
        }
        let ghost before = out@;
        out.insert(p, x);
        proof {
            assert forall|a: int, b: int| 0 <= a < b < out@.len() implies #[trigger] sample_leq()(
                out@[a],
                out@[b],
            ) by {
                if b < p {
                    assert(sample_leq()(before[a], before[b]));
                } else if b == p {
                    assert(out@[a] == before[a]);
                } else if a == p {
                    assert(out@[b] == before[b - 1]);
                    assert(before[p as int] > x);
                    if b - 1 > p {
                        assert(sample_leq()(before[p as int], before[b - 1]));
                    }
                } else if a < p {
                    assert(sample_leq()(before[a], before[b - 1]));
                } else {
                    assert(sample_leq()(before[a - 1], before[b - 1]));
                }
            }
        }
        i = i + 1;
    }
    proof {
        assert(samples@.subrange(0, samples@.len() as int) =~= samples@);
        lemma_sorted_samples(samples@);
        lemma_sample_leq_total();
        lemma_sorted_unique(out@, sorted_samples(samples@), sample_leq());
    }
    out
}

/// Computes the statistics of a run from its latency samples and the number
/// of bytes it wrote. An empty sample set is refused.
pub fn summarize(samples: &Vec<u64>, total_bytes: u64) -> (r: Result<TestResult, RunError>)
    ensures
        samples@.len() == 0 <==> r == Err::<TestResult, RunError>(RunError::EmptySampleSet),
        samples@.len() > 0 <==> r is Ok,
        r matches Ok(t) ==> t.describes(samples@, total_bytes),
{
    let n = samples.len();
    if n == 0 {
        return Err(RunError::EmptySampleSet);
    }
    let sorted = sort_samples(samples);
    proof {
        lemma_sorted_samples(samples@);
    }
    let mut sum: u128 = 0;
    let mut i: usize = 0;
    while i < n
        invariant
            sorted@ == sorted_samples(samples@),
            n == samples@.len(),
            n == sorted@.len(),
            0 <= i <= n,
            sum as int == sample_sum(sorted@.subrange(0, i as int)),
            sum as int <= i * (u64::MAX as int),
        decreases n - i,
    {
        proof {
            assert(sorted@.subrange(0, i + 1).drop_last() =~= sorted@.subrange(0, i as int));
            assert(i * (u64::MAX as int) + u64::MAX as int == (i + 1) * (u64::MAX as int))
                by (nonlinear_arith);
            assert((i + 1) * (u64::MAX as int) < u128::MAX) by (nonlinear_arith)
                requires
                    i + 1 <= usize::MAX,
            ;
        }
        sum = sum + sorted[i] as u128;
        i = i + 1;
    }
    proof {
        assert(sorted@.subrange(0, n as int) =~= sorted@);
        let s = sum as int;
        let m = n as int;
        assert(s / m <= u64::MAX as int) by (nonlinear_arith)
            requires
                0 <= s <= m * (u64::MAX as int),
                m >= 1,
        ;
    }
    let mean = (sum / (n as u128)) as u64;
    let median = sorted[n / 2];
    let p90 = sorted[(9 * (n as u128) / 10) as usize];
    Ok(TestResult { mean, median, p90, num_writes: n as u64, total_bytes })
}

/// Both positional statistics are order statistics of the samples: the
/// median is no smaller than the least sample, and the 90th percentile is no
/// smaller than the median. Both are samples of the run.
pub proof fn lemma_statistics_ordered(s: Seq<u64>)
    requires
        s.len() >= 1,
    ensures
        forall|i: int| 0 <= i < s.len() ==> sorted_samples(s)[0] <= #[trigger] s[i],
        s.contains(sorted_samples(s)[0]),
        sorted_samples(s)[0] <= median_of(s),
        median_of(s) <= p90_of(s),
        s.contains(median_of(s)),
        s.contains(p90_of(s)),
{
    lemma_sorted_samples(s);
    let t = sorted_samples(s);
    let n = s.len();
    assert((9 * n) / 10 < n);
    assert(n / 2 <= (9 * n) / 10);
    if n / 2 < (9 * n) / 10 {
        assert(sample_leq()(t[(n / 2) as int], t[((9 * n) / 10) as int]));
    }
    if n / 2 > 0 {
        assert(sample_leq()(t[0], t[(n / 2) as int]));
    }
    assert(t.to_multiset().count(t[0]) > 0);
    assert(t.to_multiset().count(t[(n / 2) as int]) > 0);
    assert(t.to_multiset().count(t[((9 * n) / 10) as int]) > 0);
    assert forall|i: int| 0 <= i < s.len() implies t[0] <= #[trigger] s[i] by {
        assert(s.to_multiset().count(s[i]) > 0);
        assert(t.contains(s[i]));
        let j = choose|j: int| 0 <= j < t.len() && t[j] == s[i];
        if j > 0 {
            assert(sample_leq()(t[0], t[j]));
        }
    }
}

/// The statistics depend only on the multiset of samples and the byte total:
/// two results computed over the same samples, in any order, are identical.
pub proof fn lemma_statistics_deterministic(
    s1: Seq<u64>,
    s2: Seq<u64>,
    total_bytes: u64,
    r1: TestResult,
    r2: TestResult,
)
    requires
        s1.to_multiset() == s2.to_multiset(),
        r1.describes(s1, total_bytes),
        r2.describes(s2, total_bytes),
    ensures
        r1 == r2,
{
    lemma_sorted_samples(s1);
    lemma_sorted_samples(s2);
    lemma_sample_leq_total();
    lemma_sorted_unique(sorted_samples(s1), sorted_samples(s2), sample_leq());
    vstd::seq_lib::to_multiset_len(s1);
    vstd::seq_lib::to_multiset_len(s2);
}

/// With a single sample, the mean, the median and the 90th percentile are all
/// that sample.
pub proof fn lemma_single_sample(x: u64)
    ensures
        mean_of(seq![x]) == x as int,
        median_of(seq![x]) == x,
        p90_of(seq![x]) == x,
{
    let s = seq![x];
    lemma_sorted_samples(s);
    lemma_sample_leq_total();
    lemma_sorted_unique(sorted_samples(s), s, sample_leq());
    assert(sorted_samples(s) == s);
    assert(s.drop_last() =~= Seq::<u64>::empty());
    assert(sample_sum(s) == sample_sum(s.drop_last()) + x);
    assert(sample_sum(s) == x as int);
}

} // verus!
