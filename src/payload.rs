//! Payload sizes drawn uniformly from a half-open range, and the payloads.
use vstd::prelude::*;
use rand::rngs::StdRng;
use rand::Rng;
use rand::SeedableRng;

use crate::errors::RunError;

verus! {

/// rand's `StdRng`, carried opaquely: the library only draws from it.
#[verifier::external_type_specification]
#[verifier::external_body]
pub struct ExStdRng(StdRng);

/// Relies on rand's `SeedableRng::seed_from_u64` for `StdRng`: a generator
/// built from a 64-bit seed.
#[verifier::external_body]
fn rng_from_seed(seed: u64) -> (r: StdRng) {
    StdRng::seed_from_u64(seed)
}

/// Relies on rand's `Rng::gen_range` on a `Range<usize>`: a value drawn from
/// `[lo, hi)`. It panics only on an empty range, which `requires` excludes.
#[verifier::external_body]
fn draw_from_range(rng: &mut StdRng, lo: usize, hi: usize) -> (r: usize)
    requires
        lo < hi,
    ensures
        lo <= r < hi,
{
    rng.gen_range(lo..hi)
}

/// The randomness a run draws its payload sizes from.
pub struct SizeSource {
    rng: StdRng,
}

impl SizeSource {
    /// A source over a generator the caller seeded, from entropy or otherwise.
    pub fn new(rng: StdRng) -> (r: SizeSource) {
        SizeSource { rng }
    }

    /// A reproducible source: the same seed gives the same sizes.
    pub fn seeded(seed: u64) -> (r: SizeSource) {
        SizeSource { rng: rng_from_seed(seed) }
    }

    /// Draws one size in `[lo, hi)`.
    pub fn draw(&mut self, lo: usize, hi: usize) -> (r: usize)
        requires
            lo < hi,
        ensures
            lo <= r < hi,
    {
        draw_from_range(&mut self.rng, lo, hi)
    }
}

/// The sum of a sequence of payload sizes.
pub open spec fn size_sum(s: Seq<usize>) -> int
    decreases s.len(),
{
    if s.len() == 0 {
        0
    } else {
        size_sum(s.drop_last()) + s.last()
    }
}

proof fn lemma_size_sum_bound(s: Seq<usize>, hi: int)
    requires
        forall|i: int| 0 <= i < s.len() ==> s[i] < hi,
    ensures
        0 <= size_sum(s) <= s.len() * (hi - 1),
    decreases s.len(),
{
    if s.len() > 0 {
        lemma_size_sum_bound(s.drop_last(), hi);
        assert(s.len() * (hi - 1) == (s.len() - 1) * (hi - 1) + (hi - 1)) by (nonlinear_arith);
    }
}

/// Whether `num_writes` payloads each smaller than `hi` bytes may total more
/// than a 64-bit byte count holds.
pub open spec fn byte_total_may_overflow(num_writes: usize, hi: usize) -> bool {
    num_writes * (hi - 1) > u64::MAX
}

/// The sizes of every payload of one run, drawn before any write starts.
pub struct WritePlan {
    pub sizes: Vec<usize>,
    pub total_bytes: u64,
}

impl WritePlan {
    /// A plan of `num_writes` sizes within `[lo, hi)`, with their exact total.
    pub open spec fn fits(&self, num_writes: usize, lo: usize, hi: usize) -> bool {
        &&& self.sizes@.len() == num_writes
        &&& forall|i: int| 0 <= i < self.sizes@.len() ==> lo <= #[trigger] self.sizes@[i] < hi
        &&& self.total_bytes == size_sum(self.sizes@)
    }

    /// Draws the size of each of `num_writes` payloads uniformly from
    /// `[lo, hi)`. A run of no writes, an empty range, or sizes whose total
    /// might not fit in 64 bits is refused.
    pub fn draw(source: &mut SizeSource, num_writes: usize, lo: usize, hi: usize) -> (r: Result<
        WritePlan,
        RunError,
    >)
        ensures
            num_writes == 0 <==> r == Err::<WritePlan, RunError>(RunError::InvalidWriteCount),
            (num_writes > 0 && lo >= hi) <==> r == Err::<WritePlan, RunError>(
                RunError::InvalidSizeRange,
            ),
            (num_writes > 0 && lo < hi && byte_total_may_overflow(num_writes, hi)) <==> r == Err::<
                WritePlan,
                RunError,
            >(RunError::ByteTotalOverflow),
            r is Ok <==> (num_writes > 0 && lo < hi && !byte_total_may_overflow(num_writes, hi)),
            r matches Ok(p) ==> p.fits(num_writes, lo, hi),
    {
        if num_writes == 0 {
            return Err(RunError::InvalidWriteCount);
        }
        if lo >= hi {
            return Err(RunError::InvalidSizeRange);
        }
        proof {
            let a = num_writes as int;
            let b = (hi - 1) as int;
            assert(a * b <= u64::MAX * u64::MAX) by (nonlinear_arith)
                requires
                    0 <= a <= u64::MAX,
                    0 <= b <= u64::MAX,
            ;
        }
        let worst: u128 = (num_writes as u128) * ((hi - 1) as u128);
        if worst > u64::MAX as u128 {
            return Err(RunError::ByteTotalOverflow);
        }
        let mut sizes: Vec<usize> = Vec::new();
        let mut total: u64 = 0;
        let mut i: usize = 0;
        while i < num_writes
            invariant
                0 <= i <= num_writes,
                lo < hi,
                num_writes * (hi - 1) <= u64::MAX,
                sizes@.len() == i,
                forall|k: int| 0 <= k < sizes@.len() ==> lo <= #[trigger] sizes@[k] < hi,
                total == size_sum(sizes@),
            decreases num_writes - i,
        {
            let size = source.draw(lo, hi);
            let ghost before = sizes@;
            sizes.push(size);
            proof {
                assert(sizes@.drop_last() =~= before);
                lemma_size_sum_bound(sizes@, hi as int);
                assert(sizes@.len() * (hi - 1) <= num_writes * (hi - 1)) by (nonlinear_arith)
                    requires
                        sizes@.len() <= num_writes,
                        hi >= 1,
                ;
            }
            total = total + size as u64;
            i = i + 1;
        }
        Ok(WritePlan { sizes, total_bytes: total })
    }
}

/// The bytes of one payload: `size` zero bytes.
pub fn make_payload(size: usize) -> (r: Vec<u8>)
    ensures
        r@.len() == size,
        forall|i: int| 0 <= i < size ==> r@[i] == 0u8,
{
    let mut v: Vec<u8> = Vec::with_capacity(size);
    let mut i: usize = 0;
    while i < size
        invariant
            0 <= i <= size,
            v@.len() == i,
            forall|k: int| 0 <= k < i ==> v@[k] == 0u8,
        decreases size - i,
    {
        v.push(0u8);
        i = i + 1;
    }
    v
}

} // verus!
