//! The cursor that positional writers claim disjoint byte ranges from.
use vstd::prelude::*;

verus! {

/// A claimed range of the sink, as (start, length).
pub type Claim = (nat, nat);

/// The total length of a sequence of claims.
pub open spec fn claimed_total(cs: Seq<Claim>) -> nat
    decreases cs.len(),
{
    if cs.len() == 0 {
        0
    } else {
        claimed_total(cs.drop_last()) + cs.last().1
    }
}

/// The length of a sink once every claimed range has been written: the
/// furthest end of any claim.
pub open spec fn extent(cs: Seq<Claim>) -> nat
    decreases cs.len(),
{
    if cs.len() == 0 {
        0
    } else {
        let e = cs.last().0 + cs.last().1;
        let rest = extent(cs.drop_last());
        if rest >= e {
            rest
        } else {
            e as nat
        }
    }
}

/// Two claims overlap in no byte.
pub open spec fn disjoint(a: Claim, b: Claim) -> bool {
    a.0 + a.1 <= b.0 || b.0 + b.1 <= a.0
}

/// Hands out consecutive byte ranges: each claim starts where the previous
/// one ended.
pub struct OffsetCounter {
    next: u64,
    claims: Ghost<Seq<Claim>>,
}

impl OffsetCounter {
    /// The current value: where the next claim starts.
    pub closed spec fn value(&self) -> nat {
        self.next as nat
    }

    /// Every claim made so far, in the order made.
    pub closed spec fn claims(&self) -> Seq<Claim> {
        self.claims@
    }

    pub open spec fn wf(&self) -> bool {
        &&& forall|i: int, j: int|
            0 <= i < j < self.claims().len() ==> #[trigger] self.claims()[i].0
                + self.claims()[i].1 <= #[trigger] self.claims()[j].0
        &&& forall|i: int|
            0 <= i < self.claims().len() ==> #[trigger] self.claims()[i].0 + self.claims()[i].1
                <= self.value()
        &&& self.claims().len() > 0 ==> self.claims().last().0 + self.claims().last().1
            == self.value()
        &&& self.value() == claimed_total(self.claims())
    }

    /// A counter at zero with nothing claimed.
    pub fn new() -> (r: OffsetCounter)
        ensures
            r.wf(),
            r.value() == 0,
            r.claims().len() == 0,
    {
        OffsetCounter { next: 0, claims: Ghost(Seq::empty()) }
    }

    /// The current value.
    pub fn load(&self) -> (r: u64)
        ensures
            r == self.value(),
    {
        self.next
    }

    /// Claims the next `len` bytes and returns where they start: the value
    /// before the call, which then grows by `len`. Refused, with nothing
    /// claimed, if the value would pass `u64::MAX`.
    pub fn claim(&mut self, len: u64) -> (r: Option<u64>)
        requires
            old(self).wf(),
        ensures
            final(self).wf(),
            old(self).value() + len > u64::MAX <==> r is None,
            r is None ==> final(self).value() == old(self).value() && final(self).claims()
                == old(self).claims(),
            r matches Some(start) ==> {
                &&& start == old(self).value()
                &&& final(self).value() == old(self).value() + len
                &&& final(self).claims() == old(self).claims().push((start as nat, len as nat))
            },
    {
        if self.next > u64::MAX - len {
            return None;
        }
        let start = self.next;
        let ghost before = self.claims@;
        self.next = self.next + len;
        self.claims = Ghost(before.push((start as nat, len as nat)));
        proof {
            assert(self.claims@.drop_last() =~= before);
        }
        Some(start)
    }
}

proof fn lemma_extent_bounded(cs: Seq<Claim>, bound: nat)
    requires
        forall|i: int| 0 <= i < cs.len() ==> #[trigger] cs[i].0 + cs[i].1 <= bound,
    ensures
        extent(cs) <= bound,
    decreases cs.len(),
{
    if cs.len() > 0 {
        assert forall|i: int| 0 <= i < cs.drop_last().len() implies #[trigger] cs.drop_last()[i].0
            + cs.drop_last()[i].1 <= bound by {
            assert(cs.drop_last()[i] == cs[i]);
        }
        lemma_extent_bounded(cs.drop_last(), bound);
    }
}

/// However the claims interleave, no two claimed ranges overlap, and a sink
/// that receives a write at every claimed range is exactly as long as the
/// counter's value, which is also the total length claimed.
pub proof fn lemma_sink_length_is_counter(c: OffsetCounter)
    requires
        c.wf(),
    ensures
        forall|i: int, j: int|
            0 <= i < c.claims().len() && 0 <= j < c.claims().len() && i != j ==> disjoint(
                #[trigger] c.claims()[i],
                #[trigger] c.claims()[j],
            ),
        extent(c.claims()) == c.value(),
        claimed_total(c.claims()) == c.value(),
{
    let cs = c.claims();
    assert forall|i: int, j: int|
        0 <= i < cs.len() && 0 <= j < cs.len() && i != j implies disjoint(
        #[trigger] cs[i],
        #[trigger] cs[j],
    ) by {
        if i < j {
            assert(cs[i].0 + cs[i].1 <= cs[j].0);
        } else {
            assert(cs[j].0 + cs[j].1 <= cs[i].0);
        }
    }
    if cs.len() > 0 {
        assert forall|i: int| 0 <= i < cs.drop_last().len() implies #[trigger] cs.drop_last()[i].0
            + cs.drop_last()[i].1 <= c.value() by {
            assert(cs.drop_last()[i] == cs[i]);
        }
        lemma_extent_bounded(cs.drop_last(), c.value());
    }
}

} // verus!
