use vstd::prelude::*;

verus! {

/// How many outcomes in the sequence are successes.
pub open spec fn count_successes(outcomes: Seq<bool>) -> nat
    decreases outcomes.len(),
{
    if outcomes.len() == 0 {
        0
    } else {
        (count_successes(outcomes.drop_last()) + (if outcomes.last() {
            1int
        } else {
            0int
        })) as nat
    }
}

/// How many outcomes in the sequence are failures.
pub open spec fn count_failures(outcomes: Seq<bool>) -> nat
    decreases outcomes.len(),
{
    if outcomes.len() == 0 {
        0
    } else {
        (count_failures(outcomes.drop_last()) + (if outcomes.last() {
            0int
        } else {
            1int
        })) as nat
    }
}

/// Every item of a batch is accounted for: the successes and the failures
/// partition the batch, so a per-item failure never cuts a sweep short.
pub proof fn lemma_sweep_partition(outcomes: Seq<bool>)
    ensures
        count_successes(outcomes) + count_failures(outcomes) == outcomes.len(),
    decreases outcomes.len(),
{
    if outcomes.len() > 0 {
        lemma_sweep_partition(outcomes.drop_last());
    }
}

/// The running success/failure tally a batch command reports at the end.
#[derive(Debug, Clone, Copy, PartialEq, Eq, Structural)]
pub struct SweepTally {
    pub success: usize,
    pub failed: usize,
}

impl SweepTally {
    pub open spec fn total(self) -> int {
        self.success + self.failed
    }

    pub fn new() -> (r: SweepTally)
        ensures
            r.success == 0,
            r.failed == 0,
    {
        SweepTally { success: 0, failed: 0 }
    }

    /// Counts one finished item. A failed item is tallied and the batch
    /// moves on; nothing here ends the sweep.
    pub fn record(&mut self, ok: bool)
        requires
            old(self).total() < usize::MAX,
        ensures
            final(self).success == old(self).success + (if ok {
                1int
            } else {
                0int
            }),
            final(self).failed == old(self).failed + (if ok {
                0int
            } else {
                1int
            }),
            final(self).total() == old(self).total() + 1,
    {
        if ok {
            self.success = self.success + 1;
        } else {
            self.failed = self.failed + 1;
        }
    }
}

/// Whether the pacer runs after the item at this one-based position: after
/// every item of the batch but the last.
pub fn pace_after(index: usize, count: usize) -> (r: bool)
    ensures
        r == (index < count),
{
    index < count
}

/// Tallies a whole batch of per-item outcomes: all of them are processed,
/// and the report splits them exactly into successes and failures.
pub fn run_sweep(outcomes: &Vec<bool>) -> (r: SweepTally)
    ensures
        r.success == count_successes(outcomes@),
        r.failed == count_failures(outcomes@),
        r.total() == outcomes@.len(),
{
    let mut tally = SweepTally::new();
    let mut i: usize = 0;
    while i < outcomes.len()
        invariant
            i <= outcomes@.len(),
            tally.success == count_successes(outcomes@.subrange(0, i as int)),
            tally.failed == count_failures(outcomes@.subrange(0, i as int)),
            tally.total() == i,
        decreases outcomes@.len() - i,
    {
        tally.record(outcomes[i]);
        proof {
            assert(outcomes@.subrange(0, i as int + 1).drop_last() =~= outcomes@.subrange(
                0,
                i as int,
            ));
            assert(outcomes@.subrange(0, i as int + 1).last() == outcomes@[i as int]);
        }
        i = i + 1;
    }
    proof {
        assert(outcomes@.subrange(0, outcomes@.len() as int) =~= outcomes@);
    }
    tally
}

} // verus!
