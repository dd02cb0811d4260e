//! A shared counter mutated under a mutual-exclusion lock.  The lock fully
//! serializes the workers' read-modify-write steps, so the effect of the
//! whole run equals that of the steps performed one after another; the law
//! below states that such a serialized run loses no update.

use vstd::prelude::*;

verus! {

/// The read-modify-write step a worker performs while holding the lock.
pub open spec fn locked_increment(value: nat) -> nat {
    value + 1
}

/// The counter value after `workers` serialized lock-guarded increments
/// starting from `start`.
pub open spec fn serialized_count(start: nat, workers: nat) -> nat
    decreases workers,
{
    if workers == 0 {
        start
    } else {
        locked_increment(serialized_count(start, (workers - 1) as nat))
    }
}

/// No update is lost: a serialized run of `workers` increments from
/// `start` ends at exactly `start + workers` — in particular, ten workers
/// starting from zero end at exactly ten, whatever order the lock granted.
pub proof fn lemma_no_lost_updates(start: nat, workers: nat)
    ensures
        serialized_count(start, workers) == start + workers,
    decreases workers,
{
    if workers > 0 {
        lemma_no_lost_updates(start, (workers - 1) as nat);
    }
}

/// A counter whose value only ever moves by guarded increments.
pub struct Counter {
    pub count: u64,
}

impl Counter {
    /// A fresh counter at zero.
    pub fn new() -> (c: Counter)
        ensures
            c.count == 0,
    {
        Counter { count: 0 }
    }

    /// One worker's step: read the value, add one, write it back.
    pub fn increment(&mut self)
        requires
            old(self).count < u64::MAX,
        ensures
            final(self).count == old(self).count + 1,
    {
        self.count = self.count + 1;
    }

    /// The effect of `workers` serialized steps: the counter lands exactly
    /// on the serialized count, with no update lost.
    pub fn run_workers(&mut self, workers: u64)
        requires
            old(self).count + workers <= u64::MAX,
        ensures
            final(self).count == serialized_count(old(self).count as nat, workers as nat),
            final(self).count == old(self).count + workers,
    {
        proof {
            lemma_no_lost_updates(old(self).count as nat, workers as nat);
        }
        let mut done: u64 = 0;
        while done < workers
            invariant
                done <= workers,
                old(self).count + workers <= u64::MAX,
                self.count == old(self).count + done,
            decreases workers - done,
        {
            self.increment();
            done += 1;
        }
    }
}

} // verus!
