use vstd::prelude::*;

verus! {

/// A component holding a single unsigned counter: created at zero,
/// stepped by one per increment, resettable to zero at any time.
pub struct SimpleCounter {
    count: u64,
}

impl View for SimpleCounter {
    type V = nat;

    closed spec fn view(&self) -> nat {
        self.count as nat
    }
}

/// The counter value reached from `c` by `n` increment steps.
pub open spec fn counter_after_increments(c: nat, n: nat) -> nat
    decreases n,
{
    if n == 0 {
        c
    } else {
        counter_after_increments(c, (n - 1) as nat) + 1
    }
}

impl SimpleCounter {
    /// Creates a fresh counter instance with the count at zero.
    pub fn instantiate() -> (c: SimpleCounter)
        ensures
            c@ == 0,
    {
        SimpleCounter { count: 0 }
    }

    /// Adds one to the stored count. A count already at the machine limit
    /// is excluded: the host aborts the whole transaction on overflow
    /// rather than ever applying a partial change.
    pub fn increment(&mut self)
        requires
            old(self)@ < u64::MAX,
        ensures
            final(self)@ == old(self)@ + 1,
    {
        self.count = self.count + 1;
    }

    /// Reads the current count; no side effect.
    pub fn get_count(&self) -> (n: u64)
        ensures
            n as nat == self@,
    {
        self.count
    }

    /// Restores the count to zero, whatever its prior value.
    pub fn reset(&mut self)
        ensures
            final(self)@ == 0,
    {
        self.count = 0;
    }
}

/// Law: a sequence of `n` increment steps on a freshly instantiated
/// counter leaves the count at exactly `n`.
pub proof fn lemma_increments_count_exactly(n: nat)
    ensures
        counter_after_increments(0, n) == n,
    decreases n,
{
    if n > 0 {
        lemma_increments_count_exactly((n - 1) as nat);
    }
}

} // verus!
