//! The concurrency governor: a counting model of probe slots. A slot is
//! acquired before a probe starts and released when it finishes, so the
//! `in_flight` count is exactly the number of probes running at an instant,
//! and it never exceeds the caller-supplied limit.

use vstd::prelude::*;

verus! {

/// Bounds how many probes run simultaneously. Well-formedness ties the
/// number of occupied slots to the limit; every operation preserves it.
#[derive(Clone, Copy, PartialEq, Eq, Structural, Debug)]
pub struct Governor {
    pub limit: usize,
    pub in_flight: usize,
}

impl Governor {
    /// The invariant: the limit is positive and never exceeded.
    pub open spec fn wf(self) -> bool {
        1 <= self.limit && self.in_flight <= self.limit
    }

    /// A fresh governor with every slot free.
    pub fn new(limit: usize) -> (g: Governor)
        requires
            limit >= 1,
        ensures
            g.wf(),
            g.limit == limit,
            g.in_flight == 0,
    {
        Governor { limit, in_flight: 0 }
    }

    /// Takes a slot if one is free. A probe may be dispatched only after
    /// this returns true; when it returns false the caller must wait for a
    /// release.
    pub fn try_acquire(&mut self) -> (granted: bool)
        requires
            old(self).wf(),
        ensures
            final(self).wf(),
            final(self).limit == old(self).limit,
            granted <==> old(self).in_flight < old(self).limit,
            granted ==> final(self).in_flight == old(self).in_flight + 1,
            !granted ==> final(self).in_flight == old(self).in_flight,
    {
        if self.in_flight < self.limit {
            self.in_flight = self.in_flight + 1;
            true
        } else {
            false
        }
    }

    /// Frees the slot of a finished probe. Called exactly once per
    /// acquisition, on every exit path of a probe.
    pub fn release(&mut self)
        requires
            old(self).wf(),
            old(self).in_flight >= 1,
        ensures
            final(self).wf(),
            final(self).limit == old(self).limit,
            final(self).in_flight == old(self).in_flight - 1,
    {
        self.in_flight = self.in_flight - 1;
    }

    /// How many more probes may start right now.
    pub fn available(&self) -> (r: usize)
        requires
            self.wf(),
        ensures
            r == self.limit - self.in_flight,
    {
        self.limit - self.in_flight
    }
}

/// The concurrency bound itself: however a well-formed governor was reached,
/// the number of probes it has in flight never exceeds its limit.
pub proof fn lemma_governor_bounded(g: Governor)
    requires
        g.wf(),
    ensures
        g.in_flight <= g.limit,
{
}

} // verus!
