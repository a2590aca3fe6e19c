//! The scan coordinator: drives a port range to completion exactly once
//! per port. It hands out the ports to dispatch, accepts each probe's
//! outcome as it arrives — in whatever order probes happen to finish —
//! keeps an order-independent count of completed probes, and finalizes a
//! report with one labeled entry per port, ascending.

use crate::config::PortRange;
use crate::report::labeled_correctly;
use crate::report::spec_state_of;
use crate::report::PortState;
use crate::report::ProbeResult;
use crate::report::ScanReport;
use vstd::prelude::*;

verus! {

/// How many slots of `s` hold an outcome.
pub open spec fn count_some(s: Seq<Option<PortState>>) -> int
    decreases s.len(),
{
    if s.len() == 0 {
        0
    } else {
        count_some(s.drop_last()) + if s.last() is Some {
            1int
        } else {
            0int
        }
    }
}

pub proof fn lemma_count_some_bounds(s: Seq<Option<PortState>>)
    ensures
        0 <= count_some(s) <= s.len(),
    decreases s.len(),
{
    if s.len() > 0 {
        lemma_count_some_bounds(s.drop_last());
    }
}

/// Filling an empty slot raises the count by one.
pub proof fn lemma_count_some_fill(s: Seq<Option<PortState>>, i: int, v: PortState)
    requires
        0 <= i < s.len(),
        s[i] is None,
    ensures
        count_some(s.update(i, Some(v))) == count_some(s) + 1,
    decreases s.len(),
{
    let t = s.update(i, Some(v));
    if i == s.len() - 1 {
        assert(t.drop_last() =~= s.drop_last());
    } else {
        assert(t.drop_last() =~= s.drop_last().update(i, Some(v)));
        lemma_count_some_fill(s.drop_last(), i, v);
    }
}

/// A full count means every slot holds an outcome, and conversely.
pub proof fn lemma_count_some_full(s: Seq<Option<PortState>>)
    ensures
        count_some(s) == s.len() <==> (forall|i: int| 0 <= i < s.len() ==> s[i] is Some),
    decreases s.len(),
{
    if s.len() > 0 {
        let t = s.drop_last();
        lemma_count_some_full(t);
        lemma_count_some_bounds(t);
        assert(forall|i: int| 0 <= i < t.len() ==> #[trigger] t[i] == s[i]);
        if count_some(s) == s.len() {
            assert(count_some(t) == t.len());
            assert forall|i: int| 0 <= i < s.len() implies #[trigger] s[i] is Some by {
                if i < s.len() - 1 {
                    assert(t[i] is Some);
                } else {
                    assert(s[i] == s.last());
                }
            }
        }
        if forall|i: int| 0 <= i < s.len() ==> #[trigger] s[i] is Some {
            assert(forall|i: int| 0 <= i < t.len() ==> #[trigger] t[i] is Some);
            assert(count_some(t) == t.len());
            assert(s[s.len() - 1] is Some);
        }
    }
}

/// The coordinator's mathematical state: the range under scan and, per
/// port, the outcome received so far, if any. Slot `i` belongs to port
/// `start + i`.
pub struct ScanModel {
    pub range: PortRange,
    pub outcomes: Seq<Option<PortState>>,
}

impl ScanModel {
    pub open spec fn wf(self) -> bool {
        self.range.wf() && self.outcomes.len() == self.range.size()
    }

    /// The outcome recorded for `port`, if it is in range and has one.
    pub open spec fn outcome_of(self, port: u16) -> Option<PortState> {
        self.outcomes[port - self.range.start]
    }

    /// Whether a result for `port` would be accepted: the port is in range
    /// and has no outcome yet. Each port's result is accepted exactly once.
    pub open spec fn accepts(self, port: u16) -> bool {
        self.range.contains(port) && self.outcome_of(port) is None
    }

    /// The state after a probe of `port` reports `open`. A result for a
    /// port outside the range, or a second result for a port, changes
    /// nothing.
    pub open spec fn record(self, port: u16, open: bool) -> ScanModel {
        if self.accepts(port) {
            ScanModel {
                range: self.range,
                outcomes: self.outcomes.update(port - self.range.start, Some(spec_state_of(open))),
            }
        } else {
            self
        }
    }

    /// How many ports have reported.
    pub open spec fn done(self) -> int {
        count_some(self.outcomes)
    }

    /// Every port of the range has reported.
    pub open spec fn complete(self) -> bool {
        forall|i: int| 0 <= i < self.outcomes.len() ==> self.outcomes[i] is Some
    }
}

/// Order independence of aggregation: results of two distinct ports may
/// arrive in either order, the state that the coordinator reaches is the
/// same. With every port accepted exactly once, the complete state — and
/// with it the finalized report — does not depend on the order in which
/// probes happened to finish.
pub proof fn lemma_record_commutes(m: ScanModel, p1: u16, o1: bool, p2: u16, o2: bool)
    requires
        m.wf(),
        p1 != p2,
    ensures
        m.record(p1, o1).record(p2, o2) == m.record(p2, o2).record(p1, o1),
{
    let a = m.record(p1, o1).record(p2, o2);
    let b = m.record(p2, o2).record(p1, o1);
    assert(a.outcomes =~= b.outcomes);
}

/// Repeated results for one port change nothing beyond the first: a second
/// report of the same port, with whatever outcome, is ignored.
pub proof fn lemma_record_idempotent(m: ScanModel, port: u16, o1: bool, o2: bool)
    requires
        m.wf(),
    ensures
        m.record(port, o1).record(port, o2) == m.record(port, o1),
{
    if m.accepts(port) {
        assert(m.record(port, o1).outcome_of(port) is Some);
    }
}

/// The executable coordinator. It owns the aggregation state exclusively;
/// concurrent probes hand their outcomes in as plain values.
pub struct ScanCoordinator {
    pub range: PortRange,
    pub outcomes: Vec<Option<PortState>>,
    pub done: usize,
}

impl View for ScanCoordinator {
    type V = ScanModel;

    open spec fn view(&self) -> ScanModel {
        ScanModel { range: self.range, outcomes: self.outcomes@ }
    }
}

impl ScanCoordinator {
    pub open spec fn wf(self) -> bool {
        self@.wf() && self.done == self@.done()
    }

    /// A coordinator for `range` with no outcome recorded yet.
    pub fn new(range: PortRange) -> (c: ScanCoordinator)
        requires
            range.wf(),
        ensures
            c.wf(),
            c@.range == range,
            c@.done() == 0,
            forall|i: int| 0 <= i < c@.outcomes.len() ==> c@.outcomes[i] is None,
            forall|port: u16| range.contains(port) ==> #[trigger] c@.accepts(port),
    {
        let size = range.len();
        let mut outcomes: Vec<Option<PortState>> = Vec::new();
        let mut i: usize = 0;
        while i < size
            invariant
                outcomes@.len() == i <= size,
                forall|j: int| 0 <= j < i ==> outcomes@[j] is None,
                count_some(outcomes@) == 0,
            decreases size - i,
        {
            proof {
                assert(outcomes@.push(None).drop_last() =~= outcomes@);
            }
            outcomes.push(None);
            i = i + 1;
        }
        ScanCoordinator { range, outcomes, done: 0 }
    }

    /// Accepts one probe's outcome. Returns true when the result is fresh —
    /// the port is in range and had not reported before — and false when it
    /// is ignored; either way the new state is `record` applied to the old.
    pub fn record(&mut self, port: u16, open: bool) -> (fresh: bool)
        requires
            old(self).wf(),
        ensures
            final(self).wf(),
            final(self)@ == old(self)@.record(port, open),
            fresh == old(self)@.accepts(port),
            final(self)@.done() == old(self)@.done() + if fresh {
                1int
            } else {
                0int
            },
    {
        if port < self.range.start || port > self.range.end {
            return false;
        }
        let idx = (port - self.range.start) as usize;
        if self.outcomes[idx].is_some() {
            return false;
        }
        let state = if open {
            PortState::Open
        } else {
            PortState::ClosedOrFiltered
        };
        proof {
            lemma_count_some_fill(self.outcomes@, idx as int, state);
            lemma_count_some_bounds(self.outcomes@);
        }
        self.outcomes.set(idx, Some(state));
        self.done = self.done + 1;
        true
    }

    /// How many ports have reported so far: the progress count, an
    /// observable side channel with no bearing on completion.
    pub fn completed_count(&self) -> (n: usize)
        requires
            self.wf(),
        ensures
            n == self@.done(),
    {
        self.done
    }

    /// Whether every port of the range has reported. The scan is not done
    /// until this holds: no dispatched probe may be abandoned.
    pub fn is_complete(&self) -> (r: bool)
        requires
            self.wf(),
        ensures
            r <==> self@.complete(),
    {
        proof {
            lemma_count_some_full(self.outcomes@);
        }
        self.done == self.outcomes.len()
    }

    /// Builds the batch-mode report: one labeled entry per port of the
    /// range, at index `port - start`, so ports are strictly ascending and
    /// each carries exactly the outcome its probe reported.
    pub fn finalize(&self) -> (report: ScanReport)
        requires
            self.wf(),
            self@.complete(),
        ensures
            report.wf(),
            report.range == self@.range,
            forall|i: int|
                0 <= i < report.entries@.len() ==> Some(
                    (#[trigger] report.entries@[i]).state,
                ) == self@.outcomes[i],
    {
        let size = self.outcomes.len();
        let mut entries: Vec<ProbeResult> = Vec::new();
        let mut i: usize = 0;
        while i < size
            invariant
                self.wf(),
                self@.complete(),
                size == self@.outcomes.len(),
                entries@.len() == i <= size,
                forall|j: int|
                    0 <= j < i ==> (#[trigger] entries@[j]).port == self.range.start + j,
                forall|j: int|
                    0 <= j < i ==> Some((#[trigger] entries@[j]).state) == self@.outcomes[j],
                forall|j: int| 0 <= j < i ==> labeled_correctly(#[trigger] entries@[j]),
            decreases size - i,
        {
            let port = self.range.start + (i as u16);
            let open = match self.outcomes[i] {
                Some(PortState::Open) => true,
                Some(PortState::ClosedOrFiltered) => false,
                None => false,
            };
            entries.push(ProbeResult::new(port, open));
            i = i + 1;
        }
        ScanReport { range: self.range, entries }
    }
}

} // verus!
