//! Probe outcomes and the scan report. A probe yields exactly one outcome
//! per port; the finalized report lists one labeled entry per port of the
//! range, in strictly ascending port order.

use crate::config::PortRange;
use crate::services::service_label;
use crate::services::spec_service_name;
use vstd::prelude::*;

verus! {

/// What a single probe found. A connection completed within the timeout
/// means open; a refusal, timeout or any other failure means
/// closed-or-filtered, with no further distinction.
#[derive(Clone, Copy, PartialEq, Eq, Structural, Debug)]
pub enum PortState {
    Open,
    ClosedOrFiltered,
}

/// The outcome an open flag maps to.
pub open spec fn spec_state_of(open: bool) -> PortState {
    if open {
        PortState::Open
    } else {
        PortState::ClosedOrFiltered
    }
}

/// One port's result: its outcome and, for well-known ports, a service
/// label from the static table.
#[derive(Clone, Copy, Debug)]
pub struct ProbeResult {
    pub port: u16,
    pub state: PortState,
    pub service: Option<&'static str>,
}

/// The label of `r` agrees with the service table for `r.port`.
pub open spec fn labeled_correctly(r: ProbeResult) -> bool {
    match r.service {
        Some(s) => spec_service_name(r.port) == Some(s@),
        None => spec_service_name(r.port) is None,
    }
}

impl ProbeResult {
    /// Builds the labeled result of one completed probe; the streaming
    /// emission path hands these out as probes finish.
    pub fn new(port: u16, open: bool) -> (r: ProbeResult)
        ensures
            r.port == port,
            r.state == spec_state_of(open),
            labeled_correctly(r),
    {
        let state = if open {
            PortState::Open
        } else {
            PortState::ClosedOrFiltered
        };
        ProbeResult { port, state, service: service_label(port) }
    }
}

/// A finalized batch-mode report over `range`: one entry per port of the
/// range, held at the index of its port.
pub open spec fn report_complete_for(entries: Seq<ProbeResult>, range: PortRange) -> bool {
    &&& entries.len() == range.size()
    &&& forall|i: int| 0 <= i < entries.len() ==> (#[trigger] entries[i]).port == range.start + i
}

/// The batch-mode scan report: every port of the range exactly once,
/// ascending.
pub struct ScanReport {
    pub range: PortRange,
    pub entries: Vec<ProbeResult>,
}

impl ScanReport {
    pub open spec fn wf(self) -> bool {
        &&& self.range.wf()
        &&& report_complete_for(self.entries@, self.range)
        &&& forall|i: int| 0 <= i < self.entries@.len() ==> labeled_correctly(
            #[trigger] self.entries@[i],
        )
    }

    /// How many entries report an open port.
    pub fn open_count(&self) -> (n: usize)
        ensures
            n <= self.entries@.len(),
            n == count_open(self.entries@),
    {
        let mut n: usize = 0;
        let mut i: usize = 0;
        while i < self.entries.len()
            invariant
                i <= self.entries@.len(),
                n == count_open(self.entries@.take(i as int)),
                n <= i,
            decreases self.entries@.len() - i,
        {
            proof {
                assert(self.entries@.take(i + 1).drop_last() =~= self.entries@.take(i as int));
                assert(self.entries@.take(i + 1).last() == self.entries@[i as int]);
            }
            if matches!(self.entries[i].state, PortState::Open) {
                n = n + 1;
            }
            i = i + 1;
        }
        proof {
            assert(self.entries@.take(self.entries@.len() as int) =~= self.entries@);
        }
        n
    }
}

/// How many results in `s` are open ports.
pub open spec fn count_open(s: Seq<ProbeResult>) -> int
    decreases s.len(),
{
    if s.len() == 0 {
        0
    } else {
        count_open(s.drop_last()) + if s.last().state is Open {
            1int
        } else {
            0int
        }
    }
}

/// In a complete report every port of the range appears exactly once —
/// the entry at index `port - start` and at no other — and no port outside
/// the range appears at all.
pub proof fn lemma_report_exactly_one_per_port(entries: Seq<ProbeResult>, range: PortRange)
    requires
        range.wf(),
        report_complete_for(entries, range),
    ensures
        forall|p: u16|
            #[trigger] range.contains(p) ==> 0 <= p - range.start < entries.len() && entries[p
                - range.start].port == p,
        forall|i: int, j: int|
            0 <= i < entries.len() && 0 <= j < entries.len() && i != j ==> entries[i].port
                != entries[j].port,
        forall|i: int|
            0 <= i < entries.len() ==> range.contains((#[trigger] entries[i]).port),
{
}

/// Batch-mode ordering: the ports of a complete report are strictly
/// ascending.
pub proof fn lemma_report_strictly_ascending(entries: Seq<ProbeResult>, range: PortRange)
    requires
        range.wf(),
        report_complete_for(entries, range),
    ensures
        forall|i: int, j: int|
            0 <= i < j < entries.len() ==> entries[i].port < entries[j].port,
{
}

} // verus!
