//! Scan inputs: the target address, the inclusive port range, the
//! concurrency limit, and the per-probe timeout, together with the
//! validation that every scan runs through before any probe is dispatched.

use vstd::prelude::*;

verus! {

/// Default first port of a scan when the caller gives none.
pub const DEFAULT_START_PORT: u16 = 1;

/// Default last port of a scan when the caller gives none.
pub const DEFAULT_END_PORT: u16 = 1024;

/// Default bound on simultaneously running probes.
pub const DEFAULT_CONCURRENCY: usize = 500;

/// Default per-probe connection timeout, in milliseconds.
pub const DEFAULT_TIMEOUT_MS: u64 = 500;

/// The address to scan, held as plain numbers so that the scan logic can
/// carry it without caring which address family it belongs to.
#[derive(Clone, Copy, PartialEq, Eq, Structural, Debug)]
pub enum Target {
    V4(u8, u8, u8, u8),
    V6(u16, u16, u16, u16, u16, u16, u16, u16),
}

/// An input error that stops a scan before any probe is dispatched.
/// Individual probe failures are never errors; they become ordinary
/// closed-or-filtered outcomes.
#[derive(Clone, Copy, PartialEq, Eq, Structural, Debug)]
pub enum ScanError {
    /// The range does not satisfy `1 <= start <= end`.
    InvalidRange,
    /// The concurrency limit is zero.
    InvalidConcurrency,
}

impl ScanError {
    /// A short human-readable description of the error.
    pub fn describe(&self) -> (r: &'static str)
        ensures
            *self is InvalidRange ==> r@ == "Invalid port range (1-65535)"@,
            *self is InvalidConcurrency ==> r@ == "Concurrency limit must be at least 1"@,
    {
        match self {
            ScanError::InvalidRange => "Invalid port range (1-65535)",
            ScanError::InvalidConcurrency => "Concurrency limit must be at least 1",
        }
    }
}

/// An inclusive interval of ports, well formed when `1 <= start <= end`.
/// Port 0 is never scanned, and `end` cannot exceed 65535 by its type.
#[derive(Clone, Copy, PartialEq, Eq, Structural, Debug)]
pub struct PortRange {
    pub start: u16,
    pub end: u16,
}

impl PortRange {
    /// The invariant every constructed range satisfies.
    pub open spec fn wf(self) -> bool {
        1 <= self.start <= self.end
    }

    /// How many ports the range covers.
    pub open spec fn size(self) -> int {
        self.end - self.start + 1
    }

    /// Whether `port` lies inside the range.
    pub open spec fn contains(self, port: u16) -> bool {
        self.start <= port <= self.end
    }

    /// Validates and builds a range; rejects `start == 0` and `start > end`.
    pub fn new(start: u16, end: u16) -> (r: Result<PortRange, ScanError>)
        ensures
            match r {
                Ok(pr) => pr.start == start && pr.end == end && pr.wf(),
                Err(e) => (start < 1 || start > end) && e is InvalidRange,
            },
    {
        if start < 1 || start > end {
            Err(ScanError::InvalidRange)
        } else {
            Ok(PortRange { start, end })
        }
    }

    /// Every port of the range, in ascending order, each exactly once:
    /// the unit of dispatch for the coordinator.
    pub fn ports(&self) -> (r: Vec<u16>)
        requires
            self.wf(),
        ensures
            r@.len() == self.size(),
            forall|i: int| 0 <= i < r@.len() ==> r@[i] == self.start + i,
    {
        let mut r: Vec<u16> = Vec::new();
        let mut next: u32 = self.start as u32;
        while next <= self.end as u32
            invariant
                self.wf(),
                self.start <= next <= self.end + 1,
                r@.len() == next - self.start,
                forall|i: int| 0 <= i < r@.len() ==> r@[i] == self.start + i,
            decreases self.end + 1 - next,
        {
            r.push(next as u16);
            next = next + 1;
        }
        r
    }

    /// The range size as an executable value.
    pub fn len(&self) -> (r: usize)
        requires
            self.wf(),
        ensures
            r == self.size(),
    {
        (self.end - self.start) as usize + 1
    }
}

/// A scan over a well-formed range is never empty: a range of size zero
/// cannot be constructed, and the smallest range covers exactly one port.
pub proof fn lemma_range_nonempty(range: PortRange)
    requires
        range.wf(),
    ensures
        range.size() >= 1,
{
}

/// A fully validated scan request.
#[derive(Clone, Copy, PartialEq, Eq, Structural, Debug)]
pub struct ScanConfig {
    pub target: Target,
    pub range: PortRange,
    pub limit: usize,
    pub timeout_ms: u64,
}

impl ScanConfig {
    pub open spec fn wf(self) -> bool {
        self.range.wf() && self.limit >= 1
    }

    /// Validates all inputs before a scan may begin: the range must satisfy
    /// `1 <= start <= end` and the concurrency limit must be positive.
    pub fn new(target: Target, start: u16, end: u16, limit: usize, timeout_ms: u64) -> (r: Result<
        ScanConfig,
        ScanError,
    >)
        ensures
            match r {
                Ok(c) => {
                    &&& 1 <= start <= end
                    &&& limit >= 1
                    &&& c == (ScanConfig {
                        target,
                        range: PortRange { start, end },
                        limit,
                        timeout_ms,
                    })
                    &&& c.wf()
                },
                Err(e) => {
                    &&& (start < 1 || start > end || limit < 1)
                    &&& (e is InvalidRange <==> (start < 1 || start > end))
                    &&& (e is InvalidConcurrency <==> (1 <= start <= end && limit < 1))
                },
            },
    {
        let range = match PortRange::new(start, end) {
            Ok(pr) => pr,
            Err(e) => {
                return Err(e);
            },
        };
        if limit < 1 {
            return Err(ScanError::InvalidConcurrency);
        }
        Ok(ScanConfig { target, range, limit, timeout_ms })
    }
}

} // verus!
