//! Port allocation: an ascending scan over a bounded range of local ports.
//!
//! Whether a port can be bound is for the host to find out. The scan decides
//! which port to probe next and when to stop.

use vstd::prelude::*;

verus! {

/// An ascending scan in progress: the probe of `port` is outstanding and
/// `last` is the final candidate.
#[derive(Debug, Clone, Copy, PartialEq, Eq)]
pub struct PortScan {
    pub port: u16,
    pub last: u16,
}

/// How a scan goes on.
#[derive(Debug, Clone, Copy, PartialEq, Eq)]
pub enum ScanStep {
    /// Probe `port` of the scan next.
    Probe(PortScan),
    /// This port answered its probe: the scan is over.
    Found(u16),
    /// Every candidate was probed and none was free.
    Exhausted,
}

/// The first step of a scan over `min..=max`.
pub open spec fn scan_first(min: u16, max: u16) -> ScanStep {
    if min <= max {
        ScanStep::Probe(PortScan { port: min, last: max })
    } else {
        ScanStep::Exhausted
    }
}

/// The step that follows the answer to the outstanding probe.
pub open spec fn scan_after(scan: PortScan, available: bool) -> ScanStep {
    if available {
        ScanStep::Found(scan.port)
    } else if scan.port < scan.last {
        ScanStep::Probe(PortScan { port: (scan.port + 1) as u16, last: scan.last })
    } else {
        ScanStep::Exhausted
    }
}

/// Number of probes that a scan may still make.
pub open spec fn probes_left(step: ScanStep) -> nat {
    match step {
        ScanStep::Probe(scan) => if scan.port <= scan.last {
            (scan.last - scan.port + 1) as nat
        } else {
            1
        },
        _ => 0,
    }
}

/// Where a scan ends when each probe is answered by membership in `free`.
pub open spec fn scan_result(step: ScanStep, free: Set<u16>) -> Option<u16>
    decreases probes_left(step),
{
    match step {
        ScanStep::Probe(scan) => scan_result(scan_after(scan, free.contains(scan.port)), free),
        ScanStep::Found(port) => Some(port),
        ScanStep::Exhausted => None,
    }
}

/// `port` is the lowest free port of `min..=max`.
pub open spec fn is_first_free(port: u16, min: u16, max: u16, free: Set<u16>) -> bool {
    &&& min <= port <= max
    &&& free.contains(port)
    &&& forall|q: u16| min <= q < port ==> !free.contains(q)
}

/// No port of `min..=max` is free.
pub open spec fn none_free(min: u16, max: u16, free: Set<u16>) -> bool {
    forall|q: u16| min <= q <= max ==> !free.contains(q)
}

impl PortScan {
    /// Begins a scan over `min..=max`.
    pub fn begin(min: u16, max: u16) -> (step: ScanStep)
        ensures
            step == scan_first(min, max),
    {
        if min <= max {
            ScanStep::Probe(PortScan { port: min, last: max })
        } else {
            ScanStep::Exhausted
        }
    }

    /// Takes the answer to the outstanding probe and says how the scan goes on.
    pub fn advance(self, available: bool) -> (step: ScanStep)
        ensures
            step == scan_after(self, available),
    {
        if available {
            ScanStep::Found(self.port)
        } else if self.port < self.last {
            ScanStep::Probe(PortScan { port: self.port + 1, last: self.last })
        } else {
            ScanStep::Exhausted
        }
    }
}

/// A scan that has reached `scan.port` without finding a free port below it
/// ends on the lowest free port of the range, or finds none.
proof fn lemma_scan_from(scan: PortScan, min: u16, free: Set<u16>)
    requires
        min <= scan.port <= scan.last,
        forall|q: u16| min <= q < scan.port ==> !free.contains(q),
    ensures
        match scan_result(ScanStep::Probe(scan), free) {
            Some(port) => is_first_free(port, min, scan.last, free),
            None => none_free(min, scan.last, free),
        },
    decreases scan.last - scan.port,
{
    let after = scan_after(scan, free.contains(scan.port));
    assert(scan_result(ScanStep::Probe(scan), free) == scan_result(after, free));
    if free.contains(scan.port) {
        assert(scan_result(after, free) == Some(scan.port));
    } else if scan.port < scan.last {
        let next = PortScan { port: (scan.port + 1) as u16, last: scan.last };
        assert(after == ScanStep::Probe(next));
        assert forall|q: u16| min <= q < next.port implies !free.contains(q) by {
            if q < scan.port {
            } else {
                assert(q == scan.port);
            }
        }
        lemma_scan_from(next, min, free);
    } else {
        assert(scan_result(after, free) is None);
        assert forall|q: u16| min <= q <= scan.last implies !free.contains(q) by {
            if q < scan.port {
            } else {
                assert(q == scan.port);
            }
        }
    }
}

/// Port safety. Over any range and any set of free ports, a scan ends on a
/// port exactly when the range holds a free one, and then on the lowest of
/// them: a port of the range whose own probe succeeded. With no free port in
/// the range it ends exhausted.
pub proof fn lemma_scan_finds_first_free(min: u16, max: u16, free: Set<u16>)
    ensures
        match scan_result(scan_first(min, max), free) {
            Some(port) => is_first_free(port, min, max, free),
            None => none_free(min, max, free),
        },
        (exists|q: u16| min <= q <= max && free.contains(q)) <==> scan_result(
            scan_first(min, max),
            free,
        ) is Some,
{
    if min <= max {
        lemma_scan_from(PortScan { port: min, last: max }, min, free);
    }
    match scan_result(scan_first(min, max), free) {
        Some(port) => {
            assert(min <= port <= max && free.contains(port));
        },
        None => {},
    }
}

/// A scan never probes more ports than its range holds.
pub proof fn lemma_scan_is_bounded(scan: PortScan, available: bool)
    ensures
        probes_left(scan_after(scan, available)) < probes_left(ScanStep::Probe(scan)),
{
}

} // verus!
