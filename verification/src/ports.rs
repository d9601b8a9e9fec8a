//! Port allocation: scanning a range of ports with a probe that says
//! whether a local listener can be bound on a port.
//!
//! The probe is a capability handed in by the caller. Nothing is assumed of
//! it beyond what it states of itself, so every contract here speaks of what
//! the probe answered during the scan.

use vstd::prelude::*;

verus! {

/// The probe answered that `port` is free.
pub open spec fn reported_free<F: Fn(u16) -> bool>(probe: &F, port: u16) -> bool {
    call_ensures(*probe, (port,), true)
}

/// The probe answered that `port` is taken.
pub open spec fn reported_taken<F: Fn(u16) -> bool>(probe: &F, port: u16) -> bool {
    call_ensures(*probe, (port,), false)
}

/// The probe may be asked about every port of the range.
pub open spec fn probe_covers<F: Fn(u16) -> bool>(probe: &F, start: u16, end: u16) -> bool {
    forall|p: u16| start <= p <= end ==> call_requires(*probe, (p,))
}

/// Scans `start..=end` upwards and returns the first port that the probe
/// reports free; `None` when it reports every port of the range taken, or
/// when the range is empty.
pub fn find_available_port<F: Fn(u16) -> bool>(start: u16, end: u16, probe: &F) -> (found:
    Option<u16>)
    requires
        probe_covers(probe, start, end),
    ensures
        match found {
            Some(port) => {
                &&& start <= port <= end
                &&& reported_free(probe, port)
                &&& forall|q: u16| start <= q < port ==> reported_taken(probe, q)
            },
            None => forall|q: u16| start <= q <= end ==> reported_taken(probe, q),
        },
{
    let mut next: u32 = start as u32;
    while next <= end as u32
        invariant
            start <= next,
            next <= end + 1 || next == start,
            probe_covers(probe, start, end),
            forall|q: u16| start <= q < next ==> reported_taken(probe, q),
        decreases end + 1 - next,
    {
        let port: u16 = next as u16;
        if probe(port) {
            return Some(port);
        }
        next = next + 1;
    }
    None
}

/// Scans `start..=end` upwards and collects the ports that the probe reports
/// free, stopping as soon as `count` of them are found.
pub fn get_available_ports<F: Fn(u16) -> bool>(
    start: u16,
    end: u16,
    count: usize,
    probe: &F,
) -> (ports: Vec<u16>)
    requires
        probe_covers(probe, start, end),
    ensures
        ports@.len() <= count,
        forall|i: int| 0 <= i < ports@.len() ==> start <= #[trigger] ports@[i] <= end,
        forall|i: int| 0 <= i < ports@.len() ==> reported_free(probe, #[trigger] ports@[i]),
        forall|i: int, j: int| 0 <= i < j < ports@.len() ==> ports@[i] < ports@[j],
        forall|q: u16|
            start <= q <= end && !ports@.contains(q) && (ports@.len() < count || (ports@.len() > 0
                && q < ports@.last())) ==> reported_taken(probe, q),
{
    let mut ports: Vec<u16> = Vec::new();
    let mut next: u32 = start as u32;
    while next <= end as u32 && ports.len() < count
        invariant
            start <= next,
            next <= end + 1 || next == start,
            probe_covers(probe, start, end),
            ports@.len() <= count,
            forall|i: int| 0 <= i < ports@.len() ==> start <= #[trigger] ports@[i] < next,
            forall|i: int| 0 <= i < ports@.len() ==> reported_free(probe, #[trigger] ports@[i]),
            forall|i: int, j: int| 0 <= i < j < ports@.len() ==> ports@[i] < ports@[j],
            forall|q: u16| start <= q < next && !ports@.contains(q) ==> reported_taken(probe, q),
        decreases end + 1 - next,
    {
        let port: u16 = next as u16;
        if probe(port) {
            let ghost before = ports@;
            ports.push(port);
            assert forall|q: u16|
                start <= q < next + 1 && !ports@.contains(q) implies reported_taken(probe, q) by {
                if q == port {
                    assert(ports@[before.len() as int] == port);
                } else {
                    if before.contains(q) {
                        let i = choose|i: int| 0 <= i < before.len() && before[i] == q;
                        assert(ports@[i] == q);
                    }
                }
            }
        }
        next = next + 1;
    }
    proof {
        assert forall|q: u16|
            start <= q <= end && !ports@.contains(q) && (ports@.len() < count || (ports@.len() > 0
                && q < ports@.last())) implies reported_taken(probe, q) by {
            if ports@.len() > 0 && q < ports@.last() {
                assert(ports@[ports@.len() - 1] < next);
            }
        }
    }
    ports
}

/// With a probe whose answer is a fixed predicate of the port, a scan finds
/// the numerically smallest free port of the range, and finds nothing
/// exactly when the range holds no free port.
pub proof fn lemma_scan_finds_smallest_free<F: Fn(u16) -> bool>(
    probe: &F,
    free: spec_fn(u16) -> bool,
    start: u16,
    end: u16,
    found: Option<u16>,
)
    requires
        forall|p: u16, answer: bool|
            #[trigger] call_ensures(*probe, (p,), answer) ==> answer == free(p),
        match found {
            Some(port) => {
                &&& start <= port <= end
                &&& reported_free(probe, port)
                &&& forall|q: u16| start <= q < port ==> reported_taken(probe, q)
            },
            None => forall|q: u16| start <= q <= end ==> reported_taken(probe, q),
        },
    ensures
        match found {
            Some(port) => {
                &&& start <= port <= end
                &&& free(port)
                &&& forall|q: u16| start <= q <= end && #[trigger] free(q) ==> port <= q
            },
            None => forall|q: u16| start <= q <= end ==> !#[trigger] free(q),
        },
{
    match found {
        Some(port) => {
            assert forall|q: u16| start <= q <= end && #[trigger] free(q) implies port <= q by {
                if q < port {
                    assert(reported_taken(probe, q));
                }
            }
        },
        None => {
            assert forall|q: u16| start <= q <= end implies !#[trigger] free(q) by {
                assert(reported_taken(probe, q));
            }
        },
    }
}

} // verus!
