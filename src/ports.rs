use vstd::prelude::*;

use crate::config::{PORT_RANGE_END, PORT_RANGE_START, PROBE_ATTEMPTS};

verus! {

/// A port that may be handed to a new backend: inside the probe range, and not
/// the port of the backend that is live now.
pub open spec fn admissible(port: u16, active: Option<u16>) -> bool {
    PORT_RANGE_START <= port < PORT_RANGE_END && active != Some(port)
}

/// Whether `port` may be handed to a new backend while `active` is live.
pub fn port_admissible(port: u16, active: Option<u16>) -> (r: bool)
    ensures
        r == admissible(port, active),
{
    PORT_RANGE_START <= port && port < PORT_RANGE_END && match active {
        Some(a) => a != port,
        None => true,
    }
}

/// What one probe of a candidate port leads to.
#[derive(Debug, Clone, Copy, PartialEq, Eq)]
pub enum ProbeVerdict {
    /// The candidate is free and may be used.
    Found(u16),
    /// The candidate is not usable; another may be drawn.
    Retry,
    /// The attempt budget is spent without a usable port.
    Unavailable,
}

/// The verdict after probing `candidate`, with `attempts` probes made before it.
pub open spec fn verdict(attempts: u32, avoid: Option<u16>, candidate: u16, free: bool) -> ProbeVerdict {
    if admissible(candidate, avoid) && free {
        ProbeVerdict::Found(candidate)
    } else if attempts + 1 >= PROBE_ATTEMPTS {
        ProbeVerdict::Unavailable
    } else {
        ProbeVerdict::Retry
    }
}

/// Relies on rand::random_range: a uniformly drawn value of the half-open
/// range `lo..hi` (it panics only on an empty range).
#[verifier::external_body]
fn draw_in_range(lo: u16, hi: u16) -> (r: u16)
    requires
        lo < hi,
    ensures
        lo <= r < hi,
{
    rand::random_range(lo..hi)
}

/// One search for a free port: the probes made so far, and the port that must
/// not be handed out.
pub struct PortSearch {
    pub attempts: u32,
    pub avoid: Option<u16>,
}

impl PortSearch {
    /// A search that has probed nothing yet.
    pub fn new(avoid: Option<u16>) -> (r: PortSearch)
        ensures
            r.attempts == 0,
            r.avoid == avoid,
    {
        PortSearch { attempts: 0, avoid }
    }

    /// Whether the search may still probe a candidate.
    pub open spec fn running(&self) -> bool {
        self.attempts < PROBE_ATTEMPTS
    }

    /// A random candidate from the probe range.
    pub fn candidate(&self) -> (r: u16)
        ensures
            PORT_RANGE_START <= r < PORT_RANGE_END,
    {
        draw_in_range(PORT_RANGE_START, PORT_RANGE_END)
    }

    /// Whether `port` is worth probing at all.
    pub fn worth_probing(&self, port: u16) -> (r: bool)
        ensures
            r == admissible(port, self.avoid),
    {
        port_admissible(port, self.avoid)
    }

    /// Counts one probe of `candidate`, whose bind test said `free`.
    pub fn record(&mut self, candidate: u16, free: bool) -> (r: ProbeVerdict)
        requires
            old(self).running(),
        ensures
            r == verdict(old(self).attempts, old(self).avoid, candidate, free),
            final(self).attempts == old(self).attempts + 1,
            final(self).avoid == old(self).avoid,
    {
        let usable = self.worth_probing(candidate) && free;
        self.attempts = self.attempts + 1;
        if usable {
            ProbeVerdict::Found(candidate)
        } else if self.attempts >= PROBE_ATTEMPTS {
            ProbeVerdict::Unavailable
        } else {
            ProbeVerdict::Retry
        }
    }
}

/// Finds a free port for a new backend. `probe` binds a listener to the port
/// and releases it again, and says whether the bind succeeded. At most
/// `PROBE_ATTEMPTS` random candidates are tried; the port of the live backend
/// (`avoid`) is never probed nor returned. `None` comes only after
/// `PROBE_ATTEMPTS` candidates of the range were each the live port or refused
/// by the probe.
pub fn allocate_port<F: Fn(u16) -> bool>(avoid: Option<u16>, probe: F) -> (r: Option<u16>)
    requires
        forall|p: u16| probe.requires((p,)),
    ensures
        r matches Some(p) ==> admissible(p, avoid) && probe.ensures((p,), true),
        r is None ==> exists|tried: Seq<u16>|
            tried.len() == PROBE_ATTEMPTS && forall|i: int|
                0 <= i < tried.len() ==> PORT_RANGE_START <= #[trigger] tried[i] < PORT_RANGE_END
                    && (avoid == Some(tried[i]) || probe.ensures((tried[i],), false)),
{
    let mut search = PortSearch::new(avoid);
    let ghost mut tried: Seq<u16> = Seq::empty();
    loop
        invariant
            forall|p: u16| probe.requires((p,)),
            search.avoid == avoid,
            search.running(),
            tried.len() == search.attempts,
            forall|i: int|
                0 <= i < tried.len() ==> PORT_RANGE_START <= #[trigger] tried[i] < PORT_RANGE_END
                    && (avoid == Some(tried[i]) || probe.ensures((tried[i],), false)),
        decreases PROBE_ATTEMPTS - search.attempts,
    {
        let port = search.candidate();
        let free = if search.worth_probing(port) {
            probe(port)
        } else {
            false
        };
        proof {
            tried = tried.push(port);
        }
        match search.record(port, free) {
            ProbeVerdict::Found(p) => {
                return Some(p);
            },
            ProbeVerdict::Unavailable => {
                assert(tried.len() == PROBE_ATTEMPTS);
                return None;
            },
            ProbeVerdict::Retry => {},
        }
    }
}

} // verus!
