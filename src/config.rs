use vstd::prelude::*;

verus! {

/// The port that clients connect to; it never changes.
pub const PUBLIC_PORT: u16 = 8000;

/// First port that a backend may be given.
pub const PORT_RANGE_START: u16 = 8001;

/// One past the last port that a backend may be given.
pub const PORT_RANGE_END: u16 = 9000;

/// How many candidate ports one search probes before giving up.
pub const PROBE_ATTEMPTS: u32 = 10;

/// Seconds between two looks at the source revision.
pub const POLL_INTERVAL_SECS: u64 = 60;

/// Seconds that connections of a retired forwarder get to finish.
pub const DRAIN_GRACE_SECS: u64 = 5;

} // verus!
