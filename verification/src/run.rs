//! The server's lifecycle policy: how long shutdown waits for a run to finish cancelling, and
//! how often the history retention policy is re-applied while the server runs.

use vstd::prelude::*;

verus! {

/// How long graceful shutdown waits, after in-flight HTTP connections have drained, for an
/// active tune run to finish cancelling (its restore included), in seconds.
pub const SHUTDOWN_RUN_CANCEL_TIMEOUT_SECS: u64 = 35;

/// How often the history retention policy is re-applied while the server runs, in seconds:
/// once a day, so a run outlives its cutoff by at most one interval.
pub const RETENTION_SWEEP_INTERVAL_SECS: u64 = 24 * 60 * 60;

} // verus!
