//! Copy requests, retry/concurrency constants, and final outcomes.

use vstd::prelude::*;

verus! {

/// Wall-clock timeout on one copy attempt, in minutes.
pub const RSYNC_TIMEOUT: u64 = 60;

/// I/O idle timeout handed to the transfer tool, in seconds.
pub const RSYNC_IO_TIMEOUT: u64 = 60;

/// The number of attempts to make before giving up on a job.
pub const RETRIES: usize = 3;

/// The max number of concurrently running copy jobs.
pub const MAX_CONCURRENCY: usize = 2;

/// A request to copy the results of job `jid` from `machine` back to the
/// central host. `attempt` starts at 1 and is incremented only when the
/// scheduler re-enqueues the request after a transient failure.
#[derive(Clone, Debug)]
pub struct CopyJobInfo {
    pub jid: u64,
    pub machine: String,
    pub from: String,
    pub to: String,
    pub attempt: usize,
}

/// Final outcome of copying the results of one job.
#[derive(Clone, Copy, Debug, PartialEq, Eq, Structural)]
pub enum CopierThreadResult {
    Success,
    SshUnknownHostKey,
    OtherFailure,
}

} // verus!
