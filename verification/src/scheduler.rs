//! The copier scheduler: FIFO intake under a concurrency budget, per-tick
//! polling of running transfers, retry-or-terminal handling of failures, and
//! an outcome table written once per completed job.
//!
//! The scheduler itself never touches a process, a clock, an environment
//! variable or a file: the surrounding process loop launches, polls and
//! kills the external transfer tool and hands plain events (launch results,
//! exit codes, the current time in seconds) into the functions here, which
//! make every decision and carry all of the state.

use std::collections::HashMap;
use std::collections::VecDeque;

use vstd::prelude::*;

use crate::classify::FailureClass;
use crate::request::CopierThreadResult;
use crate::request::CopyJobInfo;
use crate::request::MAX_CONCURRENCY;
use crate::request::RETRIES;
use crate::request::RSYNC_TIMEOUT;

verus! {

broadcast use vstd::std_specs::hash::group_hash_axioms;

/// FIFO queue of copy requests that have not been started yet.
pub type CopierThreadQueue = VecDeque<CopyJobInfo>;

/// Info about a single running copy job. `start_time` is the time the
/// transfer process was launched, in seconds of a monotonic clock supplied
/// by the caller.
#[derive(Debug)]
pub struct ResultsInfo {
    /// The job we are copying results for.
    pub jid: u64,
    /// The machine to copy results from.
    pub machine: String,
    /// The path on `machine` to copy from.
    pub from: String,
    /// The path on the host to copy to.
    pub to: String,
    /// The time when the transfer process was started, in seconds.
    pub start_time: u64,
    /// The current attempt number.
    pub attempt: usize,
}

/// Internal state of the copier thread: the not-yet-started requests, the
/// running transfers, and the outcome table read by external collaborators.
#[derive(Debug)]
pub struct CopierThreadState {
    /// Copy tasks that have not been started yet.
    pub incoming: CopierThreadQueue,
    /// Copy tasks that are currently running.
    pub ongoing: Vec<ResultsInfo>,
    /// Outcome table: used to notify the worker thread of completion.
    pub copying_flags: HashMap<u64, CopierThreadResult>,
}

/// Whether some entry of `s` is a running transfer for job `jid`.
pub open spec fn has_running_in(s: Seq<ResultsInfo>, jid: u64) -> bool {
    exists|i: int| 0 <= i < s.len() && #[trigger] s[i].jid == jid
}

/// The index in `s` of the running transfer for job `jid` (unique when the
/// job ids of `s` are distinct).
pub open spec fn running_idx_in(s: Seq<ResultsInfo>, jid: u64) -> int {
    choose|i: int| 0 <= i < s.len() && #[trigger] s[i].jid == jid
}

/// The request that a transient failure of `e` re-enqueues: the same job,
/// with the attempt counter incremented by exactly one.
pub open spec fn spec_retry_request(e: ResultsInfo) -> CopyJobInfo {
    CopyJobInfo {
        jid: e.jid,
        machine: e.machine,
        from: e.from,
        to: e.to,
        attempt: (e.attempt + 1) as usize,
    }
}

/// The running entry created when `req` is launched at time `now`. The
/// attempt number is taken from the request as-is.
pub open spec fn spec_started(req: CopyJobInfo, now: u64) -> ResultsInfo {
    ResultsInfo {
        jid: req.jid,
        machine: req.machine,
        from: req.from,
        to: req.to,
        start_time: now,
        attempt: req.attempt,
    }
}

impl CopierThreadState {
    /// Whether a transfer for job `jid` is currently running.
    pub open spec fn spec_has_running(self, jid: u64) -> bool {
        has_running_in(self.ongoing@, jid)
    }

    /// The index in `ongoing` of the running transfer for job `jid`.
    pub open spec fn spec_running_idx(self, jid: u64) -> int {
        running_idx_in(self.ongoing@, jid)
    }

    /// For every job id, at most one running transfer exists: the job ids of
    /// the running entries are pairwise distinct.
    pub open spec fn running_jids_unique(self) -> bool {
        forall|i: int, j: int|
            0 <= i < j < self.ongoing@.len() ==> self.ongoing@[i].jid != self.ongoing@[j].jid
    }

    /// The number of running transfers never exceeds the concurrency budget.
    pub open spec fn within_budget(self) -> bool {
        self.ongoing@.len() <= MAX_CONCURRENCY
    }

    /// Well-formedness: established by `new` and preserved by every
    /// scheduler operation.
    pub open spec fn wf(self) -> bool {
        self.running_jids_unique() && self.within_budget()
    }

    /// The retry-or-terminal policy applied to the running transfer for job
    /// `jid` after a transient failure (a non-success exit that is not an
    /// unknown host key, a poll error, or a timeout): the entry leaves
    /// `ongoing`; if its attempt counter is below the retry budget the same
    /// request is re-enqueued with the counter incremented by one and no
    /// outcome is recorded, otherwise the terminal outcome `OtherFailure` is
    /// recorded and nothing is re-enqueued.
    pub open spec fn transient_step(pre: Self, post: Self, jid: u64) -> bool {
        let i = pre.spec_running_idx(jid);
        let e = pre.ongoing@[i];
        &&& post.ongoing@ == pre.ongoing@.remove(i)
        &&& if e.attempt < RETRIES {
            &&& post.incoming@ == pre.incoming@.push(spec_retry_request(e))
            &&& post.copying_flags@ == pre.copying_flags@
        } else {
            &&& post.incoming@ == pre.incoming@
            &&& post.copying_flags@ == pre.copying_flags@.insert(
                jid,
                CopierThreadResult::OtherFailure,
            )
        }
    }

    /// An empty scheduler: nothing pending, nothing running, no outcomes.
    pub fn new() -> (s: Self)
        ensures
            s.wf(),
            s.incoming@ == Seq::<CopyJobInfo>::empty(),
            s.ongoing@ == Seq::<ResultsInfo>::empty(),
            s.copying_flags@ == Map::<u64, CopierThreadResult>::empty(),
    {
        CopierThreadState {
            incoming: VecDeque::new(),
            ongoing: Vec::new(),
            copying_flags: HashMap::new(),
        }
    }

    /// One intake step of a tick. When there is capacity under the
    /// concurrency budget and a request is pending, dequeues the front
    /// request; if a transfer for the same job id is already running, that
    /// entry leaves `ongoing` and the caller must kill its process (reported
    /// by the returned flag). The caller then tries to launch the returned
    /// request and reports back through `launch_succeeded` or
    /// `launch_failed`.
    pub fn begin_launch(&mut self) -> (r: Option<(CopyJobInfo, bool)>)
        requires
            old(self).wf(),
        ensures
            final(self).wf(),
            final(self).copying_flags@ == old(self).copying_flags@,
            match r {
                None => {
                    &&& final(self).incoming@ == old(self).incoming@
                    &&& final(self).ongoing@ == old(self).ongoing@
                    &&& (old(self).ongoing@.len() >= MAX_CONCURRENCY || old(self).incoming@.len()
                        == 0)
                },
                Some((req, killed)) => {
                    &&& old(self).ongoing@.len() < MAX_CONCURRENCY
                    &&& old(self).incoming@.len() > 0
                    &&& req == old(self).incoming@[0]
                    &&& final(self).incoming@ == old(self).incoming@.subrange(
                        1,
                        old(self).incoming@.len() as int,
                    )
                    &&& killed == old(self).spec_has_running(req.jid)
                    &&& (if killed {
                        final(self).ongoing@ == old(self).ongoing@.remove(
                            old(self).spec_running_idx(req.jid),
                        )
                    } else {
                        final(self).ongoing@ == old(self).ongoing@
                    })
                    &&& !final(self).spec_has_running(req.jid)
                    &&& final(self).ongoing@.len() < MAX_CONCURRENCY
                },
            },
    {
        if self.ongoing.len() >= MAX_CONCURRENCY {
            return None;
        }
        match self.incoming.pop_front() {
            None => None,
            Some(req) => {
                let killed: bool = match self.find_running_idx(req.jid) {
                    Some(i) => {
                        proof {
                            lemma_running_idx_is(self.ongoing@, req.jid, i as int);
                            lemma_remove_running(self.ongoing@, i as int, req.jid);
                        }
                        self.ongoing.remove(i);
                        true
                    },
                    None => false,
                };
                Some((req, killed))
            },
        }
    }

    /// The request handed out by `begin_launch` was launched at time `now`:
    /// it becomes a running transfer, with the attempt number taken from the
    /// request as-is (a launch after a kill-on-supersede does not increment
    /// it).
    pub fn launch_succeeded(&mut self, req: CopyJobInfo, now: u64)
        requires
            old(self).wf(),
            !old(self).spec_has_running(req.jid),
            old(self).ongoing@.len() < MAX_CONCURRENCY,
        ensures
            final(self).wf(),
            final(self).ongoing@ == old(self).ongoing@.push(spec_started(req, now)),
            final(self).spec_has_running(req.jid),
            final(self).incoming@ == old(self).incoming@,
            final(self).copying_flags@ == old(self).copying_flags@,
    {
        let entry = ResultsInfo {
            jid: req.jid,
            machine: req.machine,
            from: req.from,
            to: req.to,
            start_time: now,
            attempt: req.attempt,
        };
        self.ongoing.push(entry);
        proof {
            let s = self.ongoing@;
            assert forall|p: int, q: int| 0 <= p < q < s.len() implies s[p].jid != s[q].jid by {
                if q == s.len() - 1 {
                    assert(old(self).ongoing@[p].jid != req.jid);
                }
            }
            assert(s[s.len() - 1].jid == req.jid);
        }
    }

    /// The request handed out by `begin_launch` could not be launched (an
    /// infrastructure hiccup, not a transfer failure): it is re-enqueued
    /// unchanged, with the attempt counter not incremented, and no outcome
    /// is recorded.
    pub fn launch_failed(&mut self, req: CopyJobInfo)
        requires
            old(self).wf(),
        ensures
            final(self).wf(),
            final(self).incoming@ == old(self).incoming@.push(req),
            final(self).ongoing@ == old(self).ongoing@,
            final(self).copying_flags@ == old(self).copying_flags@,
    {
        self.incoming.push_back(req);
    }

    /// The running transfer for `jid` exited successfully: the terminal
    /// outcome `Success` is recorded, the entry leaves `ongoing`, and
    /// nothing is re-enqueued (a first-attempt success therefore produces no
    /// retry request).
    pub fn on_exit_success(&mut self, jid: u64)
        requires
            old(self).wf(),
            old(self).spec_has_running(jid),
        ensures
            final(self).wf(),
            final(self).ongoing@ == old(self).ongoing@.remove(old(self).spec_running_idx(jid)),
            !final(self).spec_has_running(jid),
            final(self).incoming@ == old(self).incoming@,
            final(self).copying_flags@ == old(self).copying_flags@.insert(
                jid,
                CopierThreadResult::Success,
            ),
    {
        match self.find_running_idx(jid) {
            Some(i) => {
                proof {
                    lemma_running_idx_is(self.ongoing@, jid, i as int);
                    lemma_remove_running(self.ongoing@, i as int, jid);
                }
                self.ongoing.remove(i);
                self.copying_flags.insert(jid, CopierThreadResult::Success);
            },
            None => {
                proof {
                    assert(false);
                }
            },
        }
    }

    /// Applies the retry-or-terminal policy to the running entry at `i`.
    fn apply_transient(&mut self, i: usize)
        requires
            old(self).wf(),
            i < old(self).ongoing@.len(),
        ensures
            final(self).wf(),
            Self::transient_step(*old(self), *final(self), old(self).ongoing@[i as int].jid),
            final(self).ongoing@ == old(self).ongoing@.remove(i as int),
            !final(self).spec_has_running(old(self).ongoing@[i as int].jid),
    {
        proof {
            lemma_running_idx_is(self.ongoing@, self.ongoing@[i as int].jid, i as int);
            lemma_remove_running(self.ongoing@, i as int, self.ongoing@[i as int].jid);
        }
        let e = self.ongoing.remove(i);
        if e.attempt < RETRIES {
            self.incoming.push_back(
                CopyJobInfo {
                    jid: e.jid,
                    machine: e.machine,
                    from: e.from,
                    to: e.to,
                    attempt: e.attempt + 1,
                },
            );
        } else {
            self.copying_flags.insert(e.jid, CopierThreadResult::OtherFailure);
        }
    }

    /// The running transfer for `jid` failed (non-success exit or poll
    /// error) and the classifier has spoken. An unknown host key is
    /// terminal on its first occurrence, whatever the remaining retry
    /// budget, and is never re-enqueued; a transient failure goes through
    /// the retry-or-terminal policy of `transient_step`.
    pub fn on_transfer_failed(&mut self, jid: u64, class: FailureClass)
        requires
            old(self).wf(),
            old(self).spec_has_running(jid),
        ensures
            final(self).wf(),
            final(self).ongoing@ == old(self).ongoing@.remove(old(self).spec_running_idx(jid)),
            !final(self).spec_has_running(jid),
            class == FailureClass::UnknownHostKey ==> {
                &&& final(self).copying_flags@ == old(self).copying_flags@.insert(
                    jid,
                    CopierThreadResult::SshUnknownHostKey,
                )
                &&& final(self).incoming@ == old(self).incoming@
            },
            class == FailureClass::Transient ==> Self::transient_step(*old(self), *final(self), jid),
    {
        match self.find_running_idx(jid) {
            Some(i) => {
                proof {
                    lemma_running_idx_is(self.ongoing@, jid, i as int);
                    lemma_remove_running(self.ongoing@, i as int, jid);
                }
                match class {
                    FailureClass::UnknownHostKey => {
                        self.ongoing.remove(i);
                        self.copying_flags.insert(jid, CopierThreadResult::SshUnknownHostKey);
                    },
                    FailureClass::Transient => {
                        self.apply_transient(i);
                    },
                }
            },
            None => {
                proof {
                    assert(false);
                }
            },
        }
    }

    /// The running transfer for `jid` exited without success (or its exit
    /// status could not be determined: both codes `None`): classifies the
    /// failure and applies the outcome. When the transfer exited with the
    /// reserved secure-shell error code and the host-key lookup exited with
    /// the "not found" code, the terminal outcome `SshUnknownHostKey` is
    /// recorded on this first occurrence, whatever the remaining retry
    /// budget, and the request is never re-enqueued. Every other combination
    /// goes through the retry-or-terminal policy of `transient_step`.
    pub fn on_exit_failure(
        &mut self,
        jid: u64,
        exit_code: Option<i32>,
        host_key_lookup: Option<i32>,
    )
        requires
            old(self).wf(),
            old(self).spec_has_running(jid),
        ensures
            final(self).wf(),
            final(self).ongoing@ == old(self).ongoing@.remove(old(self).spec_running_idx(jid)),
            !final(self).spec_has_running(jid),
            crate::classify::spec_classify(exit_code, host_key_lookup)
                == FailureClass::UnknownHostKey ==> {
                &&& final(self).copying_flags@ == old(self).copying_flags@.insert(
                    jid,
                    CopierThreadResult::SshUnknownHostKey,
                )
                &&& final(self).incoming@ == old(self).incoming@
            },
            crate::classify::spec_classify(exit_code, host_key_lookup) == FailureClass::Transient
                ==> Self::transient_step(*old(self), *final(self), jid),
    {
        let class = crate::classify::classify_failure(exit_code, host_key_lookup);
        self.on_transfer_failed(jid, class);
    }

    /// The running transfer for `jid` has not exited yet. If its elapsed
    /// wall-clock time has reached the fixed timeout it is reclassified
    /// through exactly the retry-or-terminal policy of `transient_step` (the
    /// same policy an exited failure goes through); the process itself is
    /// not killed by this reclassification. Otherwise nothing changes and
    /// the transfer stays running for the next tick.
    pub fn on_still_running(&mut self, jid: u64, now: u64) -> (timed_out: bool)
        requires
            old(self).wf(),
            old(self).spec_has_running(jid),
            old(self).ongoing@[old(self).spec_running_idx(jid)].start_time <= now,
        ensures
            final(self).wf(),
            timed_out == (now - old(self).ongoing@[old(self).spec_running_idx(jid)].start_time
                >= RSYNC_TIMEOUT * 60),
            timed_out ==> Self::transient_step(*old(self), *final(self), jid),
            timed_out ==> !final(self).spec_has_running(jid),
            !timed_out ==> *final(self) == *old(self),
    {
        match self.find_running_idx(jid) {
            Some(i) => {
                proof {
                    lemma_running_idx_is(self.ongoing@, jid, i as int);
                }
                let start_time = self.ongoing[i].start_time;
                let timed_out = now - start_time >= RSYNC_TIMEOUT * 60;
                if timed_out {
                    self.apply_transient(i);
                }
                timed_out
            },
            None => {
                proof {
                    assert(false);
                }
                false
            },
        }
    }

    /// Finds the position in `ongoing` of the running transfer for `jid`.
    fn find_running_idx(&self, jid: u64) -> (r: Option<usize>)
        ensures
            match r {
                Some(i) => i < self.ongoing@.len() && self.ongoing@[i as int].jid == jid,
                None => !self.spec_has_running(jid),
            },
    {
        let mut i: usize = 0;
        while i < self.ongoing.len()
            invariant
                i <= self.ongoing@.len(),
                forall|k: int| 0 <= k < i ==> self.ongoing@[k].jid != jid,
            decreases self.ongoing@.len() - i,
        {
            if self.ongoing[i].jid == jid {
                return Some(i);
            }
            i = i + 1;
        }
        None
    }

    /// Whether a transfer for job `jid` is currently running.
    pub fn is_running(&self, jid: u64) -> (r: bool)
        ensures
            r == self.spec_has_running(jid),
    {
        self.find_running_idx(jid).is_some()
    }

    /// The number of currently running transfers.
    pub fn num_running(&self) -> (r: usize)
        ensures
            r == self.ongoing@.len(),
    {
        self.ongoing.len()
    }

    /// The job ids of the currently running transfers, in the order their
    /// entries are held.
    pub fn running_jids(&self) -> (r: Vec<u64>)
        ensures
            r@.len() == self.ongoing@.len(),
            forall|i: int| 0 <= i < r@.len() ==> r@[i] == self.ongoing@[i].jid,
    {
        let mut r: Vec<u64> = Vec::new();
        let mut i: usize = 0;
        while i < self.ongoing.len()
            invariant
                i <= self.ongoing@.len(),
                r@.len() == i,
                forall|k: int| 0 <= k < i ==> r@[k] == self.ongoing@[k].jid,
            decreases self.ongoing@.len() - i,
        {
            r.push(self.ongoing[i].jid);
            i = i + 1;
        }
        r
    }

    /// The attempt number of the running transfer for `jid`, if one is
    /// running.
    pub fn running_attempt(&self, jid: u64) -> (r: Option<usize>)
        requires
            self.wf(),
        ensures
            match r {
                Some(a) => self.spec_has_running(jid) && a == self.ongoing@[self.spec_running_idx(
                    jid,
                )].attempt,
                None => !self.spec_has_running(jid),
            },
    {
        match self.find_running_idx(jid) {
            Some(i) => {
                proof {
                    lemma_running_idx_is(self.ongoing@, jid, i as int);
                }
                Some(self.ongoing[i].attempt)
            },
            None => None,
        }
    }

    /// The machine of the running transfer for `jid`, if one is running
    /// (used for the host-key lookup when a transfer fails).
    pub fn running_machine(&self, jid: u64) -> (r: Option<String>)
        requires
            self.wf(),
        ensures
            match r {
                Some(m) => self.spec_has_running(jid) && m@ == self.ongoing@[self.spec_running_idx(
                    jid,
                )].machine@,
                None => !self.spec_has_running(jid),
            },
    {
        match self.find_running_idx(jid) {
            Some(i) => {
                proof {
                    lemma_running_idx_is(self.ongoing@, jid, i as int);
                }
                Some(self.ongoing[i].machine.clone())
            },
            None => None,
        }
    }

    /// The recorded outcome for job `jid`: absent while the job has not
    /// finished (or was never submitted), terminal once present.
    pub fn outcome_of(&self, jid: u64) -> (r: Option<CopierThreadResult>)
        ensures
            r == (if self.copying_flags@.contains_key(jid) {
                Some(self.copying_flags@[jid])
            } else {
                None::<CopierThreadResult>
            }),
    {
        match self.copying_flags.get(&jid) {
            Some(v) => Some(*v),
            None => None,
        }
    }
}

/// Inform the copier thread to copy the given results from the given machine
/// to the given location: appends to the tail of the intake queue, never
/// fails, never drops a request. Any pre-existing running transfer for the
/// same job id is killed only later, when this request is dequeued.
pub fn copy(queue: &mut CopierThreadQueue, task: CopyJobInfo)
    ensures
        final(queue)@ == old(queue)@.push(task),
{
    queue.push_back(task);
}

/// The attempt numbers a job runs through, starting at attempt `a`, when
/// every attempt fails transiently: each transient failure below the retry
/// budget re-enqueues the next attempt number, and the attempt at the budget
/// is the last.
pub open spec fn spec_attempt_trace(a: usize) -> Seq<usize>
    decreases RETRIES - a,
{
    if a < RETRIES {
        seq![a] + spec_attempt_trace((a + 1) as usize)
    } else {
        seq![a]
    }
}

/// The retry budget, counted: starting from attempt number `a` within the
/// budget, `RETRIES - a + 1` attempts run in all when every one fails
/// transiently, with consecutive attempt numbers. In particular a request
/// submitted with attempt number 1 is attempted exactly `RETRIES` times —
/// retried exactly `RETRIES - 1` additional times, each retry's attempt
/// number incremented by exactly 1 — before `OtherFailure` is recorded.
pub proof fn lemma_attempt_trace(a: usize)
    requires
        1 <= a <= RETRIES,
    ensures
        spec_attempt_trace(a).len() == RETRIES - a + 1,
        forall|k: int| 0 <= k < spec_attempt_trace(a).len() ==> spec_attempt_trace(a)[k] == a + k,
    decreases RETRIES - a,
{
    if a < RETRIES {
        lemma_attempt_trace((a + 1) as usize);
    }
}

/// A request submitted with attempt number 1 is attempted exactly `RETRIES`
/// times in all when every attempt fails transiently: its attempt trace runs
/// 1, 2, ..., `RETRIES`.
pub proof fn lemma_first_attempt_trace()
    ensures
        spec_attempt_trace(1).len() == RETRIES,
        forall|k: int| 0 <= k < spec_attempt_trace(1).len() ==> spec_attempt_trace(1)[k] == 1 + k,
{
    lemma_attempt_trace(1);
}

/// One transient failure consumes exactly one entry of the attempt trace: at
/// attempt numbers below the budget the same request is re-enqueued with the
/// counter incremented by exactly one (the next entry of the trace) and no
/// outcome is recorded; at or above the budget the terminal outcome
/// `OtherFailure` is recorded for the job and nothing is re-enqueued.
pub proof fn lemma_retry_budget_step(pre: CopierThreadState, post: CopierThreadState, jid: u64)
    requires
        pre.wf(),
        pre.spec_has_running(jid),
        CopierThreadState::transient_step(pre, post, jid),
    ensures
        ({
            let e = pre.ongoing@[pre.spec_running_idx(jid)];
            &&& (e.attempt < RETRIES ==> {
                &&& post.incoming@ == pre.incoming@.push(spec_retry_request(e))
                &&& post.incoming@.last().jid == jid
                &&& post.incoming@.last().attempt == e.attempt + 1
                &&& spec_attempt_trace(e.attempt) == seq![e.attempt] + spec_attempt_trace(
                    post.incoming@.last().attempt,
                )
                &&& post.copying_flags@ == pre.copying_flags@
            })
            &&& (e.attempt >= RETRIES ==> {
                &&& post.copying_flags@ == pre.copying_flags@.insert(
                    jid,
                    CopierThreadResult::OtherFailure,
                )
                &&& post.incoming@ == pre.incoming@
            })
        }),
{
    let i = pre.spec_running_idx(jid);
    assert(0 <= i < pre.ongoing@.len() && pre.ongoing@[i].jid == jid);
}

/// For every job id, at most one running transfer exists: two running
/// entries that carry the same job id are the same entry.
pub proof fn lemma_at_most_one_running(s: CopierThreadState, i: int, j: int)
    requires
        s.wf(),
        0 <= i < s.ongoing@.len(),
        0 <= j < s.ongoing@.len(),
        s.ongoing@[i].jid == s.ongoing@[j].jid,
    ensures
        i == j,
{
}

/// The number of running transfers never exceeds the concurrency budget.
pub proof fn lemma_running_within_budget(s: CopierThreadState)
    requires
        s.wf(),
    ensures
        s.ongoing@.len() <= MAX_CONCURRENCY,
{
}

/// In a sequence of running entries with pairwise-distinct job ids, any
/// index holding `jid` is the one `running_idx_in` denotes.
proof fn lemma_running_idx_is(s: Seq<ResultsInfo>, jid: u64, i: int)
    requires
        forall|p: int, q: int| 0 <= p < q < s.len() ==> s[p].jid != s[q].jid,
        0 <= i < s.len(),
        s[i].jid == jid,
    ensures
        has_running_in(s, jid),
        running_idx_in(s, jid) == i,
{
    assert(has_running_in(s, jid));
    let c = running_idx_in(s, jid);
    assert(0 <= c < s.len() && s[c].jid == jid);
    if c < i {
        assert(s[c].jid != s[i].jid);
    } else if i < c {
        assert(s[i].jid != s[c].jid);
    }
}

/// Removing the entry for `jid` from a sequence with pairwise-distinct job
/// ids leaves a sequence with pairwise-distinct job ids and no entry for
/// `jid`.
proof fn lemma_remove_running(s: Seq<ResultsInfo>, i: int, jid: u64)
    requires
        forall|p: int, q: int| 0 <= p < q < s.len() ==> s[p].jid != s[q].jid,
        0 <= i < s.len(),
        s[i].jid == jid,
    ensures
        s.remove(i).len() == s.len() - 1,
        forall|p: int, q: int|
            0 <= p < q < s.remove(i).len() ==> s.remove(i)[p].jid != s.remove(i)[q].jid,
        !has_running_in(s.remove(i), jid),
{
    s.remove_ensures(i);
    let t = s.remove(i);
    assert forall|p: int, q: int| 0 <= p < q < t.len() implies t[p].jid != t[q].jid by {
        assert(t[p] == (if p < i { s[p] } else { s[p + 1] }));
        assert(t[q] == (if q < i { s[q] } else { s[q + 1] }));
    }
    assert forall|k: int| 0 <= k < t.len() implies t[k].jid != jid by {
        assert(t[k] == (if k < i { s[k] } else { s[k + 1] }));
        if k < i {
            assert(s[k].jid != s[i].jid);
        } else {
            assert(s[i].jid != s[k + 1].jid);
        }
    }
}

} // verus!
