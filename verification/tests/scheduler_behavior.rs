use jobserver_copier::classify::classify_failure;
use jobserver_copier::classify::needs_host_key_check;
use jobserver_copier::classify::FailureClass;
use jobserver_copier::request::CopierThreadResult;
use jobserver_copier::request::CopyJobInfo;
use jobserver_copier::request::MAX_CONCURRENCY;
use jobserver_copier::request::RETRIES;
use jobserver_copier::scheduler::copy;
use jobserver_copier::scheduler::CopierThreadState;

fn job(jid: u64, attempt: usize) -> CopyJobInfo {
    CopyJobInfo {
        jid,
        machine: String::from("remote:22"),
        from: String::from("/results/"),
        to: String::from("/srv/results"),
        attempt,
    }
}

#[test]
fn first_attempt_success_records_succeeded_and_no_retry() {
    let mut st = CopierThreadState::new();
    copy(&mut st.incoming, job(1, 1));
    assert_eq!(st.outcome_of(1), None);

    let (req, killed) = st.begin_launch().expect("capacity and a pending request");
    assert_eq!(req.jid, 1);
    assert_eq!(req.attempt, 1);
    assert!(!killed);
    st.launch_succeeded(req, 0);
    assert!(st.is_running(1));

    // The transfer exits 0.
    st.on_exit_success(1);
    assert_eq!(st.outcome_of(1), Some(CopierThreadResult::Success));
    assert!(!st.is_running(1));
    assert_eq!(st.incoming.len(), 0);
    assert_eq!(st.num_running(), 0);
}

#[test]
fn unknown_host_key_is_terminal_and_never_retried() {
    let mut st = CopierThreadState::new();
    copy(&mut st.incoming, job(2, 1));
    let (req, _) = st.begin_launch().unwrap();
    st.launch_succeeded(req, 0);

    // The transfer exits 255; the host-key lookup exits 1 ("not found").
    assert!(needs_host_key_check(Some(255)));
    st.on_exit_failure(2, Some(255), Some(1));

    assert_eq!(st.outcome_of(2), Some(CopierThreadResult::SshUnknownHostKey));
    assert!(!st.is_running(2));
    // No re-enqueue, although the retry budget was not exhausted.
    assert_eq!(st.incoming.len(), 0);
}

#[test]
fn ssh_error_with_a_known_host_is_retried() {
    let mut st = CopierThreadState::new();
    copy(&mut st.incoming, job(6, 1));
    let (req, _) = st.begin_launch().unwrap();
    st.launch_succeeded(req, 0);

    // The transfer exits 255 but the host-key lookup finds a fingerprint.
    st.on_exit_failure(6, Some(255), Some(0));
    assert_eq!(st.outcome_of(6), None);
    assert_eq!(st.incoming.len(), 1);
    assert_eq!(st.incoming[0].attempt, 2);
}

#[test]
fn always_failing_transfer_runs_exactly_retries_attempts() {
    let mut st = CopierThreadState::new();
    copy(&mut st.incoming, job(3, 1));

    let mut attempts_seen: Vec<usize> = vec![];
    while let Some((req, killed)) = st.begin_launch() {
        assert!(!killed);
        attempts_seen.push(req.attempt);
        let jid = req.jid;
        st.launch_succeeded(req, 0);
        // Every attempt exits with a generic non-zero, non-255 code.
        assert!(!needs_host_key_check(Some(1)));
        let class = classify_failure(Some(1), None);
        assert_eq!(class, FailureClass::Transient);
        st.on_transfer_failed(jid, class);
    }

    assert_eq!(attempts_seen, vec![1, 2, 3]);
    assert_eq!(attempts_seen.len(), RETRIES);
    assert_eq!(st.outcome_of(3), Some(CopierThreadResult::OtherFailure));
    assert!(!st.is_running(3));
    assert_eq!(st.incoming.len(), 0);
}

#[test]
fn poll_error_goes_through_the_retry_policy() {
    let mut st = CopierThreadState::new();
    copy(&mut st.incoming, job(4, 1));
    let (req, _) = st.begin_launch().unwrap();
    st.launch_succeeded(req, 0);

    // The process's exit status could not be determined.
    st.on_transfer_failed(4, FailureClass::Transient);
    assert!(!st.is_running(4));
    assert_eq!(st.outcome_of(4), None);
    assert_eq!(st.incoming.len(), 1);
    assert_eq!(st.incoming[0].jid, 4);
    assert_eq!(st.incoming[0].attempt, 2);
}

#[test]
fn concurrency_budget_caps_launches_not_arrivals() {
    let mut st = CopierThreadState::new();
    copy(&mut st.incoming, job(10, 1));
    copy(&mut st.incoming, job(11, 1));
    copy(&mut st.incoming, job(12, 1));
    assert_eq!(st.incoming.len(), 3);

    let (a, _) = st.begin_launch().unwrap();
    st.launch_succeeded(a, 0);
    let (b, _) = st.begin_launch().unwrap();
    st.launch_succeeded(b, 0);
    assert_eq!(st.num_running(), MAX_CONCURRENCY);

    // The third request stays queued while the budget is used up.
    assert!(st.begin_launch().is_none());
    assert_eq!(st.incoming.len(), 1);
    assert_eq!(st.incoming[0].jid, 12);

    // A slot frees up; the queued request is dequeued in FIFO order.
    st.on_exit_success(10);
    let (c, killed) = st.begin_launch().unwrap();
    assert_eq!(c.jid, 12);
    assert!(!killed);
}

#[test]
fn empty_queue_launches_nothing() {
    let mut st = CopierThreadState::new();
    assert!(st.begin_launch().is_none());
    assert_eq!(st.num_running(), 0);
}

#[test]
fn supersede_kills_old_and_starts_with_the_new_attempt_number() {
    let mut st = CopierThreadState::new();
    copy(&mut st.incoming, job(7, 2));
    let (old_req, killed) = st.begin_launch().unwrap();
    assert!(!killed);
    st.launch_succeeded(old_req, 0);
    assert_eq!(st.running_attempt(7), Some(2));

    // A new request for the same job id arrives while it is running.
    copy(&mut st.incoming, job(7, 1));
    let (new_req, killed) = st.begin_launch().unwrap();
    assert!(killed, "the running transfer must be killed and replaced");
    assert!(!st.is_running(7));
    st.launch_succeeded(new_req, 5);
    // The kill itself does not increment the attempt counter.
    assert_eq!(st.running_attempt(7), Some(1));
    assert_eq!(st.num_running(), 1);
}

#[test]
fn launch_failure_reenqueues_the_request_unchanged() {
    let mut st = CopierThreadState::new();
    copy(&mut st.incoming, job(8, 1));
    let (req, _) = st.begin_launch().unwrap();
    st.launch_failed(req);

    assert_eq!(st.num_running(), 0);
    assert_eq!(st.incoming.len(), 1);
    assert_eq!(st.incoming[0].jid, 8);
    // No transfer attempt happened: the attempt counter is not incremented.
    assert_eq!(st.incoming[0].attempt, 1);
    assert_eq!(st.outcome_of(8), None);

    // The request is simply tried again later.
    let (req, killed) = st.begin_launch().unwrap();
    assert_eq!(req.jid, 8);
    assert_eq!(req.attempt, 1);
    assert!(!killed);
}

#[test]
fn transfer_under_the_timeout_stays_running() {
    let mut st = CopierThreadState::new();
    copy(&mut st.incoming, job(9, 1));
    let (req, _) = st.begin_launch().unwrap();
    st.launch_succeeded(req, 100);

    let timed_out = st.on_still_running(9, 100 + 3599);
    assert!(!timed_out);
    assert!(st.is_running(9));
    assert_eq!(st.running_attempt(9), Some(1));
    assert_eq!(st.incoming.len(), 0);
}

#[test]
fn transfer_past_the_timeout_is_retried_like_an_exited_failure() {
    let mut st = CopierThreadState::new();
    copy(&mut st.incoming, job(9, 1));
    let (req, _) = st.begin_launch().unwrap();
    st.launch_succeeded(req, 100);

    let timed_out = st.on_still_running(9, 100 + 3600);
    assert!(timed_out);
    assert!(!st.is_running(9));
    assert_eq!(st.outcome_of(9), None);
    assert_eq!(st.incoming.len(), 1);
    assert_eq!(st.incoming[0].jid, 9);
    assert_eq!(st.incoming[0].attempt, 2);
}

#[test]
fn transfer_past_the_timeout_with_exhausted_budget_fails_terminally() {
    let mut st = CopierThreadState::new();
    copy(&mut st.incoming, job(9, RETRIES));
    let (req, _) = st.begin_launch().unwrap();
    st.launch_succeeded(req, 0);

    let timed_out = st.on_still_running(9, 3600);
    assert!(timed_out);
    assert!(!st.is_running(9));
    assert_eq!(st.outcome_of(9), Some(CopierThreadResult::OtherFailure));
    assert_eq!(st.incoming.len(), 0);
}

#[test]
fn resubmission_after_a_terminal_outcome_can_overwrite_it() {
    let mut st = CopierThreadState::new();
    copy(&mut st.incoming, job(5, RETRIES));
    let (req, _) = st.begin_launch().unwrap();
    st.launch_succeeded(req, 0);
    st.on_transfer_failed(5, FailureClass::Transient);
    assert_eq!(st.outcome_of(5), Some(CopierThreadResult::OtherFailure));

    // The collaborator resubmits the job; a fresh cycle records anew.
    copy(&mut st.incoming, job(5, 1));
    let (req, killed) = st.begin_launch().unwrap();
    assert!(!killed);
    st.launch_succeeded(req, 0);
    st.on_exit_success(5);
    assert_eq!(st.outcome_of(5), Some(CopierThreadResult::Success));
}
