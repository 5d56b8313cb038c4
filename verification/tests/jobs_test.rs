use backend::jobs::dead_letter::{
    record_failure, AlertSink, DeadLetter, DeadLetterQueue, FailureRecord, RecordingAlertSink,
};
use backend::jobs::duration::{Duration, MAX_DURATION_NANOS};
use backend::jobs::error::{ErrorKind, JobError};
use backend::jobs::scheduler::{
    reason_text, Job, Outcome, QuarantineReason, RetryPolicy, Scheduler, Step,
};

#[test]
fn job_error_kinds() {
    let r = JobError::retryable("timeout".to_string());
    assert_eq!(r.kind, ErrorKind::Retryable);
    assert!(r.is_retryable());
    assert!(!r.is_terminal());
    let t = JobError::terminal("bad input".to_string());
    assert_eq!(t.kind, ErrorKind::Terminal);
    assert!(t.is_terminal());
    assert!(!t.is_retryable());
    assert_eq!(t.message, "bad input");
}

#[test]
fn job_error_describe() {
    assert_eq!(JobError::retryable("timeout".to_string()).describe(), "retryable job error: timeout");
    assert_eq!(JobError::terminal(String::new()).describe(), "terminal job error: ");
}

#[test]
fn record_failure_copies_attempt_message_and_kind() {
    let r = record_failure(3, &JobError::retryable("flaky".to_string()));
    assert_eq!(r.attempt, 3);
    assert_eq!(r.message, "flaky");
    assert!(r.retryable);
    let t = record_failure(1, &JobError::terminal("poison".to_string()));
    assert!(!t.retryable);
    assert_eq!(t.message, "poison");
}

fn history() -> Vec<FailureRecord> {
    vec![
        record_failure(1, &JobError::retryable("a".to_string())),
        record_failure(2, &JobError::terminal("b".to_string())),
    ]
}

#[test]
fn queue_quarantine_retains_history_and_alerts_once() {
    let mut queue = DeadLetterQueue::new();
    let mut sink = RecordingAlertSink::new();
    assert!(queue.is_empty());
    assert_eq!(queue.len(), 0);
    let d = queue.quarantine("sync", "{\"id\":1}", history(), "terminal error", &mut sink);
    assert_eq!(d.job_name, "sync");
    assert_eq!(d.payload, "{\"id\":1}");
    assert_eq!(d.reason, "terminal error");
    assert_eq!(d.history.len(), 2);
    assert_eq!(d.history[1].attempt, 2);
    assert_eq!(d.history[1].message, "b");
    assert_eq!(queue.len(), 1);
    assert!(!queue.is_empty());
    let entries = queue.entries();
    assert_eq!(entries.len(), 1);
    assert_eq!(entries[0].job_name, "sync");
    assert_eq!(entries[0].history[0].message, "a");
    let alerts = sink.alerts();
    assert_eq!(alerts.len(), 1);
    assert_eq!(alerts[0].reason, "terminal error");
    queue.quarantine("other", "", vec![], "retry ceiling exceeded", &mut sink);
    assert_eq!(queue.len(), 2);
    assert_eq!(queue.entries()[1].job_name, "other");
    assert_eq!(sink.alerts().len(), 2);
}

#[test]
fn recording_sink_records_in_order() {
    let mut sink = RecordingAlertSink::new();
    assert!(sink.alerts().is_empty());
    let d = DeadLetter {
        job_name: "j".to_string(),
        payload: "p".to_string(),
        history: history(),
        reason: "r".to_string(),
    };
    sink.alert(&d);
    sink.alert(&d.clone());
    let alerts = sink.alerts();
    assert_eq!(alerts.len(), 2);
    assert_eq!(alerts[1].history[1].message, "b");
}

#[test]
fn duration_arithmetic() {
    assert_eq!(Duration::from_millis(100).as_nanos(), 100_000_000);
    let d = Duration::new(3, 5);
    assert_eq!(d.as_nanos(), 3_000_000_005);
    assert_eq!(d.as_secs(), 3);
    assert_eq!(d.subsec_nanos(), 5);
    assert_eq!(d.checked_mul(2).map(|p| p.as_nanos()), Some(6_000_000_010));
    let max = Duration::new(u64::MAX, 999_999_999);
    assert_eq!(max.as_nanos(), MAX_DURATION_NANOS);
    assert!(max.checked_mul(2).is_none());
    assert_eq!(max.checked_mul(1), Some(max));
    assert_eq!(Duration::from_millis(1500).times(3).as_nanos(), 4_500_000_000);
}

#[test]
fn default_policy_and_exponential_backoff() {
    let p = RetryPolicy::default();
    assert_eq!(p.max_attempts, 3);
    assert_eq!(p.base_backoff.as_nanos(), 100_000_000);
    assert_eq!(p.backoff(0).as_nanos(), 100_000_000);
    assert_eq!(p.backoff(1).as_nanos(), 100_000_000);
    assert_eq!(p.backoff(2).as_nanos(), 200_000_000);
    assert_eq!(p.backoff(3).as_nanos(), 400_000_000);
    assert_eq!(p.backoff(17).as_nanos(), 100_000_000 * 65_536);
    assert_eq!(p.backoff(u32::MAX).as_nanos(), 100_000_000 * 65_536);
    let huge = RetryPolicy { max_attempts: 5, base_backoff: Duration::new(u64::MAX, 0) };
    assert!(huge.checked_backoff(1).is_some());
    assert!(huge.checked_backoff(2).is_none());
}

#[test]
fn reason_texts() {
    assert_eq!(reason_text(QuarantineReason::TerminalError), "terminal error");
    assert_eq!(reason_text(QuarantineReason::RetryCeilingExceeded), "retry ceiling exceeded");
}

struct ScriptedJob {
    results: Vec<Option<ErrorKind>>,
    runs: std::cell::Cell<usize>,
}

impl Job for ScriptedJob {
    fn name(&self) -> &str {
        "scripted"
    }

    fn payload(&self) -> String {
        "payload".to_string()
    }

    fn run(&self) -> Result<(), JobError> {
        let i = self.runs.get();
        self.runs.set(i + 1);
        match self.results[i] {
            None => Ok(()),
            Some(ErrorKind::Retryable) => Err(JobError::retryable(format!("attempt {}", i + 1))),
            Some(ErrorKind::Terminal) => Err(JobError::terminal(format!("attempt {}", i + 1))),
        }
    }
}

/// Drive a job through the scheduler's steps without waiting, recording
/// the backoffs that would have been waited.
fn drive(
    scheduler: &mut Scheduler<RecordingAlertSink>,
    job: &ScriptedJob,
) -> (Outcome, Vec<u128>) {
    let mut history = Vec::new();
    let mut waits = Vec::new();
    let mut step = scheduler.first_step();
    loop {
        match step {
            Step::Run { attempt } => {
                let r = job.run();
                step = scheduler.after_attempt(attempt, &r, &mut history);
            }
            Step::RetryAfter { backoff, attempt } => {
                waits.push(backoff.as_nanos());
                step = Step::Run { attempt };
            }
            Step::Finish(outcome) => return (outcome, waits),
            Step::Quarantine(reason) => {
                scheduler.quarantine(job.name(), &job.payload(), history, reason);
                return (Outcome::Quarantined, waits);
            }
        }
    }
}

fn scheduler(max_attempts: u32) -> Scheduler<RecordingAlertSink> {
    Scheduler::new(
        RetryPolicy { max_attempts, base_backoff: Duration::from_millis(10) },
        DeadLetterQueue::new(),
        RecordingAlertSink::new(),
    )
}

fn job(results: Vec<Option<ErrorKind>>) -> ScriptedJob {
    ScriptedJob { results, runs: std::cell::Cell::new(0) }
}

#[test]
fn success_after_retries() {
    let mut s = scheduler(3);
    let j = job(vec![Some(ErrorKind::Retryable), Some(ErrorKind::Retryable), None]);
    let (outcome, waits) = drive(&mut s, &j);
    assert_eq!(outcome, Outcome::Succeeded);
    assert_eq!(waits, vec![10_000_000, 20_000_000]);
    assert_eq!(j.runs.get(), 3);
    assert!(s.dead_letters().is_empty());
}

#[test]
fn terminal_error_is_quarantined_immediately() {
    let mut s = scheduler(5);
    let j = job(vec![Some(ErrorKind::Retryable), Some(ErrorKind::Terminal), None]);
    let (outcome, waits) = drive(&mut s, &j);
    assert_eq!(outcome, Outcome::Quarantined);
    assert_eq!(waits, vec![10_000_000]);
    assert_eq!(j.runs.get(), 2);
    let entries = s.dead_letters().entries();
    assert_eq!(entries.len(), 1);
    assert_eq!(entries[0].reason, "terminal error");
    assert_eq!(entries[0].job_name, "scripted");
    assert_eq!(entries[0].payload, "payload");
    assert_eq!(entries[0].history.len(), 2);
    assert_eq!(entries[0].history[0].attempt, 1);
    assert!(entries[0].history[0].retryable);
    assert_eq!(entries[0].history[1].message, "attempt 2");
    assert!(!entries[0].history[1].retryable);
    assert_eq!(s.alerts().alerts().len(), 1);
}

#[test]
fn retry_ceiling_quarantines_with_full_history() {
    let mut s = scheduler(3);
    let j = job(vec![Some(ErrorKind::Retryable); 4]);
    let (outcome, waits) = drive(&mut s, &j);
    assert_eq!(outcome, Outcome::Quarantined);
    assert_eq!(waits, vec![10_000_000, 20_000_000]);
    assert_eq!(j.runs.get(), 3);
    let entries = s.dead_letters().entries();
    assert_eq!(entries[0].reason, "retry ceiling exceeded");
    let attempts: Vec<u32> = entries[0].history.iter().map(|r| r.attempt).collect();
    assert_eq!(attempts, vec![1, 2, 3]);
}

#[test]
fn zero_attempts_quarantines_untried() {
    let mut s = scheduler(0);
    let j = job(vec![None]);
    let (outcome, _) = drive(&mut s, &j);
    assert_eq!(outcome, Outcome::Quarantined);
    assert_eq!(j.runs.get(), 0);
    assert_eq!(s.dead_letters().entries()[0].history.len(), 0);
    assert_eq!(s.dead_letters().entries()[0].reason, "retry ceiling exceeded");
}

#[test]
fn scheduler_accessors() {
    let s = scheduler(4);
    assert_eq!(s.policy().max_attempts, 4);
    assert_eq!(s.first_step(), Step::Run { attempt: 1 });
}

#[test]
fn success_needs_no_backoff_even_when_it_would_overflow() {
    let s = Scheduler::new(
        RetryPolicy { max_attempts: 5, base_backoff: Duration::new(u64::MAX, 0) },
        DeadLetterQueue::new(),
        RecordingAlertSink::new(),
    );
    let mut history = vec![record_failure(1, &JobError::retryable("a".to_string()))];
    assert_eq!(s.after_attempt(2, &Ok(()), &mut history), Step::Finish(Outcome::Succeeded));
    assert_eq!(history.len(), 1);
    assert_eq!(
        s.after_attempt(2, &Err(JobError::terminal("t".to_string())), &mut history),
        Step::Quarantine(QuarantineReason::TerminalError)
    );
    assert_eq!(history.len(), 2);
}

#[test]
fn scheduler_quarantine_alerts_its_sink_once_with_the_stored_letter() {
    let mut s = scheduler(2);
    let d = s.quarantine("job", "data", history(), QuarantineReason::RetryCeilingExceeded);
    let alerts = s.alerts().alerts();
    let stored = s.dead_letters().entries();
    assert_eq!(alerts.len(), 1);
    assert_eq!(stored.len(), 1);
    for letter in [&alerts[0], &stored[0]] {
        assert_eq!(letter.job_name, d.job_name);
        assert_eq!(letter.payload, "data");
        assert_eq!(letter.reason, "retry ceiling exceeded");
        assert_eq!(letter.history.len(), 2);
    }
}
