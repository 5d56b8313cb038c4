//! Quarantine state, full failure history, and alerting for poison messages.
//!
//! After N retries or a terminal error a job is quarantined here rather than
//! silently dropped or retried forever. The full failure history is retained
//! so that the input can be investigated.

use vstd::prelude::*;

use super::error::{ErrorKind, JobError};

verus! {

/// A single recorded failure attempt.
#[derive(Debug)]
pub struct FailureRecord {
    pub attempt: u32,
    pub message: String,
    pub retryable: bool,
}

/// A failure record as plain values.
pub struct FailureModel {
    pub attempt: u32,
    pub message: Seq<char>,
    pub retryable: bool,
}

impl View for FailureRecord {
    type V = FailureModel;

    open spec fn view(&self) -> FailureModel {
        FailureModel { attempt: self.attempt, message: self.message@, retryable: self.retryable }
    }
}

impl Clone for FailureRecord {
    fn clone(&self) -> (c: FailureRecord)
        ensures
            c@ == self@,
    {
        FailureRecord {
            attempt: self.attempt,
            message: self.message.clone(),
            retryable: self.retryable,
        }
    }
}

/// The plain-value view of a failure history.
pub open spec fn history_model(h: Seq<FailureRecord>) -> Seq<FailureModel> {
    h.map_values(|r: FailureRecord| r@)
}

/// A copy of a failure history.
pub fn copy_history(h: &Vec<FailureRecord>) -> (c: Vec<FailureRecord>)
    ensures
        history_model(c@) == history_model(h@),
{
    let mut c: Vec<FailureRecord> = Vec::new();
    let n = h.len();
    for i in 0..n
        invariant
            n == h.len(),
            history_model(c@) == history_model(h@.take(i as int)),
    {
        let r = h[i].clone();
        assert(r@ == h@[i as int]@);
        let ghost before = c@;
        c.push(r);
        assert(h@.take(i + 1) =~= h@.take(i as int).push(h@[i as int]));
        assert(c@ =~= before.push(r));
        assert(history_model(c@) =~= history_model(before).push(r@));
        assert(history_model(h@.take(i + 1)) =~= history_model(h@.take(i as int)).push(
            h@[i as int]@,
        ));
        assert(history_model(c@) =~= history_model(h@.take(i + 1)));
    }
    assert(h@.take(n as int) =~= h@);
    c
}

/// A quarantined job with its complete failure history.
#[derive(Debug)]
pub struct DeadLetter {
    pub job_name: String,
    pub payload: String,
    pub history: Vec<FailureRecord>,
    pub reason: String,
}

/// A dead letter as plain values.
pub struct DeadLetterModel {
    pub job_name: Seq<char>,
    pub payload: Seq<char>,
    pub history: Seq<FailureModel>,
    pub reason: Seq<char>,
}

impl View for DeadLetter {
    type V = DeadLetterModel;

    open spec fn view(&self) -> DeadLetterModel {
        DeadLetterModel {
            job_name: self.job_name@,
            payload: self.payload@,
            history: history_model(self.history@),
            reason: self.reason@,
        }
    }
}

impl Clone for DeadLetter {
    fn clone(&self) -> (c: DeadLetter)
        ensures
            c@ == self@,
    {
        DeadLetter {
            job_name: self.job_name.clone(),
            payload: self.payload.clone(),
            history: copy_history(&self.history),
            reason: self.reason.clone(),
        }
    }
}

/// The plain-value view of a list of dead letters.
pub open spec fn letters_model(v: Seq<DeadLetter>) -> Seq<DeadLetterModel> {
    v.map_values(|d: DeadLetter| d@)
}

/// A copy of a list of dead letters.
fn copy_letters(v: &Vec<DeadLetter>) -> (c: Vec<DeadLetter>)
    ensures
        letters_model(c@) == letters_model(v@),
{
    let mut c: Vec<DeadLetter> = Vec::new();
    let n = v.len();
    for i in 0..n
        invariant
            n == v.len(),
            letters_model(c@) == letters_model(v@.take(i as int)),
    {
        let d = v[i].clone();
        assert(d@ == v@[i as int]@);
        let ghost before = c@;
        c.push(d);
        assert(v@.take(i + 1) =~= v@.take(i as int).push(v@[i as int]));
        assert(c@ =~= before.push(d));
        assert(letters_model(c@) =~= letters_model(before).push(d@));
        assert(letters_model(v@.take(i + 1)) =~= letters_model(v@.take(i as int)).push(
            v@[i as int]@,
        ));
        assert(letters_model(c@) =~= letters_model(v@.take(i + 1)));
    }
    assert(v@.take(n as int) =~= v@);
    c
}

/// Sink notified when a job is quarantined.
pub trait AlertSink {
    /// The alerts raised through this sink so far, oldest first.
    spec fn raised(&self) -> Seq<DeadLetterModel>;

    /// Raise an alert for a quarantined job.
    fn alert(&mut self, dead_letter: &DeadLetter)
        ensures
            final(self).raised() == old(self).raised().push(dead_letter@),
    ;
}

/// Alert sink that records alerts in memory (used by tests and as a fallback
/// when no external alerting channel is configured).
pub struct RecordingAlertSink {
    alerts: Vec<DeadLetter>,
}

impl View for RecordingAlertSink {
    type V = Seq<DeadLetterModel>;

    closed spec fn view(&self) -> Seq<DeadLetterModel> {
        letters_model(self.alerts@)
    }
}

impl RecordingAlertSink {
    pub fn new() -> (s: RecordingAlertSink)
        ensures
            s@ == Seq::<DeadLetterModel>::empty(),
    {
        let s = RecordingAlertSink { alerts: Vec::new() };
        assert(s@ =~= Seq::<DeadLetterModel>::empty());
        s
    }

    /// Every alert raised so far, oldest first.
    pub fn alerts(&self) -> (v: Vec<DeadLetter>)
        ensures
            letters_model(v@) == self@,
    {
        copy_letters(&self.alerts)
    }
}

impl AlertSink for RecordingAlertSink {
    open spec fn raised(&self) -> Seq<DeadLetterModel> {
        self@
    }

    fn alert(&mut self, dead_letter: &DeadLetter)
        ensures
            final(self)@ == old(self)@.push(dead_letter@),
    {
        let ghost before = self.alerts@;
        self.alerts.push(dead_letter.clone());
        assert(letters_model(self.alerts@) =~= letters_model(before).push(dead_letter@));
    }
}

/// Quarantine store holding dead-lettered jobs.
pub struct DeadLetterQueue {
    entries: Vec<DeadLetter>,
}

impl View for DeadLetterQueue {
    type V = Seq<DeadLetterModel>;

    closed spec fn view(&self) -> Seq<DeadLetterModel> {
        letters_model(self.entries@)
    }
}

impl DeadLetterQueue {
    pub fn new() -> (q: DeadLetterQueue)
        ensures
            q@ == Seq::<DeadLetterModel>::empty(),
    {
        let q = DeadLetterQueue { entries: Vec::new() };
        assert(q@ =~= Seq::<DeadLetterModel>::empty());
        q
    }

    /// Quarantine a job with its full failure history and raise an alert.
    ///
    /// The sink is alerted with the new dead letter before it is stored.
    pub fn quarantine<S: AlertSink>(
        &mut self,
        job_name: &str,
        payload: &str,
        history: Vec<FailureRecord>,
        reason: &str,
        sink: &mut S,
    ) -> (d: DeadLetter)
        ensures
            d@ == (DeadLetterModel {
                job_name: job_name@,
                payload: payload@,
                history: history_model(history@),
                reason: reason@,
            }),
            final(self)@ == old(self)@.push(d@),
            final(sink).raised() == old(sink).raised().push(d@),
    {
        let entry = DeadLetter {
            job_name: job_name.to_owned(),
            payload: payload.to_owned(),
            history,
            reason: reason.to_owned(),
        };
        sink.alert(&entry);
        let ghost before = self.entries@;
        self.entries.push(entry.clone());
        assert(letters_model(self.entries@) =~= letters_model(before).push(entry@));
        entry
    }

    /// Every quarantined job, oldest first.
    pub fn entries(&self) -> (v: Vec<DeadLetter>)
        ensures
            letters_model(v@) == self@,
    {
        copy_letters(&self.entries)
    }

    pub fn len(&self) -> (n: usize)
        ensures
            n == self@.len(),
    {
        self.entries.len()
    }

    pub fn is_empty(&self) -> (b: bool)
        ensures
            b == (self@.len() == 0),
    {
        self.len() == 0
    }
}

/// What `record_failure` records for an attempt that failed with `error`.
pub open spec fn failure_for(attempt: u32, error: &JobError) -> FailureModel {
    FailureModel {
        attempt,
        message: error.message@,
        retryable: error.kind == ErrorKind::Retryable,
    }
}

/// Build a failure record from an attempt and its error.
pub fn record_failure(attempt: u32, error: &JobError) -> (r: FailureRecord)
    ensures
        r@ == failure_for(attempt, error),
{
    FailureRecord { attempt, message: error.message.clone(), retryable: error.is_retryable() }
}

} // verus!
