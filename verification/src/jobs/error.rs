//! Explicit retryable vs. terminal error taxonomy for background jobs.
//!
//! Generic retry-with-backoff cannot tell "failed because of a transient
//! issue" from "will fail every single time". Job handlers classify their
//! failures explicitly so that the scheduler retries the former and
//! quarantines the latter immediately.

use vstd::prelude::*;

verus! {

/// Classification of a job failure.
#[derive(Debug, Clone, Copy, PartialEq, Eq, Structural)]
pub enum ErrorKind {
    /// Transient failure: safe to retry with backoff.
    Retryable,
    /// Permanent failure: will fail on every retry, quarantine immediately.
    Terminal,
}

/// Error returned by a job handler.
#[derive(Debug)]
pub struct JobError {
    pub kind: ErrorKind,
    pub message: String,
}

/// The label that names an error kind in messages.
pub open spec fn kind_label(kind: ErrorKind) -> Seq<char> {
    match kind {
        ErrorKind::Retryable => "retryable"@,
        ErrorKind::Terminal => "terminal"@,
    }
}

impl JobError {
    /// A transient failure that should be retried with backoff.
    pub fn retryable(message: String) -> (e: JobError)
        ensures
            e.kind == ErrorKind::Retryable,
            e.message@ == message@,
    {
        JobError { kind: ErrorKind::Retryable, message }
    }

    /// A permanent failure that should be quarantined immediately.
    pub fn terminal(message: String) -> (e: JobError)
        ensures
            e.kind == ErrorKind::Terminal,
            e.message@ == message@,
    {
        JobError { kind: ErrorKind::Terminal, message }
    }

    pub fn is_retryable(&self) -> (b: bool)
        ensures
            b == (self.kind == ErrorKind::Retryable),
    {
        self.kind == ErrorKind::Retryable
    }

    pub fn is_terminal(&self) -> (b: bool)
        ensures
            b == (self.kind == ErrorKind::Terminal),
    {
        self.kind == ErrorKind::Terminal
    }

    /// The human-readable form of the error: its kind's label, then
    /// `" job error: "`, then the message.
    pub fn describe(&self) -> (s: String)
        ensures
            s@ == kind_label(self.kind) + " job error: "@ + self.message@,
    {
        let label = match self.kind {
            ErrorKind::Retryable => "retryable",
            ErrorKind::Terminal => "terminal",
        };
        let mut s = label.to_owned();
        s.append(" job error: ");
        s.append(self.message.as_str());
        s
    }
}

/// Convenience alias for job handler results.
pub type JobResult<T> = Result<T, JobError>;

} // verus!
