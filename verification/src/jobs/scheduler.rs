//! Retry-with-backoff scheduling for retryable failures and immediate
//! quarantine for terminal failures.
//!
//! The scheduler decides; whoever drives it runs the job, waits out the
//! backoff and reports each attempt's result back, one step at a time.

use vstd::arithmetic::power2::{lemma2_to64, pow2};
use vstd::bits::lemma_u32_shl_is_mul;
use vstd::prelude::*;

use super::dead_letter::{
    failure_for, history_model, record_failure, AlertSink, DeadLetter, DeadLetterModel,
    DeadLetterQueue, FailureRecord,
};
use super::duration::{Duration, MAX_DURATION_NANOS};
use super::error::{ErrorKind, JobError};

verus! {

/// A unit of background work. Handlers must be idempotent: their writes are
/// upserts, so re-running after a partial failure never double-applies.
pub trait Job {
    fn name(&self) -> &str;

    fn payload(&self) -> String;

    fn run(&self) -> Result<(), JobError>;
}

/// Retry policy: maximum attempts and base backoff.
#[derive(Debug, Clone, Copy)]
pub struct RetryPolicy {
    pub max_attempts: u32,
    pub base_backoff: Duration,
}

/// How many times the base backoff is waited before the given (1-based)
/// attempt is retried: doubling per attempt, capped at 2^16.
pub open spec fn backoff_factor(attempt: u32) -> nat {
    let exponent: nat = if attempt == 0 {
        0
    } else if attempt - 1 < 16 {
        (attempt - 1) as nat
    } else {
        16
    };
    pow2(exponent)
}

/// The backoff after the given (1-based) attempt, in nanoseconds.
pub open spec fn backoff_spec(policy: RetryPolicy, attempt: u32) -> nat {
    policy.base_backoff@ * backoff_factor(attempt)
}

/// Backoff doubles with every attempt up to the seventeenth, and stays at
/// 2^16 times the base from then on; attempt 0 waits the base, as attempt 1.
pub proof fn law_backoff_doubles_then_caps(policy: RetryPolicy, attempt: u32)
    ensures
        backoff_spec(policy, 0) == policy.base_backoff@,
        backoff_spec(policy, 1) == policy.base_backoff@,
        1 <= attempt <= 16 ==> backoff_spec(policy, (attempt + 1) as u32) == 2 * backoff_spec(
            policy,
            attempt,
        ),
        attempt >= 17 ==> backoff_spec(policy, attempt) == 65536 * policy.base_backoff@,
{
    lemma2_to64();
    assert(backoff_factor(0) == 1);
    assert(backoff_factor(1) == 1);
    if attempt >= 17 {
        assert(backoff_factor(attempt) == 65536);
    }
    if 1 <= attempt <= 16 {
        vstd::arithmetic::power2::lemma_pow2_unfold(attempt as nat);
        assert(backoff_factor((attempt + 1) as u32) == 2 * backoff_factor(attempt));
        assert(policy.base_backoff@ * (2 * backoff_factor(attempt)) == 2 * (policy.base_backoff@
            * backoff_factor(attempt))) by (nonlinear_arith);
    }
}

impl Default for RetryPolicy {
    /// Three attempts, starting from a 100 ms backoff.
    fn default() -> (p: RetryPolicy)
        ensures
            p.max_attempts == 3,
            p.base_backoff@ == 100_000_000,
    {
        RetryPolicy { max_attempts: 3, base_backoff: Duration::from_millis(100) }
    }
}

impl RetryPolicy {
    /// Exponential backoff for the given (1-based) attempt, or `None` when
    /// it is longer than the longest representable span.
    pub fn checked_backoff(&self, attempt: u32) -> (d: Option<Duration>)
        ensures
            d matches Some(b) ==> b@ == backoff_spec(*self, attempt),
            d is None <==> backoff_spec(*self, attempt) > MAX_DURATION_NANOS,
    {
        let exponent: u32 = if attempt == 0 {
            0
        } else if attempt - 1 < 16 {
            attempt - 1
        } else {
            16
        };
        proof {
            lemma2_to64();
            vstd::arithmetic::power2::lemma_pow2_strictly_increases(exponent as nat, 17);
            assert(pow2(17) == 0x20000);
            lemma_u32_shl_is_mul(1, exponent);
        }
        let factor: u32 = 1u32 << exponent;
        self.base_backoff.checked_mul(factor)
    }

    /// Exponential backoff for the given (1-based) attempt.
    pub fn backoff(&self, attempt: u32) -> (d: Duration)
        requires
            backoff_spec(*self, attempt) <= MAX_DURATION_NANOS,
        ensures
            d@ == backoff_spec(*self, attempt),
    {
        match self.checked_backoff(attempt) {
            Some(d) => d,
            None => self.base_backoff,
        }
    }
}

/// Outcome of running a job through the scheduler.
#[derive(Debug, Clone, Copy, PartialEq, Eq, Structural)]
pub enum Outcome {
    Succeeded,
    Quarantined,
}

/// Why a job is quarantined.
#[derive(Debug, Clone, Copy, PartialEq, Eq, Structural)]
pub enum QuarantineReason {
    /// The job failed with a terminal error.
    TerminalError,
    /// Every allowed attempt failed with a retryable error.
    RetryCeilingExceeded,
}

/// The text that a dead letter records for a quarantine reason.
pub open spec fn reason_text_spec(reason: QuarantineReason) -> Seq<char> {
    match reason {
        QuarantineReason::TerminalError => "terminal error"@,
        QuarantineReason::RetryCeilingExceeded => "retry ceiling exceeded"@,
    }
}

/// The text that a dead letter records for a quarantine reason.
pub fn reason_text(reason: QuarantineReason) -> (s: &'static str)
    ensures
        s@ == reason_text_spec(reason),
{
    match reason {
        QuarantineReason::TerminalError => "terminal error",
        QuarantineReason::RetryCeilingExceeded => "retry ceiling exceeded",
    }
}

/// What the driver of a job does next.
#[derive(Debug, Clone, Copy, PartialEq, Eq, Structural)]
pub enum Step {
    /// Run the given (1-based) attempt of the job now.
    Run { attempt: u32 },
    /// Wait for `backoff`, then run the given (1-based) attempt of the job.
    RetryAfter { backoff: Duration, attempt: u32 },
    /// The job succeeded; the run is over.
    Finish(Outcome),
    /// Quarantine the job with its failure history so far; the run is over
    /// with [`Outcome::Quarantined`].
    Quarantine(QuarantineReason),
}

/// A step as plain values.
pub enum StepModel {
    Run { attempt: u32 },
    RetryAfter { backoff_nanos: nat, attempt: u32 },
    Finish(Outcome),
    Quarantine(QuarantineReason),
}

impl Step {
    pub open spec fn model(self) -> StepModel {
        match self {
            Step::Run { attempt } => StepModel::Run { attempt },
            Step::RetryAfter { backoff, attempt } => StepModel::RetryAfter {
                backoff_nanos: backoff@,
                attempt,
            },
            Step::Finish(o) => StepModel::Finish(o),
            Step::Quarantine(r) => StepModel::Quarantine(r),
        }
    }
}

/// How an attempt ended: `None` when it succeeded, else the kind of error
/// that it failed with.
pub open spec fn failure_kind(result: Result<(), JobError>) -> Option<ErrorKind> {
    match result {
        Ok(()) => None,
        Err(e) => Some(e.kind),
    }
}

/// The first step of a run under `policy`.
pub open spec fn first_step_spec(policy: RetryPolicy) -> StepModel {
    if policy.max_attempts == 0 {
        StepModel::Quarantine(QuarantineReason::RetryCeilingExceeded)
    } else {
        StepModel::Run { attempt: 1 }
    }
}

/// The step after the given (1-based) attempt ended as `failure` says.
pub open spec fn step_after(policy: RetryPolicy, attempt: u32, failure: Option<ErrorKind>) -> StepModel {
    match failure {
        None => StepModel::Finish(Outcome::Succeeded),
        Some(ErrorKind::Terminal) => StepModel::Quarantine(QuarantineReason::TerminalError),
        Some(ErrorKind::Retryable) => if attempt < policy.max_attempts {
            StepModel::RetryAfter {
                backoff_nanos: backoff_spec(policy, attempt),
                attempt: (attempt + 1) as u32,
            }
        } else {
            StepModel::Quarantine(QuarantineReason::RetryCeilingExceeded)
        },
    }
}

/// How a run that has reached the given (1-based) attempt ends, when
/// attempt `k + 1` ends as `failures[k]` says: the final step and the
/// number of attempts made.
pub open spec fn run_from(policy: RetryPolicy, attempt: u32, failures: Seq<Option<ErrorKind>>) -> (
    StepModel,
    nat,
)
    decreases policy.max_attempts - attempt,
{
    let step = step_after(policy, attempt, failures[attempt - 1]);
    match step {
        StepModel::RetryAfter { attempt: next, .. } => if attempt < next
            <= policy.max_attempts {
            run_from(policy, next, failures)
        } else {
            (step, attempt as nat)
        },
        _ => (step, attempt as nat),
    }
}

/// How a whole run under `policy` ends, when attempt `k + 1` ends as
/// `failures[k]` says: the final step and the number of attempts made.
pub open spec fn run_spec(policy: RetryPolicy, failures: Seq<Option<ErrorKind>>) -> (StepModel, nat) {
    match first_step_spec(policy) {
        StepModel::Run { attempt } => run_from(policy, attempt, failures),
        first => (first, 0),
    }
}

/// The shape of every run from a given attempt on.
proof fn lemma_run_from(policy: RetryPolicy, attempt: u32, failures: Seq<Option<ErrorKind>>)
    requires
        1 <= attempt <= policy.max_attempts,
        failures.len() >= policy.max_attempts,
    ensures
        ({
            let (end, n) = run_from(policy, attempt, failures);
            &&& attempt <= n <= policy.max_attempts
            &&& forall|k: int| attempt - 1 <= k < n - 1 ==> failures[k] == Some(ErrorKind::Retryable)
            &&& (end == StepModel::Finish(Outcome::Succeeded)) == (failures[n - 1] is None)
            &&& (end == StepModel::Quarantine(QuarantineReason::TerminalError)) == (failures[n - 1]
                == Some(ErrorKind::Terminal))
            &&& (end == StepModel::Quarantine(QuarantineReason::RetryCeilingExceeded)) == (
            failures[n - 1] == Some(ErrorKind::Retryable))
            &&& failures[n - 1] == Some(ErrorKind::Retryable) ==> n == policy.max_attempts
        }),
    decreases policy.max_attempts - attempt,
{
    if attempt < policy.max_attempts && failures[attempt - 1] == Some(ErrorKind::Retryable) {
        lemma_run_from(policy, (attempt + 1) as u32, failures);
    }
}

/// Every run makes at most `max_attempts` attempts, and none when the policy
/// allows none. Every attempt but the last failed with a retryable error,
/// and was retried. The run succeeds exactly when its last attempt succeeded;
/// it is quarantined for a terminal error exactly when its last attempt
/// failed terminally, so a terminal error is never retried; otherwise every
/// allowed attempt failed with a retryable error and the run is quarantined
/// for exceeding the retry ceiling.
pub proof fn law_run_ends(policy: RetryPolicy, failures: Seq<Option<ErrorKind>>)
    requires
        failures.len() >= policy.max_attempts,
    ensures
        ({
            let (end, n) = run_spec(policy, failures);
            &&& n <= policy.max_attempts
            &&& (n == 0) == (policy.max_attempts == 0)
            &&& forall|k: int| 0 <= k < n - 1 ==> failures[k] == Some(ErrorKind::Retryable)
            &&& (end == StepModel::Finish(Outcome::Succeeded)) == (n >= 1 && failures[n - 1] is None)
            &&& (end == StepModel::Quarantine(QuarantineReason::TerminalError)) == (n >= 1
                && failures[n - 1] == Some(ErrorKind::Terminal))
            &&& (end == StepModel::Quarantine(QuarantineReason::RetryCeilingExceeded)) == (n
                == policy.max_attempts && forall|k: int|
                0 <= k < n ==> failures[k] == Some(ErrorKind::Retryable))
        }),
{
    if policy.max_attempts > 0 {
        lemma_run_from(policy, 1, failures);
        let (end, n) = run_spec(policy, failures);
        if failures[n - 1] == Some(ErrorKind::Retryable) {
            assert(forall|k: int| 0 <= k < n ==> failures[k] == Some(ErrorKind::Retryable));
        }
    }
}

/// A run starts by running attempt 1 whenever the policy allows any attempt
/// at all, and quarantines the job untried, for the retry ceiling, only when
/// the policy allows none.
pub proof fn law_first_step_runs_attempt_one(policy: RetryPolicy)
    ensures
        policy.max_attempts >= 1 ==> first_step_spec(policy) == (StepModel::Run { attempt: 1 }),
        policy.max_attempts == 0 ==> first_step_spec(policy) == StepModel::Quarantine(
            QuarantineReason::RetryCeilingExceeded,
        ),
{
}

/// After a retryable failure of attempt `a` below the ceiling the next step
/// waits exactly the base backoff times 2^min(a - 1, 16) and then runs
/// attempt `a + 1`; so from one retry to the next the wait doubles, up to
/// the cap. At the ceiling a retryable failure is quarantined, a terminal
/// failure always is, and a success always finishes the run.
pub proof fn law_retry_waits_exponential_backoff(policy: RetryPolicy, a: u32)
    requires
        1 <= a,
    ensures
        a < policy.max_attempts ==> step_after(policy, a, Some(ErrorKind::Retryable)) == (
        StepModel::RetryAfter {
            backoff_nanos: policy.base_backoff@ * pow2(
                if a - 1 < 16 {
                    (a - 1) as nat
                } else {
                    16nat
                },
            ),
            attempt: (a + 1) as u32,
        }),
        a + 1 < policy.max_attempts && a <= 16 ==> step_after(
            policy,
            (a + 1) as u32,
            Some(ErrorKind::Retryable),
        )->RetryAfter_backoff_nanos == 2 * step_after(
            policy,
            a,
            Some(ErrorKind::Retryable),
        )->RetryAfter_backoff_nanos,
        a >= policy.max_attempts ==> step_after(policy, a, Some(ErrorKind::Retryable))
            == StepModel::Quarantine(QuarantineReason::RetryCeilingExceeded),
        step_after(policy, a, Some(ErrorKind::Terminal)) == StepModel::Quarantine(
            QuarantineReason::TerminalError,
        ),
        step_after(policy, a, None) == StepModel::Finish(Outcome::Succeeded),
{
    law_backoff_doubles_then_caps(policy, a);
}

/// Runs jobs, retrying retryable failures with backoff and quarantining
/// terminal failures (or retryable failures that exhaust the retry ceiling).
pub struct Scheduler<S: AlertSink> {
    policy: RetryPolicy,
    dead_letters: DeadLetterQueue,
    alerts: S,
}

impl<S: AlertSink> Scheduler<S> {
    /// The retry policy.
    pub closed spec fn policy_spec(&self) -> RetryPolicy {
        self.policy
    }

    /// The sink that is alerted on every quarantine.
    pub closed spec fn sink(&self) -> S {
        self.alerts
    }

    /// The jobs quarantined so far, oldest first.
    pub closed spec fn quarantined(&self) -> Seq<DeadLetterModel> {
        self.dead_letters@
    }

    pub fn new(policy: RetryPolicy, dead_letters: DeadLetterQueue, alerts: S) -> (s: Scheduler<S>)
        ensures
            s.policy_spec() == policy,
            s.quarantined() == dead_letters@,
            s.sink() == alerts,
    {
        Scheduler { policy, dead_letters, alerts }
    }

    pub fn policy(&self) -> (p: RetryPolicy)
        ensures
            p == self.policy_spec(),
    {
        self.policy
    }

    /// The quarantine store.
    pub fn dead_letters(&self) -> (q: &DeadLetterQueue)
        ensures
            q@ == self.quarantined(),
    {
        &self.dead_letters
    }

    /// The sink that is alerted on every quarantine.
    pub fn alerts(&self) -> (a: &S)
        ensures
            *a == self.sink(),
    {
        &self.alerts
    }

    /// The first step of a run: attempt 1, unless the policy allows no
    /// attempt at all, in which case the job is quarantined untried.
    pub fn first_step(&self) -> (step: Step)
        ensures
            step.model() == first_step_spec(self.policy_spec()),
    {
        if self.policy.max_attempts == 0 {
            Step::Quarantine(QuarantineReason::RetryCeilingExceeded)
        } else {
            Step::Run { attempt: 1 }
        }
    }

    /// The step after the given attempt ended with `result`. A failure is
    /// appended to `history`. A terminal failure is quarantined at once; a
    /// retryable one is retried after the backoff while attempts remain, and
    /// quarantined once the retry ceiling is reached.
    pub fn after_attempt(
        &self,
        attempt: u32,
        result: &Result<(), JobError>,
        history: &mut Vec<FailureRecord>,
    ) -> (step: Step)
        requires
            1 <= attempt <= self.policy_spec().max_attempts,
            attempt < self.policy_spec().max_attempts && failure_kind(*result) == Some(
                ErrorKind::Retryable,
            ) ==> backoff_spec(self.policy_spec(), attempt) <= MAX_DURATION_NANOS,
        ensures
            step.model() == step_after(self.policy_spec(), attempt, failure_kind(*result)),
            match result {
                Ok(()) => final(history)@ == old(history)@,
                Err(e) => history_model(final(history)@) == history_model(old(history)@).push(
                    failure_for(attempt, e),
                ),
            },
    {
        match result {
            Ok(()) => Step::Finish(Outcome::Succeeded),
            Err(error) => {
                let ghost before = history@;
                history.push(record_failure(attempt, error));
                assert(history_model(history@) =~= history_model(before).push(
                    failure_for(attempt, error),
                ));
                if error.is_terminal() {
                    Step::Quarantine(QuarantineReason::TerminalError)
                } else if attempt < self.policy.max_attempts {
                    Step::RetryAfter { backoff: self.policy.backoff(attempt), attempt: attempt + 1 }
                } else {
                    Step::Quarantine(QuarantineReason::RetryCeilingExceeded)
                }
            },
        }
    }

    /// Quarantine a job with its failure history, alerting the sink.
    pub fn quarantine(
        &mut self,
        job_name: &str,
        payload: &str,
        history: Vec<FailureRecord>,
        reason: QuarantineReason,
    ) -> (d: DeadLetter)
        ensures
            d@ == (DeadLetterModel {
                job_name: job_name@,
                payload: payload@,
                history: history_model(history@),
                reason: reason_text_spec(reason),
            }),
            final(self).quarantined() == old(self).quarantined().push(d@),
            final(self).policy_spec() == old(self).policy_spec(),
            final(self).sink().raised() == old(self).sink().raised().push(d@),
    {
        self.dead_letters.quarantine(job_name, payload, history, reason_text(reason), &mut self.alerts)
    }
}

} // verus!
