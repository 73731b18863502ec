//! The retry policy of the worker pool: how often a job is attempted before
//! its one completion is reported.

use vstd::prelude::*;

verus! {

/// How one attempt at a job ended.
#[derive(Debug, Clone, Copy, PartialEq, Eq, Structural)]
pub enum AttemptOutcome {
    /// The job is done.
    Success,
    /// A transport error that may pass: worth another attempt.
    Transient,
    /// An error that another attempt cannot mend, such as a malformed feed
    /// or a file that may not be written.
    Terminal,
}

/// What to do after an attempt.
#[derive(Debug, Clone, Copy, PartialEq, Eq, Structural)]
pub enum JobStep {
    /// Attempt the job once more.
    Retry,
    /// Report that the job is done.
    ReportSuccess,
    /// Report that the job has failed.
    ReportFailure,
}

/// How a job ended: the one completion that is reported for it.
#[derive(Debug, Clone, Copy, PartialEq, Eq, Structural)]
pub struct JobReport {
    /// Whether the job is done.
    pub success: bool,
    /// How many attempts were made.
    pub attempts: usize,
    /// How the last attempt ended.
    pub last: AttemptOutcome,
}

/// The step after the attempt with number `attempts`, counted from one, of
/// at most `max_attempts`: success and terminal failure are reported at
/// once, a transient failure is retried until the attempts are used up.
pub open spec fn step_after(attempts: nat, max_attempts: nat, outcome: AttemptOutcome) -> JobStep {
    match outcome {
        AttemptOutcome::Success => JobStep::ReportSuccess,
        AttemptOutcome::Terminal => JobStep::ReportFailure,
        AttemptOutcome::Transient => if attempts < max_attempts {
            JobStep::Retry
        } else {
            JobStep::ReportFailure
        },
    }
}

/// Decides what follows the attempt with number `attempts`.
pub fn next_step(attempts: usize, max_attempts: usize, outcome: AttemptOutcome) -> (step: JobStep)
    ensures
        step == step_after(attempts as nat, max_attempts as nat, outcome),
{
    match outcome {
        AttemptOutcome::Success => JobStep::ReportSuccess,
        AttemptOutcome::Terminal => JobStep::ReportFailure,
        AttemptOutcome::Transient => if attempts < max_attempts {
            JobStep::Retry
        } else {
            JobStep::ReportFailure
        },
    }
}

/// Runs a job under the retry policy and returns its one report. `attempt`
/// makes the attempt with the number it is given, counted from one. At least
/// one attempt is made; every attempt before the last ended in a transient
/// failure and was followed by a retry, and the last one was not.
pub fn run_attempts<F: Fn(usize) -> AttemptOutcome>(max_attempts: usize, attempt: F) -> (report:
    JobReport)
    requires
        forall|n: usize| attempt.requires((n,)),
    ensures
        1 <= report.attempts,
        report.attempts <= max_attempts || report.attempts == 1,
        attempt.ensures((report.attempts,), report.last),
        step_after(report.attempts as nat, max_attempts as nat, report.last) != JobStep::Retry,
        report.success == (report.last == AttemptOutcome::Success),
        forall|n: usize|
            1 <= n < report.attempts ==> #[trigger] attempt.ensures((n,), AttemptOutcome::Transient),
{
    let mut made: usize = 1;
    let mut last = attempt(1);
    while next_step(made, max_attempts, last) == JobStep::Retry
        invariant
            1 <= made,
            made <= max_attempts || made == 1,
            forall|n: usize| attempt.requires((n,)),
            attempt.ensures((made,), last),
            forall|n: usize|
                1 <= n < made ==> #[trigger] attempt.ensures((n,), AttemptOutcome::Transient),
        decreases max_attempts - made,
    {
        made = made + 1;
        last = attempt(made);
    }
    JobReport { success: last == AttemptOutcome::Success, attempts: made, last }
}

} // verus!
