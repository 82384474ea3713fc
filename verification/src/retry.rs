//! Retry-guarded initialization.
//!
//! Exporting a GPIO pin or a PWM channel is asynchronous: the call returns
//! before the resource is usable, so the configuration steps that follow
//! must be retried with a fixed delay until they succeed or a bounded
//! budget of attempts runs out. The caller performs each attempt (it is
//! hardware I/O) and feeds the outcome in; this module decides whether to
//! stop, sleep and retry, or give up.

use vstd::prelude::*;

verus! {

/// Recommended fixed delay between attempts at the PWM setup sequence.
pub const SETUP_RETRY_DELAY_MS: u64 = 300;

/// Recommended fixed delay between attempts at a GPIO configuration step.
pub const GPIO_RETRY_DELAY_MS: u64 = 500;

/// Default bound on the attempts of one retried operation.
pub const DEFAULT_MAX_ATTEMPTS: u64 = 10;

/// Fixed delay and bounded attempt budget of one retried operation.
pub struct RetryPolicy {
    pub delay_ms: u64,
    pub max_attempts: u64,
}

/// What to do after an attempt: stop because it succeeded, sleep for the
/// fixed delay and attempt again, or give up because the budget is spent.
pub enum RetryDecision {
    Succeeded,
    RetryAfterDelay,
    GiveUp,
}

/// How a whole retried operation ended: how many attempts ran, and whether
/// the last of them succeeded.
pub struct RetryRun {
    pub attempts: u64,
    pub succeeded: bool,
}

impl RetryPolicy {
    /// A policy with the given delay and a positive attempt budget.
    pub fn new(delay_ms: u64, max_attempts: u64) -> (policy: RetryPolicy)
        requires
            max_attempts >= 1,
        ensures
            policy.delay_ms == delay_ms,
            policy.max_attempts == max_attempts,
    {
        RetryPolicy { delay_ms, max_attempts }
    }

    /// Decide what follows the attempt that just ran. `attempts_made`
    /// counts it, so it lies between one and the budget. Success stops the
    /// retries at once; failure retries after the fixed delay until the
    /// budget is exhausted, and only then gives up — never earlier, and
    /// never hangs beyond the budget.
    pub fn decide(&self, attempts_made: u64, success: bool) -> (decision: RetryDecision)
        requires
            1 <= attempts_made <= self.max_attempts,
        ensures
            success <==> decision is Succeeded,
            (!success && attempts_made < self.max_attempts) <==> decision is RetryAfterDelay,
            (!success && attempts_made == self.max_attempts) <==> decision is GiveUp,
    {
        if success {
            RetryDecision::Succeeded
        } else if attempts_made < self.max_attempts {
            RetryDecision::RetryAfterDelay
        } else {
            RetryDecision::GiveUp
        }
    }

    /// Run the whole retry protocol against a prescribed sequence of
    /// attempt outcomes, one per potential attempt.
    ///
    /// The run succeeds exactly when some attempt within the budget
    /// succeeds; it stops at the first success, runs nothing after it, and
    /// a run out of luck stops after exactly the budgeted number of
    /// attempts rather than hanging.
    pub fn run_against(&self, outcomes: &Vec<bool>) -> (run: RetryRun)
        requires
            self.max_attempts >= 1,
            outcomes.len() >= self.max_attempts,
        ensures
            run.succeeded <==> exists|i: int|
                0 <= i < self.max_attempts && outcomes[i],
            run.succeeded ==> 1 <= run.attempts <= self.max_attempts && outcomes[
                run.attempts - 1
            ] && forall|i: int| 0 <= i < run.attempts - 1 ==> !outcomes[i],
            !run.succeeded ==> run.attempts == self.max_attempts && forall|i: int|
                0 <= i < self.max_attempts ==> !outcomes[i],
    {
        let mut attempts_made: u64 = 0;
        loop
            invariant
                self.max_attempts >= 1,
                outcomes.len() >= self.max_attempts,
                0 <= attempts_made < self.max_attempts,
                forall|i: int| 0 <= i < attempts_made ==> !outcomes[i],
            ensures
                (exists|i: int| 0 <= i < self.max_attempts && outcomes[i]) ==> ({
                    &&& 1 <= attempts_made + 1 <= self.max_attempts
                    &&& outcomes[attempts_made as int]
                    &&& forall|i: int| 0 <= i < attempts_made ==> !outcomes[i]
                }),
                (forall|i: int| 0 <= i < self.max_attempts ==> !outcomes[i])
                    ==> attempts_made + 1 == self.max_attempts,
                outcomes[attempts_made as int] <==> exists|i: int|
                    0 <= i < self.max_attempts && outcomes[i],
            decreases self.max_attempts - attempts_made,
        {
            let success = outcomes[attempts_made as usize];
            match self.decide(attempts_made + 1, success) {
                RetryDecision::Succeeded => {
                    break;
                },
                RetryDecision::GiveUp => {
                    break;
                },
                RetryDecision::RetryAfterDelay => {
                    attempts_made = attempts_made + 1;
                },
            }
        }
        RetryRun { attempts: attempts_made + 1, succeeded: outcomes[attempts_made as usize] }
    }
}

} // verus!
