//! The retry policy: classifying each failure as permanent or retryable,
//! and the exponential-backoff schedule that spaces retries out.

use vstd::prelude::*;

use crate::errors::{MpesaError, ResponseError};
use crate::text::{contains_sub, str_contains_sub, str_eq};

verus! {

/// Fixed minimum delay, in milliseconds, imposed before retrying after a
/// service error whose code marks a busy or locked upstream.
pub const RETRY_MIN_DELAY_MS: u64 = 1000;

/// What the retry policy decides about one failed attempt.
#[derive(Debug, Clone, PartialEq, Eq)]
pub enum RetryDecision {
    /// Retrying cannot help; surface the error.
    Permanent(MpesaError),
    /// Retrying may help; the backoff schedule alone spaces the attempts.
    Transient(MpesaError),
    /// Retrying may help, but no sooner than the given delay in
    /// milliseconds.
    TransientWithDelay(MpesaError, u64),
}

/// The service-error codes retried with a fixed minimum delay, over the
/// code and message texts: system busy or quota/spike-arrest violations,
/// and the subscriber-lock conflict when its message names the lock.
pub open spec fn code_marks_transient(code: Seq<char>, message: Seq<char>) -> bool {
    code == "500.003.02"@ || code == "500.003.03"@ || (code == "500.001.1001"@
        && contains_sub(message, "Unable to lock subscriber"@))
}

/// [`code_marks_transient`], read off a decoded error payload.
pub open spec fn spec_code_transient(res: ResponseError) -> bool {
    code_marks_transient(res.error_code@, res.error_message@)
}

/// The decision the retry policy owes each error: the synthetic transient
/// marker is retried on the plain schedule, a service error is retried
/// with a minimum delay exactly when [`spec_code_transient`] holds of it,
/// and every other error is permanent.
pub open spec fn spec_to_retryable(e: MpesaError) -> RetryDecision {
    match e {
        MpesaError::TransientError => RetryDecision::Transient(e),
        MpesaError::Service(res) => if spec_code_transient(res) {
            RetryDecision::TransientWithDelay(e, RETRY_MIN_DELAY_MS)
        } else {
            RetryDecision::Permanent(e)
        },
        _ => RetryDecision::Permanent(e),
    }
}

impl MpesaError {
    /// Classifies this error into the retry policy's decision.  The
    /// decision is a pure function of the error's content.
    pub fn to_retryable(self) -> (r: RetryDecision)
        ensures
            r == spec_to_retryable(self),
    {
        match self {
            MpesaError::TransientError => RetryDecision::Transient(MpesaError::TransientError),
            MpesaError::Service(res) => {
                let code_transient = str_eq(res.error_code.as_str(), "500.003.02")
                    || str_eq(res.error_code.as_str(), "500.003.03")
                    || (str_eq(res.error_code.as_str(), "500.001.1001")
                        && str_contains_sub(res.error_message.as_str(), "Unable to lock subscriber"));
                let e = MpesaError::Service(res);
                if code_transient {
                    RetryDecision::TransientWithDelay(e, RETRY_MIN_DELAY_MS)
                } else {
                    RetryDecision::Permanent(e)
                }
            },
            e => RetryDecision::Permanent(e),
        }
    }
}

/// Repeated classification of one and the same error value always
/// produces one and the same decision: the decision depends on nothing
/// but the error's content.
pub proof fn lemma_classify_idempotent(e1: MpesaError, e2: MpesaError)
    requires
        e1 == e2,
    ensures
        spec_to_retryable(e1) == spec_to_retryable(e2),
{
}

impl RetryDecision {
    /// The error the decision was made about.
    pub open spec fn spec_error(&self) -> MpesaError {
        match *self {
            RetryDecision::Permanent(ref e) => *e,
            RetryDecision::Transient(ref e) => *e,
            RetryDecision::TransientWithDelay(ref e, _) => *e,
        }
    }

    /// True iff the decision permits another attempt.
    pub open spec fn spec_is_transient(&self) -> bool {
        !(*self matches RetryDecision::Permanent(_))
    }

    /// The minimum delay the decision imposes, in milliseconds.
    pub open spec fn spec_min_delay(&self) -> u64 {
        match *self {
            RetryDecision::TransientWithDelay(_, d) => d,
            _ => 0,
        }
    }
}

impl From<RetryDecision> for MpesaError {
    /// Unwraps the error a decision was made about, dropping the
    /// retry verdict.
    fn from(d: RetryDecision) -> (r: Self) {
        match d {
            RetryDecision::Permanent(e) => e,
            RetryDecision::Transient(e) => e,
            RetryDecision::TransientWithDelay(e, _) => e,
        }
    }
}

impl vstd::std_specs::convert::FromSpecImpl<RetryDecision> for MpesaError {
    open spec fn obeys_from_spec() -> bool {
        true
    }

    open spec fn from_spec(d: RetryDecision) -> Self {
        d.spec_error()
    }
}

/// Exponential-backoff schedule over whole milliseconds: the first retry
/// waits `current_interval_ms`, each later one half as much again, capped
/// at `max_interval_ms`; once the waits granted so far reach
/// `max_elapsed_ms` the schedule refuses further attempts.
#[derive(Debug, Clone, PartialEq, Eq)]
pub struct ExponentialBackoff {
    pub current_interval_ms: u64,
    pub elapsed_ms: u64,
    pub max_interval_ms: u64,
    pub max_elapsed_ms: u64,
}

impl ExponentialBackoff {
    /// The schedule's intervals stay within its cap, and cap and budget
    /// leave room for overflow-free accounting.
    pub open spec fn wf(&self) -> bool {
        self.current_interval_ms <= self.max_interval_ms
            && self.max_interval_ms <= 0x7fff_ffff_ffff_ffff
            && self.max_elapsed_ms <= 0x7fff_ffff_ffff_ffff
    }

    /// Whether the schedule refuses further attempts.
    pub open spec fn spec_exhausted(&self) -> bool {
        self.elapsed_ms >= self.max_elapsed_ms
    }

    /// The wait the schedule grants for the next attempt under the given
    /// minimum, or `None` once the budget is spent.
    pub open spec fn spec_granted(&self, min_delay_ms: u64) -> Option<u64> {
        if self.spec_exhausted() {
            None
        } else if min_delay_ms > self.current_interval_ms {
            Some(min_delay_ms)
        } else {
            Some(self.current_interval_ms)
        }
    }

    /// The schedule after granting a wait under the given minimum: the
    /// wait counts against the budget and the interval grows by half, up
    /// to the cap.  A spent schedule stays as it is.
    pub open spec fn spec_after_grant(&self, min_delay_ms: u64) -> ExponentialBackoff {
        match self.spec_granted(min_delay_ms) {
            None => *self,
            Some(d) => ExponentialBackoff {
                current_interval_ms: if self.current_interval_ms + self.current_interval_ms / 2
                    > self.max_interval_ms {
                    self.max_interval_ms
                } else {
                    (self.current_interval_ms + self.current_interval_ms / 2) as u64
                },
                elapsed_ms: (self.elapsed_ms + d) as u64,
                ..*self
            },
        }
    }

    /// A schedule with the given parameters; `initial_interval_ms` must
    /// not exceed `max_interval_ms`.
    pub fn with_params(initial_interval_ms: u64, max_interval_ms: u64, max_elapsed_ms: u64) -> (r: Self)
        requires
            initial_interval_ms <= max_interval_ms,
            max_interval_ms <= 0x7fff_ffff_ffff_ffff,
            max_elapsed_ms <= 0x7fff_ffff_ffff_ffff,
        ensures
            r.wf(),
            r == (ExponentialBackoff {
                current_interval_ms: initial_interval_ms,
                elapsed_ms: 0,
                max_interval_ms,
                max_elapsed_ms,
            }),
    {
        ExponentialBackoff {
            current_interval_ms: initial_interval_ms,
            elapsed_ms: 0,
            max_interval_ms,
            max_elapsed_ms,
        }
    }

    /// The conventional schedule: half a second to start, intervals
    /// growing half as much again up to a minute, and an overall budget
    /// of fifteen minutes.
    pub fn new() -> (r: Self)
        ensures
            r.wf(),
            r == spec_default_backoff(),
    {
        ExponentialBackoff::with_params(500, 60_000, 900_000)
    }

    /// Asks the schedule for the wait before the next attempt, at least
    /// `min_delay_ms` long.  `None` means the budget is spent and the
    /// caller must give up.
    pub fn next_delay(&mut self, min_delay_ms: u64) -> (r: Option<u64>)
        requires
            old(self).wf(),
            min_delay_ms <= 0x7fff_ffff_ffff_ffff,
        ensures
            final(self).wf(),
            r == old(self).spec_granted(min_delay_ms),
            *final(self) == old(self).spec_after_grant(min_delay_ms),
    {
        if self.elapsed_ms >= self.max_elapsed_ms {
            return None;
        }
        let delay = if min_delay_ms > self.current_interval_ms {
            min_delay_ms
        } else {
            self.current_interval_ms
        };
        self.elapsed_ms = self.elapsed_ms + delay;
        let grown = self.current_interval_ms + self.current_interval_ms / 2;
        self.current_interval_ms = if grown > self.max_interval_ms {
            self.max_interval_ms
        } else {
            grown
        };
        Some(delay)
    }
}

/// The conventional default schedule, as a value.
pub open spec fn spec_default_backoff() -> ExponentialBackoff {
    ExponentialBackoff {
        current_interval_ms: 500,
        elapsed_ms: 0,
        max_interval_ms: 60_000,
        max_elapsed_ms: 900_000,
    }
}

} // verus!
