//! Transport error taxonomy and the retry middleware's decisions:
//! classification into transient and fatal failures, and exponential
//! backoff bounded by the configured minimum delay, maximum delay, and
//! maximum elapsed time.

use vstd::prelude::*;

verus! {

/// A failed transport call, as classified by the destination-facing service.
#[derive(Clone, Copy, Debug, PartialEq, Eq, Structural)]
pub enum TransportError {
    /// Connection-level failure (reset, refused, broken transport).
    ConnectionFailed,
    /// The call did not complete within the transport timeout.
    TimedOut,
    /// The destination signalled throttling outside the HTTP status line.
    Throttled,
    /// An HTTP response with a non-success status.
    Http { status: u16 },
    /// The destination accepted only part of the batch inside a nominally
    /// successful response; surfaced as a batch-level error, never as a
    /// per-record outcome.
    PartialRejection { failed_count: usize },
}

/// Whether a transport error may be retried or must fail the batch at once.
#[derive(Clone, Copy, Debug, PartialEq, Eq, Structural)]
pub enum ErrorClass {
    Transient,
    Fatal,
}

/// Classification of a transport error: connection failures, timeouts, the
/// throttling signal (HTTP 429 included) and server-side statuses are
/// transient; every other HTTP status and partial-batch rejection are fatal.
pub open spec fn spec_classify(e: TransportError) -> ErrorClass {
    match e {
        TransportError::ConnectionFailed => ErrorClass::Transient,
        TransportError::TimedOut => ErrorClass::Transient,
        TransportError::Throttled => ErrorClass::Transient,
        TransportError::Http { status } => if status == 429 || (500 <= status && status <= 599) {
            ErrorClass::Transient
        } else {
            ErrorClass::Fatal
        },
        TransportError::PartialRejection { .. } => ErrorClass::Fatal,
    }
}

pub fn classify(e: &TransportError) -> (c: ErrorClass)
    ensures
        c == spec_classify(*e),
{
    match e {
        TransportError::ConnectionFailed => ErrorClass::Transient,
        TransportError::TimedOut => ErrorClass::Transient,
        TransportError::Throttled => ErrorClass::Transient,
        TransportError::Http { status } => {
            if *status == 429 || (500 <= *status && *status <= 599) {
                ErrorClass::Transient
            } else {
                ErrorClass::Fatal
            }
        },
        TransportError::PartialRejection { .. } => ErrorClass::Fatal,
    }
}

/// Configured shape of the retry middleware: first backoff delay, cap on
/// the delay, and the total elapsed-time budget after which retrying stops.
#[derive(Clone, Copy, Debug, PartialEq, Eq, Structural)]
pub struct RetryPolicy {
    pub initial_backoff_ms: u64,
    pub max_backoff_ms: u64,
    pub max_elapsed_ms: u64,
}

impl RetryPolicy {
    /// A usable policy: a positive first delay no larger than the cap.
    pub open spec fn well_formed(&self) -> bool {
        0 < self.initial_backoff_ms <= self.max_backoff_ms
    }
}

/// The delay before retry number `attempt` (1-based): the initial delay,
/// doubled for each further attempt, clamped at the configured maximum.
pub open spec fn spec_backoff(p: RetryPolicy, attempt: nat) -> u64
    decreases attempt,
{
    if attempt <= 1 {
        p.initial_backoff_ms
    } else {
        let prev = spec_backoff(p, (attempt - 1) as nat);
        if prev > p.max_backoff_ms / 2 {
            p.max_backoff_ms
        } else {
            (2 * prev) as u64
        }
    }
}

/// Computes the backoff delay for the given retry attempt, and shows it is
/// bounded by the configured minimum and maximum delays.
pub fn backoff_delay(p: &RetryPolicy, attempt: u64) -> (d: u64)
    ensures
        d == spec_backoff(*p, attempt as nat),
        p.well_formed() ==> p.initial_backoff_ms <= d <= p.max_backoff_ms,
{
    let mut cur: u64 = p.initial_backoff_ms;
    let mut i: u64 = 1;
    while i < attempt
        invariant
            1 <= i,
            i <= attempt || i == 1,
            cur == spec_backoff(*p, i as nat),
            p.well_formed() ==> p.initial_backoff_ms <= cur <= p.max_backoff_ms,
        decreases attempt - i,
    {
        if cur > p.max_backoff_ms / 2 {
            cur = p.max_backoff_ms;
        } else {
            cur = 2 * cur;
        }
        i = i + 1;
    }
    proof {
        if attempt <= 1 {
            assert(spec_backoff(*p, attempt as nat) == p.initial_backoff_ms);
            assert(spec_backoff(*p, 1nat) == p.initial_backoff_ms);
        }
    }
    cur
}

/// What the retry middleware decides after a failed attempt.
#[derive(Clone, Copy, Debug, PartialEq, Eq, Structural)]
pub enum RetryDecision {
    /// Re-invoke the call with the identical batch after this delay.
    Retry { delay_ms: u64 },
    /// Stop retrying; the batch fails.
    GiveUp,
}

/// The retry decision: fatal errors are never retried; transient errors are
/// retried with the backoff delay for this attempt until the elapsed-time
/// budget is spent.
pub open spec fn spec_retry_decision(
    p: RetryPolicy,
    class: ErrorClass,
    attempt: nat,
    elapsed_ms: u64,
) -> RetryDecision {
    if class == ErrorClass::Fatal {
        RetryDecision::GiveUp
    } else if elapsed_ms >= p.max_elapsed_ms {
        RetryDecision::GiveUp
    } else {
        RetryDecision::Retry { delay_ms: spec_backoff(p, attempt) }
    }
}

pub fn retry_decision(p: &RetryPolicy, e: &TransportError, attempt: u64, elapsed_ms: u64) -> (r:
    RetryDecision)
    ensures
        r == spec_retry_decision(*p, spec_classify(*e), attempt as nat, elapsed_ms),
{
    let class = classify(e);
    if class == ErrorClass::Fatal {
        RetryDecision::GiveUp
    } else if elapsed_ms >= p.max_elapsed_ms {
        RetryDecision::GiveUp
    } else {
        RetryDecision::Retry { delay_ms: backoff_delay(p, attempt) }
    }
}

} // verus!
