//! In-flight concurrency limiter: the backpressure half of the transport
//! service contract. Once the configured number of calls is in flight,
//! readiness polling reports `Pending` until an outstanding call completes.

use vstd::prelude::*;

verus! {

/// Outcome of polling the transport service for readiness.
#[derive(Clone, Copy, Debug, PartialEq, Eq, Structural)]
pub enum PollOutcome {
    /// Capacity is available; a call may be started.
    Ready,
    /// The concurrency budget is exhausted; the caller must wait.
    Pending,
}

/// Tracks how many transport calls are in flight against the configured
/// in-flight limit.
#[derive(Clone, Copy, Debug, PartialEq, Eq, Structural)]
pub struct ConcurrencyLimiter {
    pub limit: usize,
    pub in_flight: usize,
}

/// What readiness polling reports: `Ready` exactly when the number of calls
/// in flight is below the limit.
pub open spec fn spec_poll_ready(s: ConcurrencyLimiter) -> PollOutcome {
    if s.in_flight < s.limit {
        PollOutcome::Ready
    } else {
        PollOutcome::Pending
    }
}

/// Admitting one call increments the in-flight count.
pub open spec fn spec_start(s: ConcurrencyLimiter) -> ConcurrencyLimiter {
    ConcurrencyLimiter { limit: s.limit, in_flight: (s.in_flight + 1) as usize }
}

/// Completing one call decrements the in-flight count.
pub open spec fn spec_finish(s: ConcurrencyLimiter) -> ConcurrencyLimiter {
    ConcurrencyLimiter { limit: s.limit, in_flight: (s.in_flight - 1) as usize }
}

impl ConcurrencyLimiter {
    /// The count of calls in flight never exceeds the configured limit.
    pub open spec fn well_formed(&self) -> bool {
        self.in_flight <= self.limit
    }

    pub fn new(limit: usize) -> (s: Self)
        ensures
            s.limit == limit,
            s.in_flight == 0,
            s.well_formed(),
    {
        ConcurrencyLimiter { limit, in_flight: 0 }
    }

    /// Backpressure signal: `Ready` if and only if capacity remains.
    pub fn poll_ready(&self) -> (r: PollOutcome)
        ensures
            r == spec_poll_ready(*self),
    {
        if self.in_flight < self.limit {
            PollOutcome::Ready
        } else {
            PollOutcome::Pending
        }
    }

    /// Admits one call. Callers must have observed `Ready`, which is what
    /// keeps the in-flight count within the limit.
    pub fn start(&mut self)
        requires
            old(self).in_flight < old(self).limit,
        ensures
            *final(self) == spec_start(*old(self)),
            final(self).well_formed(),
    {
        self.in_flight = self.in_flight + 1;
    }

    /// Records completion of one in-flight call, freeing capacity.
    pub fn finish(&mut self)
        requires
            old(self).in_flight > 0,
        ensures
            *final(self) == spec_finish(*old(self)),
            old(self).well_formed() ==> final(self).well_formed(),
    {
        self.in_flight = self.in_flight - 1;
    }
}

/// Backpressure correctness: once in-flight concurrency reaches the
/// configured limit, readiness polling reports `Pending` until an
/// outstanding call completes, and admitting a call only while `Ready`
/// keeps the in-flight count from ever exceeding the limit.
pub proof fn lemma_backpressure(s: ConcurrencyLimiter)
    requires
        s.well_formed(),
    ensures
        s.in_flight == s.limit ==> spec_poll_ready(s) == PollOutcome::Pending,
        spec_poll_ready(s) == PollOutcome::Ready ==> spec_start(s).well_formed(),
        s.in_flight > 0 ==> spec_poll_ready(spec_finish(s)) == PollOutcome::Ready,
{
}

} // verus!
