//! The retry-wrapped dispatch driver: folds a batch's successive transport
//! outcomes into a terminal delivery status, respecting the error taxonomy
//! and the configured backoff budget, and resolves the batch's completion
//! handle exactly once. The network sends themselves happen outside; this
//! is the decision core they are driven by.

use vstd::prelude::*;

use crate::aggregator::{spec_resolve, DeliveryAggregator};
use crate::batch::Metadata;
use crate::retry::{
    retry_decision, spec_classify, spec_retry_decision, RetryDecision, RetryPolicy, TransportError,
};
use crate::status::{spec_report, BatchReport, DeliveryStatus};

verus! {

/// What one transport attempt for a batch came back with.
#[derive(Clone, Copy, Debug, PartialEq, Eq, Structural)]
pub enum AttemptOutcome {
    /// The destination accepted the whole batch.
    Accepted,
    /// The call failed with the given transport error.
    Failed { error: TransportError },
}

/// Progress of one batch through the retry middleware: attempts made so
/// far, backoff time spent, and the terminal status once decided.
#[derive(Clone, Copy, Debug, PartialEq, Eq, Structural)]
pub struct DispatchState {
    pub attempts: u64,
    pub elapsed_ms: u64,
    pub outcome: Option<DeliveryStatus>,
}

pub open spec fn spec_initial_state() -> DispatchState {
    DispatchState { attempts: 0, elapsed_ms: 0, outcome: None }
}

pub fn initial_state() -> (s: DispatchState)
    ensures
        s == spec_initial_state(),
{
    DispatchState { attempts: 0, elapsed_ms: 0, outcome: None }
}

/// One step of the retry middleware. A dispatch that already reached a
/// terminal status is frozen. Otherwise the attempt is counted; acceptance
/// delivers the batch, a fatal error or an exhausted backoff budget ends it
/// as errored, and a retriable error adds the backoff delay to the elapsed
/// time and leaves the dispatch undecided.
pub open spec fn spec_dispatch_step(
    p: RetryPolicy,
    st: DispatchState,
    o: AttemptOutcome,
) -> DispatchState {
    if st.outcome is Some {
        st
    } else {
        let attempts = (st.attempts + 1) as u64;
        match o {
            AttemptOutcome::Accepted => DispatchState {
                attempts,
                elapsed_ms: st.elapsed_ms,
                outcome: Some(DeliveryStatus::Delivered),
            },
            AttemptOutcome::Failed { error } => match spec_retry_decision(
                p,
                spec_classify(error),
                attempts as nat,
                st.elapsed_ms,
            ) {
                RetryDecision::GiveUp => DispatchState {
                    attempts,
                    elapsed_ms: st.elapsed_ms,
                    outcome: Some(DeliveryStatus::Errored),
                },
                RetryDecision::Retry { delay_ms } => DispatchState {
                    attempts,
                    elapsed_ms: if st.elapsed_ms + delay_ms <= u64::MAX {
                        (st.elapsed_ms + delay_ms) as u64
                    } else {
                        u64::MAX
                    },
                    outcome: None,
                },
            },
        }
    }
}

pub fn dispatch_step(p: &RetryPolicy, st: DispatchState, o: &AttemptOutcome) -> (r: DispatchState)
    requires
        st.attempts < u64::MAX,
    ensures
        r == spec_dispatch_step(*p, st, *o),
        r.attempts <= st.attempts + 1,
{
    if st.outcome.is_some() {
        return st;
    }
    let attempts = st.attempts + 1;
    match o {
        AttemptOutcome::Accepted => DispatchState {
            attempts,
            elapsed_ms: st.elapsed_ms,
            outcome: Some(DeliveryStatus::Delivered),
        },
        AttemptOutcome::Failed { error } => {
            match retry_decision(p, error, attempts, st.elapsed_ms) {
                RetryDecision::GiveUp => DispatchState {
                    attempts,
                    elapsed_ms: st.elapsed_ms,
                    outcome: Some(DeliveryStatus::Errored),
                },
                RetryDecision::Retry { delay_ms } => {
                    let elapsed_ms = if st.elapsed_ms <= u64::MAX - delay_ms {
                        st.elapsed_ms + delay_ms
                    } else {
                        u64::MAX
                    };
                    DispatchState { attempts, elapsed_ms, outcome: None }
                },
            }
        },
    }
}

/// The whole retry loop of one batch, as a fold of `spec_dispatch_step`
/// over the trace of transport outcomes, in order.
pub open spec fn spec_drive(
    p: RetryPolicy,
    outcomes: Seq<AttemptOutcome>,
    st: DispatchState,
) -> DispatchState
    decreases outcomes.len(),
{
    if outcomes.len() == 0 {
        st
    } else {
        spec_drive(p, outcomes.drop_first(), spec_dispatch_step(p, st, outcomes.first()))
    }
}

/// Drives one batch through the retry middleware against the given trace
/// of transport outcomes. Outcomes after the terminal decision cannot
/// change it; the attempt count never exceeds the trace length.
pub fn drive_attempts(p: &RetryPolicy, outcomes: &Vec<AttemptOutcome>) -> (st: DispatchState)
    ensures
        st == spec_drive(*p, outcomes@, spec_initial_state()),
        st.attempts <= outcomes@.len(),
{
    let mut st = initial_state();
    let mut i: usize = 0;
    proof {
        assert(outcomes@.skip(0) =~= outcomes@);
    }
    while i < outcomes.len()
        invariant
            i <= outcomes@.len(),
            st.attempts <= i,
            spec_drive(*p, outcomes@.skip(i as int), st) == spec_drive(
                *p,
                outcomes@,
                spec_initial_state(),
            ),
        decreases outcomes@.len() - i,
    {
        let o = outcomes[i];
        proof {
            assert(outcomes@.skip(i as int).first() == outcomes@[i as int]);
            assert(outcomes@.skip(i as int).drop_first() =~= outcomes@.skip(i as int + 1));
        }
        st = dispatch_step(p, st, &o);
        i = i + 1;
    }
    proof {
        assert(outcomes@.skip(outcomes@.len() as int) =~= Seq::<AttemptOutcome>::empty());
    }
    st
}

/// Exactly-once resolution, driver side: a dispatch that has reached its
/// terminal status is frozen — no further transport outcome changes it.
pub proof fn lemma_terminal_absorbing(p: RetryPolicy, st: DispatchState, o: AttemptOutcome)
    requires
        st.outcome is Some,
    ensures
        spec_dispatch_step(p, st, o) == st,
{
}

/// The same, over a whole trace: once terminal, a dispatch stays exactly
/// as it is however many further outcomes arrive.
pub proof fn lemma_drive_terminal_absorbing(
    p: RetryPolicy,
    outcomes: Seq<AttemptOutcome>,
    st: DispatchState,
)
    requires
        st.outcome is Some,
    ensures
        spec_drive(p, outcomes, st) == st,
    decreases outcomes.len(),
{
    if outcomes.len() > 0 {
        lemma_drive_terminal_absorbing(p, outcomes.drop_first(), st);
    }
}

/// The dispatch decides: a trace that contains an accepted attempt never
/// leaves the batch undecided — together with the absorbing lemmas, its
/// completion handle receives a terminal status exactly once, however
/// many retries came before.
pub proof fn lemma_accepted_attempt_decides(
    p: RetryPolicy,
    outcomes: Seq<AttemptOutcome>,
    st: DispatchState,
)
    requires
        exists|i: int| 0 <= i < outcomes.len() && outcomes[i] == AttemptOutcome::Accepted,
    ensures
        spec_drive(p, outcomes, st).outcome is Some,
    decreases outcomes.len(),
{
    if st.outcome is Some {
        lemma_drive_terminal_absorbing(p, outcomes, st);
    } else {
        let st1 = spec_dispatch_step(p, st, outcomes.first());
        if st1.outcome is Some {
            lemma_drive_terminal_absorbing(p, outcomes.drop_first(), st1);
        } else {
            let i = choose|i: int|
                0 <= i < outcomes.len() && outcomes[i] == AttemptOutcome::Accepted;
            assert(i != 0);
            assert(outcomes.drop_first()[i - 1] == AttemptOutcome::Accepted);
            lemma_accepted_attempt_decides(p, outcomes.drop_first(), st1);
        }
    }
}

/// A fatal error is never retried: the first fatal outcome ends an
/// undecided dispatch as errored after exactly this one more attempt.
pub proof fn lemma_fatal_never_retried(p: RetryPolicy, st: DispatchState, error: TransportError)
    requires
        st.outcome is None,
        st.attempts < u64::MAX,
        spec_classify(error) == crate::retry::ErrorClass::Fatal,
    ensures
        spec_dispatch_step(p, st, AttemptOutcome::Failed { error }) == (DispatchState {
            attempts: (st.attempts + 1) as u64,
            elapsed_ms: st.elapsed_ms,
            outcome: Some(DeliveryStatus::Errored),
        }),
{
}

/// Dispatches one batch for a synchronous-acknowledgement destination:
/// drives the retry loop over the outcome trace and, if a terminal status
/// was reached, resolves the batch's completion handle exactly once with
/// the metrics fixed at assembly time — unchanged by however many retries
/// the trace contains. An undecided trace leaves the aggregator untouched.
pub fn dispatch_batch(
    p: &RetryPolicy,
    agg: &mut DeliveryAggregator,
    metadata: Metadata,
    outcomes: &Vec<AttemptOutcome>,
) -> (r: (DispatchState, Option<BatchReport>))
    requires
        old(agg).handle_live(metadata.finalizers),
        !old(agg).is_resolved(metadata.finalizers),
    ensures
        r.0 == spec_drive(*p, outcomes@, spec_initial_state()),
        match r.0.outcome {
            Some(status) => {
                &&& final(agg)@ == spec_resolve(old(agg)@, metadata.finalizers, status)
                &&& final(agg).is_resolved(metadata.finalizers)
                &&& r.1 == Some(
                    spec_report(status, metadata.event_count, metadata.events_byte_size),
                )
            },
            None => final(agg)@ == old(agg)@ && r.1 is None,
        },
{
    let st = drive_attempts(p, outcomes);
    match st.outcome {
        Some(status) => {
            let rep = agg.resolve(
                metadata.finalizers,
                status,
                metadata.event_count,
                metadata.events_byte_size,
            );
            (st, Some(rep))
        },
        None => (st, None),
    }
}

} // verus!
