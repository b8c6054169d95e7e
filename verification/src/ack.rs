//! Acknowledgement reconciler: for destinations whose ingestion is
//! confirmed out-of-band, tracks the pending acknowledgement ids of
//! accepted batches and resolves each to a final delivery status —
//! confirmed, timed out, or explicitly rejected.

use vstd::prelude::*;

use crate::aggregator::{spec_resolve, DeliveryAggregator};
use crate::batch::CompletionHandle;
use crate::status::DeliveryStatus;

verus! {

/// Per-id status reported by the destination's acknowledgement endpoint.
#[derive(Clone, Copy, Debug, PartialEq, Eq, Structural)]
pub enum AckQueryStatus {
    /// The id is durably indexed.
    Indexed,
    /// The id is known but not yet durable.
    Pending,
    /// The destination explicitly rejected the id.
    Rejected,
}

/// State of one pending acknowledgement. `Submitted` is the only
/// non-terminal state; the other three are terminal and trigger exactly
/// one completion-handle resolution.
#[derive(Clone, Copy, Debug, PartialEq, Eq, Structural)]
pub enum AckState {
    Submitted,
    Confirmed,
    TimedOut,
    Failed,
}

pub open spec fn is_terminal(s: AckState) -> bool {
    s != AckState::Submitted
}

/// One transition of the acknowledgement state machine. `report` is what
/// this poll learned about the id: `None` when the answer did not mention
/// it or the acknowledgement endpoint was unreachable, in which case the
/// entry stays submitted until its deadline passes.
pub open spec fn spec_ack_transition(
    state: AckState,
    report: Option<AckQueryStatus>,
    past_deadline: bool,
) -> AckState {
    if is_terminal(state) {
        state
    } else {
        match report {
            Some(AckQueryStatus::Indexed) => AckState::Confirmed,
            Some(AckQueryStatus::Rejected) => AckState::Failed,
            _ => if past_deadline {
                AckState::TimedOut
            } else {
                AckState::Submitted
            },
        }
    }
}

pub fn ack_transition(state: AckState, report: Option<AckQueryStatus>, past_deadline: bool) -> (s:
    AckState)
    ensures
        s == spec_ack_transition(state, report, past_deadline),
{
    match state {
        AckState::Submitted => match report {
            Some(AckQueryStatus::Indexed) => AckState::Confirmed,
            Some(AckQueryStatus::Rejected) => AckState::Failed,
            _ => if past_deadline {
                AckState::TimedOut
            } else {
                AckState::Submitted
            },
        },
        _ => state,
    }
}

/// The delivery status a terminal acknowledgement state resolves to:
/// confirmation delivers, a timeout is an unknown fate and errors, an
/// explicit rejection rejects.
pub open spec fn spec_ack_delivery_status(s: AckState) -> DeliveryStatus {
    match s {
        AckState::Confirmed => DeliveryStatus::Delivered,
        AckState::Failed => DeliveryStatus::Rejected,
        _ => DeliveryStatus::Errored,
    }
}

/// Acknowledgement state machine, in full: a terminal state is never left;
/// and from `Submitted` the machine reaches `Confirmed` exactly on a
/// durably-indexed report, `Failed` exactly on an explicit rejection, and
/// `TimedOut` exactly when the maximum wait has passed without either.
pub proof fn lemma_ack_state_machine(
    state: AckState,
    report: Option<AckQueryStatus>,
    past_deadline: bool,
)
    ensures
        is_terminal(state) ==> spec_ack_transition(state, report, past_deadline) == state,
        spec_ack_transition(AckState::Submitted, report, past_deadline) == AckState::Confirmed
            <==> report == Some(AckQueryStatus::Indexed),
        spec_ack_transition(AckState::Submitted, report, past_deadline) == AckState::Failed
            <==> report == Some(AckQueryStatus::Rejected),
        spec_ack_transition(AckState::Submitted, report, past_deadline) == AckState::TimedOut
            <==> (past_deadline && report != Some(AckQueryStatus::Indexed) && report != Some(
            AckQueryStatus::Rejected,
        )),
{
}

/// One batch awaiting asynchronous durability confirmation. It references
/// the batch's completion handle (an association, not ownership) and
/// carries the assembly-time metrics so resolution reports them unchanged.
/// Entries in the reconciler are exactly the `Submitted` ones: a terminal
/// entry is destroyed the moment it resolves.
#[derive(Clone, Copy, Debug, PartialEq, Eq, Structural)]
pub struct PendingAcknowledgement {
    pub ack_id: u64,
    pub submitted_at_ms: u64,
    pub batch_handle: CompletionHandle,
    pub event_count: usize,
    pub events_byte_size: u64,
}

/// One terminal decision of the reconciler: which handle resolves, to what
/// status, with which assembly-time metrics.
#[derive(Clone, Copy, Debug, PartialEq, Eq, Structural)]
pub struct Resolution {
    pub handle: CompletionHandle,
    pub status: DeliveryStatus,
    pub event_count: usize,
    pub events_byte_size: u64,
}

/// The first status the poll answer reports for this id, if any.
pub open spec fn spec_lookup(report: Seq<(u64, AckQueryStatus)>, id: u64) -> Option<AckQueryStatus>
    decreases report.len(),
{
    if report.len() == 0 {
        None
    } else if report.first().0 == id {
        Some(report.first().1)
    } else {
        spec_lookup(report.drop_first(), id)
    }
}

fn lookup(report: &Vec<(u64, AckQueryStatus)>, id: u64) -> (r: Option<AckQueryStatus>)
    ensures
        r == spec_lookup(report@, id),
{
    let mut i: usize = 0;
    proof {
        assert(report@.skip(0) =~= report@);
    }
    while i < report.len()
        invariant
            i <= report@.len(),
            spec_lookup(report@.skip(i as int), id) == spec_lookup(report@, id),
        decreases report@.len() - i,
    {
        proof {
            assert(report@.skip(i as int).first() == report@[i as int]);
            assert(report@.skip(i as int).drop_first() =~= report@.skip(i as int + 1));
        }
        if report[i].0 == id {
            return Some(report[i].1);
        }
        i = i + 1;
    }
    proof {
        assert(report@.skip(report@.len() as int) =~= Seq::<(u64, AckQueryStatus)>::empty());
    }
    None
}

/// Whether a batch submitted at `submitted_at_ms` has waited longer than
/// the configured maximum by time `now_ms`.
pub open spec fn spec_past_deadline(now_ms: u64, submitted_at_ms: u64, max_wait_ms: u64) -> bool {
    now_ms - submitted_at_ms > max_wait_ms
}

/// The state an entry is in after one poll at `now_ms` with this answer.
pub open spec fn spec_entry_state_after(
    e: PendingAcknowledgement,
    now_ms: u64,
    max_wait_ms: u64,
    report: Seq<(u64, AckQueryStatus)>,
) -> AckState {
    spec_ack_transition(
        AckState::Submitted,
        spec_lookup(report, e.ack_id),
        spec_past_deadline(now_ms, e.submitted_at_ms, max_wait_ms),
    )
}

/// The entries a poll tick keeps: those still submitted afterwards, in order.
pub open spec fn spec_tick_kept(
    entries: Seq<PendingAcknowledgement>,
    now_ms: u64,
    max_wait_ms: u64,
    report: Seq<(u64, AckQueryStatus)>,
) -> Seq<PendingAcknowledgement>
    decreases entries.len(),
{
    if entries.len() == 0 {
        Seq::empty()
    } else {
        let rest = spec_tick_kept(entries.drop_last(), now_ms, max_wait_ms, report);
        if spec_entry_state_after(entries.last(), now_ms, max_wait_ms, report)
            == AckState::Submitted {
            rest.push(entries.last())
        } else {
            rest
        }
    }
}

/// The resolutions a poll tick produces: one per entry that reached a
/// terminal state, in entry order, each carrying the entry's handle, the
/// status its terminal state maps to, and its assembly-time metrics.
pub open spec fn spec_tick_resolutions(
    entries: Seq<PendingAcknowledgement>,
    now_ms: u64,
    max_wait_ms: u64,
    report: Seq<(u64, AckQueryStatus)>,
) -> Seq<Resolution>
    decreases entries.len(),
{
    if entries.len() == 0 {
        Seq::empty()
    } else {
        let rest = spec_tick_resolutions(entries.drop_last(), now_ms, max_wait_ms, report);
        let st = spec_entry_state_after(entries.last(), now_ms, max_wait_ms, report);
        if st == AckState::Submitted {
            rest
        } else {
            rest.push(
                Resolution {
                    handle: entries.last().batch_handle,
                    status: spec_ack_delivery_status(st),
                    event_count: entries.last().event_count,
                    events_byte_size: entries.last().events_byte_size,
                },
            )
        }
    }
}

/// The pending-acknowledgement set. Single-writer discipline: the
/// transport side only inserts; only the poll loop mutates and removes.
pub struct AckReconciler {
    pub pending: Vec<PendingAcknowledgement>,
    pub max_wait_ms: u64,
}

impl AckReconciler {
    pub fn new(max_wait_ms: u64) -> (r: Self)
        ensures
            r.pending@.len() == 0,
            r.max_wait_ms == max_wait_ms,
    {
        AckReconciler { pending: Vec::new(), max_wait_ms }
    }

    /// Registers a batch that a destination accepted with a deferred
    /// durability confirmation.
    pub fn insert(
        &mut self,
        ack_id: u64,
        now_ms: u64,
        batch_handle: CompletionHandle,
        event_count: usize,
        events_byte_size: u64,
    )
        ensures
            final(self).max_wait_ms == old(self).max_wait_ms,
            final(self).pending@ == old(self).pending@.push(
                PendingAcknowledgement {
                    ack_id,
                    submitted_at_ms: now_ms,
                    batch_handle,
                    event_count,
                    events_byte_size,
                },
            ),
    {
        self.pending.push(
            PendingAcknowledgement {
                ack_id,
                submitted_at_ms: now_ms,
                batch_handle,
                event_count,
                events_byte_size,
            },
        );
    }

    /// One poll tick at time `now_ms`, against the acknowledgement
    /// endpoint's per-id answer (one batched query covers every pending
    /// id; an unreachable endpoint is an empty answer). Entries that reach
    /// a terminal state are removed and handed back as resolutions, in
    /// order; the rest remain submitted for the next tick, in order.
    pub fn poll_tick(&mut self, now_ms: u64, report: &Vec<(u64, AckQueryStatus)>) -> (resolutions:
        Vec<Resolution>)
        ensures
            final(self).max_wait_ms == old(self).max_wait_ms,
            final(self).pending@ == spec_tick_kept(
                old(self).pending@,
                now_ms,
                old(self).max_wait_ms,
                report@,
            ),
            resolutions@ == spec_tick_resolutions(
                old(self).pending@,
                now_ms,
                old(self).max_wait_ms,
                report@,
            ),
    {
        let ghost orig = self.pending@;
        let max_wait_ms = self.max_wait_ms;
        let mut kept: Vec<PendingAcknowledgement> = Vec::new();
        let mut resolutions: Vec<Resolution> = Vec::new();
        let n = self.pending.len();
        let mut i: usize = 0;
        while i < n
            invariant
                i <= n,
                n == orig.len(),
                self.pending@ == orig,
                max_wait_ms == old(self).max_wait_ms,
                kept@ == spec_tick_kept(orig.take(i as int), now_ms, max_wait_ms, report@),
                resolutions@ == spec_tick_resolutions(
                    orig.take(i as int),
                    now_ms,
                    max_wait_ms,
                    report@,
                ),
            decreases n - i,
        {
            let e = self.pending[i];
            proof {
                assert(orig.take(i as int + 1).drop_last() =~= orig.take(i as int));
                assert(orig.take(i as int + 1).last() == orig[i as int]);
            }
            let found = lookup(report, e.ack_id);
            let past_deadline = now_ms > e.submitted_at_ms && now_ms - e.submitted_at_ms
                > max_wait_ms;
            let state = ack_transition(AckState::Submitted, found, past_deadline);
            if state == AckState::Submitted {
                kept.push(e);
            } else {
                let status = match state {
                    AckState::Confirmed => DeliveryStatus::Delivered,
                    AckState::Failed => DeliveryStatus::Rejected,
                    _ => DeliveryStatus::Errored,
                };
                resolutions.push(
                    Resolution {
                        handle: e.batch_handle,
                        status,
                        event_count: e.event_count,
                        events_byte_size: e.events_byte_size,
                    },
                );
            }
            i = i + 1;
        }
        proof {
            assert(orig.take(n as int) =~= orig);
        }
        self.pending = kept;
        resolutions
    }

    /// Shutdown: the reconciler stops issuing poll ticks and abandons its
    /// submitted entries, returning their ids so the operator sees them as
    /// unconfirmed at shutdown rather than silently dropped.
    pub fn shutdown(&mut self) -> (unconfirmed: Vec<u64>)
        ensures
            final(self).max_wait_ms == old(self).max_wait_ms,
            final(self).pending@.len() == 0,
            unconfirmed@ == old(self).pending@.map(
                |i: int, e: PendingAcknowledgement| e.ack_id,
            ),
    {
        let mut unconfirmed: Vec<u64> = Vec::new();
        let n = self.pending.len();
        let mut i: usize = 0;
        while i < n
            invariant
                i <= n,
                n == self.pending@.len(),
                self.pending@ == old(self).pending@,
                unconfirmed@.len() == i,
                forall|j: int|
                    0 <= j < i ==> unconfirmed@[j] == self.pending@[j].ack_id,
            decreases n - i,
        {
            unconfirmed.push(self.pending[i].ack_id);
            i = i + 1;
        }
        proof {
            assert(unconfirmed@ =~= old(self).pending@.map(
                |i: int, e: PendingAcknowledgement| e.ack_id,
            ));
        }
        self.pending = Vec::new();
        unconfirmed
    }
}

/// How a sequence of reconciler resolutions lands in the aggregator's
/// table: each in turn, through the exactly-once resolution rule.
pub open spec fn spec_apply_resolutions(
    table: Seq<Option<DeliveryStatus>>,
    rs: Seq<Resolution>,
) -> Seq<Option<DeliveryStatus>>
    decreases rs.len(),
{
    if rs.len() == 0 {
        table
    } else {
        spec_apply_resolutions(
            spec_resolve(table, rs.first().handle, rs.first().status),
            rs.drop_first(),
        )
    }
}

/// Applying reconciler resolutions never overwrites an already-resolved
/// handle: a slot that holds a terminal status holds the same status
/// afterwards, however many resolutions are applied and whatever they
/// propose.
pub proof fn lemma_apply_preserves_resolved(
    table: Seq<Option<DeliveryStatus>>,
    rs: Seq<Resolution>,
    i: int,
)
    requires
        0 <= i < table.len(),
        table[i] is Some,
    ensures
        spec_apply_resolutions(table, rs).len() == table.len(),
        spec_apply_resolutions(table, rs)[i] == table[i],
    decreases rs.len(),
{
    if rs.len() > 0 {
        let t1 = spec_resolve(table, rs.first().handle, rs.first().status);
        lemma_apply_preserves_resolved(t1, rs.drop_first(), i);
    }
}

/// Applies the reconciler's terminal decisions to the aggregator. Each
/// handle resolves at most once: one that was already resolved, or that is
/// no longer live, is left untouched.
pub fn apply_resolutions(agg: &mut DeliveryAggregator, resolutions: &Vec<Resolution>)
    ensures
        final(agg)@ == spec_apply_resolutions(old(agg)@, resolutions@),
{
    let mut i: usize = 0;
    proof {
        assert(resolutions@.skip(0) =~= resolutions@);
    }
    while i < resolutions.len()
        invariant
            i <= resolutions@.len(),
            spec_apply_resolutions(agg@, resolutions@.skip(i as int)) == spec_apply_resolutions(
                old(agg)@,
                resolutions@,
            ),
        decreases resolutions@.len() - i,
    {
        let r = resolutions[i];
        proof {
            assert(resolutions@.skip(i as int).first() == resolutions@[i as int]);
            assert(resolutions@.skip(i as int).drop_first() =~= resolutions@.skip(i as int + 1));
        }
        let _ = agg.try_resolve(r.handle, r.status, r.event_count, r.events_byte_size);
        i = i + 1;
    }
    proof {
        assert(resolutions@.skip(resolutions@.len() as int) =~= Seq::<Resolution>::empty());
    }
}

/// One full reconciliation tick: polls the pending set against the
/// endpoint's answer and lands every terminal decision in the aggregator,
/// each through the exactly-once resolution rule.
pub fn reconcile_tick(
    recon: &mut AckReconciler,
    agg: &mut DeliveryAggregator,
    now_ms: u64,
    report: &Vec<(u64, AckQueryStatus)>,
)
    ensures
        final(recon).max_wait_ms == old(recon).max_wait_ms,
        final(recon).pending@ == spec_tick_kept(
            old(recon).pending@,
            now_ms,
            old(recon).max_wait_ms,
            report@,
        ),
        final(agg)@ == spec_apply_resolutions(
            old(agg)@,
            spec_tick_resolutions(old(recon).pending@, now_ms, old(recon).max_wait_ms, report@),
        ),
{
    let resolutions = recon.poll_tick(now_ms, report);
    apply_resolutions(agg, &resolutions);
}

} // verus!
