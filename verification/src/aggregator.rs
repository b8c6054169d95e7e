//! Delivery result aggregator: the single point where a batch's outcome
//! becomes an observable delivery status plus metrics. Each completion
//! handle resolves to a terminal status exactly once; afterwards no
//! component can resolve it again.

use vstd::prelude::*;

use crate::batch::CompletionHandle;
use crate::status::{report_for, spec_report, BatchReport, DeliveryStatus};

verus! {

/// Resolution table of all batches in flight: one slot per completion
/// handle, `None` while the batch is undecided, `Some` once — and only
/// once — a terminal status was reported.
pub struct DeliveryAggregator {
    pub resolved: Vec<Option<DeliveryStatus>>,
}

impl View for DeliveryAggregator {
    type V = Seq<Option<DeliveryStatus>>;

    open spec fn view(&self) -> Seq<Option<DeliveryStatus>> {
        self.resolved@
    }
}

/// What resolving a handle does to the resolution table: only a live,
/// still-unresolved slot changes, and it changes to the proposed terminal
/// status; every other table is left exactly as it was.
pub open spec fn spec_resolve(
    table: Seq<Option<DeliveryStatus>>,
    h: CompletionHandle,
    status: DeliveryStatus,
) -> Seq<Option<DeliveryStatus>> {
    if h.id < table.len() && table[h.id as int] is None {
        table.update(h.id as int, Some(status))
    } else {
        table
    }
}

impl DeliveryAggregator {
    /// The handle points at a slot of this table.
    pub open spec fn handle_live(&self, h: CompletionHandle) -> bool {
        h.id < self@.len()
    }

    /// The handle's batch already received its terminal status.
    pub open spec fn is_resolved(&self, h: CompletionHandle) -> bool {
        self.handle_live(h) && self@[h.id as int] is Some
    }

    pub fn new() -> (a: Self)
        ensures
            a@.len() == 0,
    {
        DeliveryAggregator { resolved: Vec::new() }
    }

    /// Issues the completion handle for one new batch, initially unresolved.
    pub fn new_handle(&mut self) -> (h: CompletionHandle)
        ensures
            final(self)@ == old(self)@.push(None),
            h.id == old(self)@.len(),
            final(self).handle_live(h),
            !final(self).is_resolved(h),
    {
        let id = self.resolved.len();
        self.resolved.push(None);
        CompletionHandle { id }
    }

    /// Resolves a batch to its terminal status and emits its metrics
    /// report. The precondition demands an unresolved handle: this is the
    /// exactly-once contract every caller is held to.
    pub fn resolve(
        &mut self,
        h: CompletionHandle,
        status: DeliveryStatus,
        count: usize,
        events_byte_size: u64,
    ) -> (r: BatchReport)
        requires
            old(self).handle_live(h),
            !old(self).is_resolved(h),
        ensures
            final(self)@ == spec_resolve(old(self)@, h, status),
            final(self).is_resolved(h),
            r == spec_report(status, count, events_byte_size),
    {
        self.resolved.set(h.id, Some(status));
        report_for(status, count, events_byte_size)
    }

    /// Total variant for callers that cannot know the handle's state, such
    /// as an acknowledgement poll racing a shutdown: resolves only a live,
    /// unresolved handle and says whether it did; any other table is left
    /// untouched, so a second resolution can never happen.
    pub fn try_resolve(
        &mut self,
        h: CompletionHandle,
        status: DeliveryStatus,
        count: usize,
        events_byte_size: u64,
    ) -> (r: Option<BatchReport>)
        ensures
            final(self)@ == spec_resolve(old(self)@, h, status),
            r is Some <==> old(self).handle_live(h) && !old(self).is_resolved(h),
            r is Some ==> r == Some(spec_report(status, count, events_byte_size)),
    {
        if h.id < self.resolved.len() {
            if self.resolved[h.id].is_none() {
                let rep = self.resolve(h, status, count, events_byte_size);
                return Some(rep);
            }
        }
        None
    }
}

/// Exactly-once resolution: resolving an unresolved handle marks it with
/// the proposed status, and from then on every further resolution attempt
/// on that handle — whatever status it proposes — leaves the whole table
/// unchanged. No handle can ever be resolved twice.
pub proof fn lemma_exactly_once(
    table: Seq<Option<DeliveryStatus>>,
    h: CompletionHandle,
    s1: DeliveryStatus,
    s2: DeliveryStatus,
)
    requires
        h.id < table.len(),
        table[h.id as int] is None,
    ensures
        spec_resolve(table, h, s1)[h.id as int] == Some(s1),
        spec_resolve(spec_resolve(table, h, s1), h, s2) == spec_resolve(table, h, s1),
{
}

/// Resolution is local: it never touches any other handle's slot.
pub proof fn lemma_resolve_frame(
    table: Seq<Option<DeliveryStatus>>,
    h: CompletionHandle,
    status: DeliveryStatus,
    other: int,
)
    requires
        0 <= other < table.len(),
        other != h.id,
    ensures
        spec_resolve(table, h, status)[other] == table[other],
{
}

} // verus!
