//! Batch request: one unit of dispatch work — an ordered sequence of records
//! plus the delivery metadata computed once at batch-assembly time.

use vstd::prelude::*;

use crate::record::Record;

verus! {

/// Handle through which a batch's final delivery status is reported
/// upstream; `id` indexes the delivery aggregator's resolution table. The
/// handle is an association only: it carries no ownership of the batch.
#[derive(Clone, Copy, Debug, PartialEq, Eq, Structural)]
pub struct CompletionHandle {
    pub id: usize,
}

/// Delivery metadata of one batch. Both counters are computed once by the
/// upstream batching stage and never recomputed by the dispatch core, so
/// retries cannot double-count metrics.
#[derive(Clone, Copy, Debug, PartialEq, Eq, Structural)]
pub struct Metadata {
    pub event_count: usize,
    pub events_byte_size: u64,
    pub finalizers: CompletionHandle,
}

impl Metadata {
    pub fn event_count(&self) -> (n: usize)
        ensures
            n == self.event_count,
    {
        self.event_count
    }

    pub fn events_estimated_json_encoded_byte_size(&self) -> (n: u64)
        ensures
            n == self.events_byte_size,
    {
        self.events_byte_size
    }
}

/// One unit of dispatch work: the records of one batch together with the
/// metadata describing them. The batch owns its records until the transport
/// service consumes them.
pub struct BatchRequest<R: Record> {
    pub events: Vec<R>,
    pub metadata: Metadata,
}

impl<R: Record> BatchRequest<R> {
    /// The assembly-time invariant: the recorded event count equals the
    /// length of the record sequence.
    pub open spec fn well_formed(&self) -> bool {
        self.metadata.event_count == self.events@.len()
    }

    /// Assembles a batch; the event count is taken from the record sequence
    /// here, exactly once.
    pub fn new(events: Vec<R>, events_byte_size: u64, finalizers: CompletionHandle) -> (b: Self)
        ensures
            b.events == events,
            b.metadata.event_count == events@.len(),
            b.metadata.events_byte_size == events_byte_size,
            b.metadata.finalizers == finalizers,
            b.well_formed(),
    {
        let event_count = events.len();
        BatchRequest { events, metadata: Metadata { event_count, events_byte_size, finalizers } }
    }

    pub fn get_metadata(&self) -> (m: Metadata)
        ensures
            m == self.metadata,
    {
        self.metadata
    }

    pub fn events(&self) -> (r: &Vec<R>)
        ensures
            r == &self.events,
    {
        &self.events
    }
}

} // verus!
