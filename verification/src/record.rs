//! Record abstraction: the capability contract that keeps the dispatch core
//! transport-agnostic over the concrete wire-record type.

use vstd::prelude::*;

verus! {

/// Capability contract every wire record satisfies: an associated
/// transport-specific wire type and a pure projection onto it. Records are
/// `Clone`-able so batches can be split or retried without re-encoding.
pub trait Record: Sized + Clone {
    /// The transport-specific wire representation this record projects to.
    type Wire;

    /// The wire value this record stands for.
    spec fn wire(&self) -> Self::Wire;

    /// Consumes the record and yields its wire representation; a pure data
    /// projection with no side effects.
    fn get(self) -> (w: Self::Wire)
        ensures
            w == self.wire(),
    ;
}

/// The full wire payload that a sequence of records projects to, in order.
pub open spec fn wire_seq<R: Record>(events: Seq<R>) -> Seq<R::Wire> {
    events.map(|i: int, r: R| r.wire())
}

/// One entry of a streaming-put request: payload bytes plus the routing key
/// the destination shards on.
#[derive(Clone, Debug)]
pub struct PutEntry {
    pub data: Vec<u8>,
    pub routing_key: String,
}

/// Record for streaming-put destinations: already-encoded event bytes and a
/// routing key, projected one-for-one into a request array entry.
#[derive(Clone, Debug)]
pub struct StreamRecord {
    pub data: Vec<u8>,
    pub routing_key: String,
}

impl Record for StreamRecord {
    type Wire = PutEntry;

    open spec fn wire(&self) -> PutEntry {
        PutEntry { data: self.data, routing_key: self.routing_key }
    }

    fn get(self) -> (w: PutEntry) {
        PutEntry { data: self.data, routing_key: self.routing_key }
    }
}

/// Record for bulk-ingest HTTP destinations: one newline-delimited chunk of
/// the request body.
#[derive(Clone, Debug)]
pub struct HecChunk {
    pub body: Vec<u8>,
}

impl Record for HecChunk {
    type Wire = Vec<u8>;

    open spec fn wire(&self) -> Vec<u8> {
        self.body
    }

    fn get(self) -> (w: Vec<u8>) {
        self.body
    }
}

} // verus!
