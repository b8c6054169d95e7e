//! Streaming-put transport service: maps a batch to the destination's
//! record-array wire request and folds the send result into the uniform
//! response contract. The asynchronous network send itself happens outside
//! the dispatch core, between the two phases modelled here.

use vstd::prelude::*;

use crate::batch::BatchRequest;
use crate::client::ClientHandle;
use crate::limiter::PollOutcome;
use crate::record::{wire_seq, Record};
use crate::retry::TransportError;
use crate::status::{CountByteSize, DeliveryStatus};

verus! {

/// Transport service for a streaming-put destination: a shared client
/// handle plus the destination coordinates, written once against the
/// record contract and instantiated per concrete wire-record type.
pub struct KinesisService {
    pub client: ClientHandle,
    pub stream_name: String,
    pub region: Option<String>,
}

impl Clone for KinesisService {
    /// Cloning copies the cheap shared client handle and the destination
    /// coordinates; a clone is indistinguishable from the original.
    fn clone(&self) -> (r: Self)
        ensures
            r == *self,
    {
        let region = match &self.region {
            Some(rg) => Some(rg.clone()),
            None => None,
        };
        KinesisService { client: self.client, stream_name: self.stream_name.clone(), region }
    }
}

/// A wire request ready to send: everything the asynchronous network send
/// needs, fixed before the call and immutable afterwards, together with
/// the metrics the response must carry back.
pub struct PreparedCall<W> {
    pub records: Vec<W>,
    pub stream_name: String,
    pub client: ClientHandle,
    pub count: usize,
    pub events_byte_size: u64,
}

/// Response of a successful streaming-put call; carries the metrics to
/// report when the batch resolves.
pub struct KinesisResponse {
    count: usize,
    events_byte_size: u64,
}

impl KinesisResponse {
    pub closed spec fn spec_count(&self) -> usize {
        self.count
    }

    pub closed spec fn spec_events_byte_size(&self) -> u64 {
        self.events_byte_size
    }

    /// A successful streaming-put response always means the whole batch
    /// was delivered; partial rejection never reaches this type.
    pub fn event_status(&self) -> (s: DeliveryStatus)
        ensures
            s == DeliveryStatus::Delivered,
    {
        DeliveryStatus::Delivered
    }

    /// The metrics exactly as the response carries them — which, by the
    /// contract of `KinesisService::call`, are the batch's assembly-time
    /// metadata, unchanged by retries.
    pub fn events_sent(&self) -> (c: CountByteSize)
        ensures
            c == CountByteSize(self.spec_count(), self.spec_events_byte_size()),
    {
        CountByteSize(self.count, self.events_byte_size)
    }
}

impl KinesisService {
    /// The destination-facing service applies no backpressure of its own;
    /// the in-flight concurrency limit is enforced by the middleware
    /// layered around it.
    pub fn poll_ready(&self) -> (r: PollOutcome)
        ensures
            r == PollOutcome::Ready,
    {
        PollOutcome::Ready
    }

    /// Synchronous phase of a call: projects every record of the batch to
    /// its wire type, in order, and captures the assembly-time metrics
    /// together with the shared client handle and stream name. Nothing
    /// here blocks; the network send happens afterwards, fed exactly this
    /// prepared payload.
    pub fn call<R: Record>(&self, requests: BatchRequest<R>) -> (c: PreparedCall<R::Wire>)
        ensures
            c.records@ == wire_seq(requests.events@),
            c.count == requests.metadata.event_count,
            c.events_byte_size == requests.metadata.events_byte_size,
            c.stream_name == self.stream_name,
            c.client == self.client,
    {
        let ghost orig = requests.events@;
        let BatchRequest { mut events, metadata } = requests;
        let events_byte_size = metadata.events_estimated_json_encoded_byte_size();
        let count = metadata.event_count();
        let mut records: Vec<R::Wire> = Vec::new();
        while events.len() > 0
            invariant
                records@.len() + events@.len() == orig.len(),
                events@ == orig.skip(records@.len() as int),
                forall|j: int| 0 <= j < records@.len() ==> records@[j] == orig[j].wire(),
            decreases events@.len(),
        {
            let ghost k = records@.len() as int;
            let ev = events.remove(0);
            proof {
                assert(ev == orig.skip(k)[0]);
                assert(orig.skip(k)[0] == orig[k]);
                assert(orig.skip(k).remove(0) =~= orig.skip(k + 1));
            }
            let w = ev.get();
            records.push(w);
        }
        proof {
            assert(records@ =~= wire_seq(orig));
        }
        PreparedCall {
            records,
            stream_name: self.stream_name.clone(),
            client: self.client,
            count,
            events_byte_size,
        }
    }
}

/// Folds what the network send returned into the service's response: a
/// reported error fails the whole batch as one unit, and success yields a
/// response carrying exactly the metrics the prepared call fixed.
pub fn finish_call(count: usize, events_byte_size: u64, send_error: Option<TransportError>) -> (r:
    Result<KinesisResponse, TransportError>)
    ensures
        match send_error {
            Some(e) => r == Result::<KinesisResponse, TransportError>::Err(e),
            None => {
                &&& r is Ok
                &&& r->Ok_0.spec_count() == count
                &&& r->Ok_0.spec_events_byte_size() == events_byte_size
            },
        },
{
    match send_error {
        Some(e) => Err(e),
        None => Ok(KinesisResponse { count, events_byte_size }),
    }
}

/// Surfaces partial-record rejection inside a nominally successful
/// streaming-put response — the destination reports per-entry failure
/// counts — as a batch-level error, never as a per-record outcome:
/// upstream expects all-or-nothing batch semantics at this layer.
pub fn check_put_response(failed_count: usize) -> (r: Option<TransportError>)
    ensures
        failed_count == 0 ==> r is None,
        failed_count > 0 ==> r == Some(TransportError::PartialRejection { failed_count }),
{
    if failed_count == 0 {
        None
    } else {
        Some(TransportError::PartialRejection { failed_count })
    }
}

/// Retry idempotence of the input: the prepared payload is a function of
/// the batch's records alone, so any two calls prepared from the same,
/// unmutated batch — a first attempt and a retry — carry identical wire
/// records.
pub proof fn lemma_retry_sends_identical_payload<R: Record>(
    b: BatchRequest<R>,
    first: PreparedCall<R::Wire>,
    second: PreparedCall<R::Wire>,
)
    requires
        first.records@ == wire_seq(b.events@),
        second.records@ == wire_seq(b.events@),
    ensures
        first.records@ == second.records@,
{
}

} // verus!
