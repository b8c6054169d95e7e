//! Bulk-ingest HTTP log sink: its configuration, consumed as plain,
//! already-validated values; the assembly of its processor; and the
//! routing of successful responses, which either resolve a batch at once
//! or hand it to the acknowledgement reconciler.

use vstd::prelude::*;

use crate::ack::{AckReconciler, PendingAcknowledgement};
use crate::aggregator::{spec_resolve, DeliveryAggregator};
use crate::batch::{BatchRequest, CompletionHandle};
use crate::client::ClientHandle;
use crate::record::{HecChunk, Record};
use crate::retry::RetryPolicy;
use crate::status::{spec_report, BatchReport, DeliveryStatus};

verus! {

/// Bit of the data-type mask for log events.
pub const DATA_TYPE_LOG: u8 = 1;

/// Bit of the data-type mask for metric events.
pub const DATA_TYPE_METRIC: u8 = 2;

/// Bit of the data-type mask for trace events.
pub const DATA_TYPE_TRACE: u8 = 4;

/// Which endpoint family of the destination requests are sent to.
#[derive(Clone, Copy, Debug, PartialEq, Eq, Structural)]
pub enum EndpointTarget {
    /// The structured event endpoint.
    Event,
    /// The raw-text endpoint.
    Raw,
}

/// The endpoint target used when the configuration names none.
pub fn default_endpoint_target() -> (t: EndpointTarget)
    ensures
        t == EndpointTarget::Event,
{
    EndpointTarget::Event
}

/// Wire compression applied to request bodies; the compression algorithm
/// itself is an outside collaborator.
#[derive(Clone, Copy, Debug, PartialEq, Eq, Structural)]
pub enum Compression {
    Uncompressed,
    Gzip,
    Zlib,
}

impl Default for Compression {
    fn default() -> (c: Self)
        ensures
            c == Compression::Uncompressed,
    {
        Compression::Uncompressed
    }
}

/// Which codec the encoding collaborator was configured with; serializing
/// individual events is outside the dispatch core.
#[derive(Clone, Copy, Debug, PartialEq, Eq, Structural)]
pub enum CodecKind {
    Text,
    Json,
}

/// Encoding configuration at the boundary: the chosen codec and the
/// data-type mask of events that codec accepts.
#[derive(Clone, Copy, Debug, PartialEq, Eq, Structural)]
pub struct EncodingConfig {
    pub codec: CodecKind,
    pub input_type_mask: u8,
}

/// The kinds of events a sink consumes, as a data-type mask.
#[derive(Clone, Copy, Debug, PartialEq, Eq, Structural)]
pub struct Input {
    pub data_type_mask: u8,
}

/// Whether upstream end-to-end acknowledgement is enabled for this sink.
#[derive(Clone, Copy, Debug, PartialEq, Eq, Structural)]
pub struct AcknowledgementsConfig {
    pub enabled: Option<bool>,
}

impl AcknowledgementsConfig {
    pub open spec fn spec_default() -> Self {
        AcknowledgementsConfig { enabled: None }
    }
}

impl Default for AcknowledgementsConfig {
    fn default() -> (c: Self)
        ensures
            c == AcknowledgementsConfig::spec_default(),
    {
        AcknowledgementsConfig { enabled: None }
    }
}

/// Indexer-acknowledgement settings: whether accepted batches must wait
/// for an out-of-band durability confirmation, how often the
/// acknowledgement endpoint is polled, and how many polls are made before
/// an entry counts as timed out.
#[derive(Clone, Copy, Debug, PartialEq, Eq, Structural)]
pub struct HecClientAcknowledgementsConfig {
    pub indexer_acknowledgements_enabled: bool,
    pub query_interval_secs: u8,
    pub retry_limit: u8,
    pub inner: AcknowledgementsConfig,
}

impl HecClientAcknowledgementsConfig {
    pub open spec fn spec_default() -> Self {
        HecClientAcknowledgementsConfig {
            indexer_acknowledgements_enabled: true,
            query_interval_secs: 10,
            retry_limit: 30,
            inner: AcknowledgementsConfig::spec_default(),
        }
    }

    /// The maximum total wait for a confirmation before a pending entry
    /// times out: the poll interval times the number of polls allowed.
    pub fn max_pending_wait_ms(&self) -> (w: u64)
        ensures
            w == self.query_interval_secs as u64 * self.retry_limit as u64 * 1000,
    {
        let q = self.query_interval_secs as u64;
        let r = self.retry_limit as u64;
        proof {
            assert(q * r <= 65025) by (nonlinear_arith)
                requires
                    q <= 255,
                    r <= 255,
            ;
            assert(q * r * 1000 <= 65025000) by (nonlinear_arith)
                requires
                    q * r <= 65025,
            ;
        }
        q * r * 1000
    }
}

impl Default for HecClientAcknowledgementsConfig {
    fn default() -> (c: Self)
        ensures
            c == HecClientAcknowledgementsConfig::spec_default(),
    {
        HecClientAcknowledgementsConfig {
            indexer_acknowledgements_enabled: true,
            query_interval_secs: 10,
            retry_limit: 30,
            inner: AcknowledgementsConfig { enabled: None },
        }
    }
}

/// Retry and concurrency settings of the middleware stack wrapped around
/// the destination service. The numeric defaults are configuration, not
/// dispatch rules.
#[derive(Clone, Copy, Debug, PartialEq, Eq, Structural)]
pub struct RequestConfig {
    pub max_in_flight: usize,
    pub retry: RetryPolicy,
}

impl RequestConfig {
    pub open spec fn spec_default() -> Self {
        RequestConfig {
            max_in_flight: 25,
            retry: RetryPolicy {
                initial_backoff_ms: 1000,
                max_backoff_ms: 30000,
                max_elapsed_ms: 3600000,
            },
        }
    }
}

impl Default for RequestConfig {
    fn default() -> (c: Self)
        ensures
            c == RequestConfig::spec_default(),
    {
        RequestConfig {
            max_in_flight: 25,
            retry: RetryPolicy {
                initial_backoff_ms: 1000,
                max_backoff_ms: 30000,
                max_elapsed_ms: 3600000,
            },
        }
    }
}

/// Batch-assembly limits, enforced by the upstream batching collaborator;
/// the dispatch core only carries them through.
#[derive(Clone, Copy, Debug, PartialEq, Eq, Structural)]
pub struct BatchSettings {
    pub max_bytes: u64,
    pub max_events: usize,
    pub timeout_ms: u64,
}

impl BatchSettings {
    pub open spec fn spec_default() -> Self {
        BatchSettings { max_bytes: 1000000, max_events: 1000, timeout_ms: 1000 }
    }
}

impl Default for BatchSettings {
    fn default() -> (c: Self)
        ensures
            c == BatchSettings::spec_default(),
    {
        BatchSettings { max_bytes: 1000000, max_events: 1000, timeout_ms: 1000 }
    }
}

/// Transport-security settings handed to the client constructor, an
/// outside collaborator.
#[derive(Clone, Copy, Debug, PartialEq, Eq, Structural)]
pub struct TlsConfig {
    pub verify_certificate: bool,
}

/// A configuration rejected at build time.
#[derive(Clone, Copy, Debug, PartialEq, Eq, Structural)]
pub enum ConfigError {
    /// `auto_extract_timestamp` applies only to the event endpoint.
    AutoExtractTimestampWithRawEndpoint,
}

/// Configuration of the bulk-ingest HTTP log sink, consumed here as
/// plain, already-validated values. Templates, key paths and the secret
/// token appear as their configured strings.
pub struct HecLogsSinkConfig {
    pub default_token: String,
    pub endpoint: String,
    pub host_key: String,
    pub indexed_fields: Vec<String>,
    pub index: Option<String>,
    pub sourcetype: Option<String>,
    pub source: Option<String>,
    pub encoding: EncodingConfig,
    pub compression: Compression,
    pub batch: BatchSettings,
    pub request: RequestConfig,
    pub tls: Option<TlsConfig>,
    pub acknowledgements: HecClientAcknowledgementsConfig,
    pub timestamp_nanos_key: Option<String>,
    pub timestamp_key: Option<String>,
    pub auto_extract_timestamp: Option<bool>,
    pub endpoint_target: EndpointTarget,
}

/// The bulk-ingest HTTP service: the shared client, the acknowledgement
/// client — present exactly when indexer acknowledgements are enabled —
/// and the request coordinates every call is built from.
pub struct HecService {
    pub http_client: ClientHandle,
    pub ack_client: Option<ClientHandle>,
    pub endpoint: String,
    pub endpoint_target: EndpointTarget,
    pub default_token: String,
    pub compression: Compression,
    pub acknowledgements: HecClientAcknowledgementsConfig,
}

/// Request-builder settings fixed at processor-build time.
#[derive(Clone, Copy, Debug, PartialEq, Eq, Structural)]
pub struct HecLogsRequestBuilder {
    pub compression: Compression,
    pub auto_extract_timestamp: bool,
}

/// The assembled processor: the service, the request builder, the batch
/// limits, and the per-event enrichment settings handed through from the
/// configuration.
pub struct HecLogsSink {
    pub service: HecService,
    pub request_builder: HecLogsRequestBuilder,
    pub batch_settings: BatchSettings,
    pub sourcetype: Option<String>,
    pub source: Option<String>,
    pub index: Option<String>,
    pub indexed_fields: Vec<String>,
    pub host: String,
    pub timestamp_nanos_key: Option<String>,
    pub timestamp_key: Option<String>,
    pub endpoint_target: EndpointTarget,
}

/// Every setting of the configuration lands in the assembled processor
/// unchanged, and the acknowledgement client exists exactly when indexer
/// acknowledgements are enabled.
pub open spec fn spec_processor_ok(
    config: HecLogsSinkConfig,
    client: ClientHandle,
    sink: HecLogsSink,
) -> bool {
    &&& sink.service.http_client == client
    &&& sink.service.ack_client == (if config.acknowledgements.indexer_acknowledgements_enabled {
        Some(client)
    } else {
        None::<ClientHandle>
    })
    &&& sink.service.endpoint == config.endpoint
    &&& sink.service.default_token == config.default_token
    &&& sink.service.endpoint_target == config.endpoint_target
    &&& sink.service.compression == config.compression
    &&& sink.service.acknowledgements == config.acknowledgements
    &&& sink.request_builder.compression == config.compression
    &&& sink.request_builder.auto_extract_timestamp == (config.auto_extract_timestamp == Some(
        true,
    ))
    &&& sink.batch_settings == config.batch
    &&& sink.sourcetype == config.sourcetype
    &&& sink.source == config.source
    &&& sink.index == config.index
    &&& sink.indexed_fields@ == config.indexed_fields@
    &&& sink.host == config.host_key
    &&& sink.timestamp_nanos_key == config.timestamp_nanos_key
    &&& sink.timestamp_key == config.timestamp_key
    &&& sink.endpoint_target == config.endpoint_target
}

fn clone_opt_string(o: &Option<String>) -> (r: Option<String>)
    ensures
        r == *o,
{
    match o {
        Some(s) => Some(s.clone()),
        None => None,
    }
}

fn clone_string_vec(v: &Vec<String>) -> (r: Vec<String>)
    ensures
        r@ == v@,
{
    let mut r: Vec<String> = Vec::new();
    let mut i: usize = 0;
    while i < v.len()
        invariant
            i <= v@.len(),
            r@.len() == i,
            forall|j: int| 0 <= j < i ==> r@[j] == v@[j],
        decreases v@.len() - i,
    {
        r.push(v[i].clone());
        i = i + 1;
    }
    proof {
        assert(r@ =~= v@);
    }
    r
}

impl HecLogsSinkConfig {
    /// The example configuration offered to operators: a placeholder
    /// token, a bare endpoint, the text codec, and every optional setting
    /// at its default.
    pub fn generate_config() -> (c: HecLogsSinkConfig)
        ensures
            c.default_token@ == "${VECTOR_SPLUNK_HEC_TOKEN}"@,
            c.endpoint@ == "endpoint"@,
            c.host_key@ == "host"@,
            c.indexed_fields@.len() == 0,
            c.index is None,
            c.sourcetype is None,
            c.source is None,
            c.encoding == (EncodingConfig { codec: CodecKind::Text, input_type_mask: DATA_TYPE_LOG }),
            c.compression == Compression::Uncompressed,
            c.batch == BatchSettings::spec_default(),
            c.request == RequestConfig::spec_default(),
            c.tls is None,
            c.acknowledgements == HecClientAcknowledgementsConfig::spec_default(),
            c.timestamp_nanos_key is None,
            c.timestamp_key matches Some(k) && k@ == "timestamp"@,
            c.auto_extract_timestamp is None,
            c.endpoint_target == EndpointTarget::Event,
    {
        HecLogsSinkConfig {
            default_token: "${VECTOR_SPLUNK_HEC_TOKEN}".to_owned(),
            endpoint: "endpoint".to_owned(),
            host_key: "host".to_owned(),
            indexed_fields: Vec::new(),
            index: None,
            sourcetype: None,
            source: None,
            encoding: EncodingConfig { codec: CodecKind::Text, input_type_mask: DATA_TYPE_LOG },
            compression: Compression::default(),
            batch: BatchSettings::default(),
            request: RequestConfig::default(),
            tls: None,
            acknowledgements: HecClientAcknowledgementsConfig::default(),
            timestamp_nanos_key: None,
            timestamp_key: Some("timestamp".to_owned()),
            auto_extract_timestamp: None,
            endpoint_target: EndpointTarget::Event,
        }
    }

    /// Assembles the processor for this sink: a pure assembly step in
    /// which every configured value lands unchanged, and the
    /// acknowledgement client is kept exactly when indexer
    /// acknowledgements are enabled.
    pub fn build_processor(&self, client: ClientHandle) -> (sink: HecLogsSink)
        ensures
            spec_processor_ok(*self, client, sink),
    {
        let ack_client = if self.acknowledgements.indexer_acknowledgements_enabled {
            Some(client)
        } else {
            None
        };
        let auto_extract_timestamp = match self.auto_extract_timestamp {
            Some(b) => b,
            None => false,
        };
        let service = HecService {
            http_client: client,
            ack_client,
            endpoint: self.endpoint.clone(),
            endpoint_target: self.endpoint_target,
            default_token: self.default_token.clone(),
            compression: self.compression,
            acknowledgements: self.acknowledgements,
        };
        let request_builder = HecLogsRequestBuilder {
            compression: self.compression,
            auto_extract_timestamp,
        };
        HecLogsSink {
            service,
            request_builder,
            batch_settings: self.batch,
            sourcetype: clone_opt_string(&self.sourcetype),
            source: clone_opt_string(&self.source),
            index: clone_opt_string(&self.index),
            indexed_fields: clone_string_vec(&self.indexed_fields),
            host: self.host_key.clone(),
            timestamp_nanos_key: clone_opt_string(&self.timestamp_nanos_key),
            timestamp_key: clone_opt_string(&self.timestamp_key),
            endpoint_target: self.endpoint_target,
        }
    }

    /// Full build of the sink: validates the endpoint settings, then
    /// assembles the processor. Client construction and the health check
    /// are outside collaborators; the decisions made here are exactly the
    /// validation and the assembly.
    pub fn build(&self, client: ClientHandle) -> (r: Result<HecLogsSink, ConfigError>)
        ensures
            r is Ok <==> !(self.auto_extract_timestamp is Some && self.endpoint_target
                == EndpointTarget::Raw),
            r is Ok ==> spec_processor_ok(*self, client, r->Ok_0),
            r is Err ==> r->Err_0 == ConfigError::AutoExtractTimestampWithRawEndpoint,
    {
        if self.auto_extract_timestamp.is_some() && self.endpoint_target == EndpointTarget::Raw {
            return Err(ConfigError::AutoExtractTimestampWithRawEndpoint);
        }
        Ok(self.build_processor(client))
    }

    /// Events this sink consumes: the log subset of what the configured
    /// codec accepts.
    pub fn input(&self) -> (i: Input)
        ensures
            i.data_type_mask == self.encoding.input_type_mask & DATA_TYPE_LOG,
    {
        Input { data_type_mask: self.encoding.input_type_mask & DATA_TYPE_LOG }
    }

    /// The end-to-end acknowledgement setting this sink exposes upstream.
    pub fn acknowledgements(&self) -> (a: &AcknowledgementsConfig)
        ensures
            a == &self.acknowledgements.inner,
    {
        &self.acknowledgements.inner
    }
}

/// The request body a batch of chunks assembles to: every chunk's bytes,
/// concatenated in record order.
pub open spec fn spec_body(events: Seq<HecChunk>) -> Seq<u8>
    decreases events.len(),
{
    if events.len() == 0 {
        Seq::empty()
    } else {
        spec_body(events.drop_last()) + events.last().body@
    }
}

/// An HTTP bulk-ingest request ready to send: the assembled body, the
/// destination coordinates and credential for the header, the compression
/// to apply, and whether the call asks the destination for an
/// asynchronous acknowledgement id — together with the metrics the
/// response must carry back.
pub struct PreparedHecRequest {
    pub body: Vec<u8>,
    pub endpoint: String,
    pub token: String,
    pub endpoint_target: EndpointTarget,
    pub compression: Compression,
    pub ack_query: bool,
    pub count: usize,
    pub events_byte_size: u64,
}

/// Result of a successful bulk-ingest call: the metrics to report, and
/// the acknowledgement id from the response body when the destination
/// deferred durability confirmation.
#[derive(Clone, Copy, Debug, PartialEq, Eq, Structural)]
pub struct HecResponse {
    pub event_count: usize,
    pub events_byte_size: u64,
    pub ack_id: Option<u64>,
}

impl HecService {
    /// Whether calls ask for an asynchronous acknowledgement id: only
    /// when indexer acknowledgements are enabled and an acknowledgement
    /// client was kept at build time.
    pub open spec fn spec_acks_active(&self) -> bool {
        self.acknowledgements.indexer_acknowledgements_enabled && self.ack_client is Some
    }

    /// Synchronous phase of a bulk-ingest call: concatenates the batch's
    /// chunks into the request body, in order, and fixes the assembly-time
    /// metrics, the destination coordinates, and the acknowledgement query
    /// flag. Nothing here blocks; the POST happens afterwards, fed exactly
    /// this prepared request.
    pub fn call(&self, requests: BatchRequest<HecChunk>) -> (c: PreparedHecRequest)
        ensures
            c.body@ == spec_body(requests.events@),
            c.count == requests.metadata.event_count,
            c.events_byte_size == requests.metadata.events_byte_size,
            c.endpoint == self.endpoint,
            c.token == self.default_token,
            c.endpoint_target == self.endpoint_target,
            c.compression == self.compression,
            c.ack_query == self.spec_acks_active(),
    {
        let ghost orig = requests.events@;
        let BatchRequest { mut events, metadata } = requests;
        let count = metadata.event_count();
        let events_byte_size = metadata.events_estimated_json_encoded_byte_size();
        let mut body: Vec<u8> = Vec::new();
        let ghost mut k: int = 0;
        while events.len() > 0
            invariant
                0 <= k <= orig.len(),
                k + events@.len() == orig.len(),
                events@ == orig.skip(k),
                body@ == spec_body(orig.take(k)),
            decreases events@.len(),
        {
            let ev = events.remove(0);
            proof {
                assert(ev == orig.skip(k)[0]);
                assert(orig.skip(k)[0] == orig[k]);
                assert(orig.skip(k).remove(0) =~= orig.skip(k + 1));
                assert(orig.take(k + 1).drop_last() =~= orig.take(k));
                assert(orig.take(k + 1).last() == orig[k]);
            }
            let mut chunk = ev.get();
            body.append(&mut chunk);
            proof {
                k = k + 1;
            }
        }
        proof {
            assert(orig.take(k) =~= orig);
        }
        PreparedHecRequest {
            body,
            endpoint: self.endpoint.clone(),
            token: self.default_token.clone(),
            endpoint_target: self.endpoint_target,
            compression: self.compression,
            ack_query: self.acknowledgements.indexer_acknowledgements_enabled
                && self.ack_client.is_some(),
            count,
            events_byte_size,
        }
    }

    /// Routes a successful transport response. With acknowledgements
    /// active and an id in the response, the batch becomes a pending
    /// acknowledgement — its handle stays unresolved for the reconciler
    /// to decide. Otherwise the batch resolves `Delivered` immediately,
    /// exactly once, with its assembly-time metrics.
    pub fn handle_response(
        &self,
        agg: &mut DeliveryAggregator,
        recon: &mut AckReconciler,
        response: HecResponse,
        handle: CompletionHandle,
        now_ms: u64,
    ) -> (resolved: Option<BatchReport>)
        requires
            old(agg).handle_live(handle),
            !old(agg).is_resolved(handle),
        ensures
            self.spec_acks_active() && response.ack_id is Some ==> {
                &&& final(agg)@ == old(agg)@
                &&& resolved is None
                &&& final(recon).max_wait_ms == old(recon).max_wait_ms
                &&& match response.ack_id {
                    Some(id) => final(recon).pending@ == old(recon).pending@.push(
                        PendingAcknowledgement {
                            ack_id: id,
                            submitted_at_ms: now_ms,
                            batch_handle: handle,
                            event_count: response.event_count,
                            events_byte_size: response.events_byte_size,
                        },
                    ),
                    None => false,
                }
            },
            !(self.spec_acks_active() && response.ack_id is Some) ==> {
                &&& final(agg)@ == spec_resolve(old(agg)@, handle, DeliveryStatus::Delivered)
                &&& final(agg).is_resolved(handle)
                &&& resolved == Some(
                    spec_report(
                        DeliveryStatus::Delivered,
                        response.event_count,
                        response.events_byte_size,
                    ),
                )
                &&& *final(recon) == *old(recon)
            },
    {
        let acks_active = self.acknowledgements.indexer_acknowledgements_enabled
            && self.ack_client.is_some();
        if acks_active {
            match response.ack_id {
                Some(id) => {
                    recon.insert(
                        id,
                        now_ms,
                        handle,
                        response.event_count,
                        response.events_byte_size,
                    );
                    return None;
                },
                None => {},
            }
        }
        let rep = agg.resolve(
            handle,
            DeliveryStatus::Delivered,
            response.event_count,
            response.events_byte_size,
        );
        Some(rep)
    }
}

/// Retry idempotence of the input, bulk-ingest side: the request body is
/// a function of the batch's records alone, so a first attempt and a
/// retry prepared from the same, unmutated batch carry byte-identical
/// bodies.
pub proof fn lemma_hec_retry_sends_identical_body(
    events: Seq<HecChunk>,
    first: PreparedHecRequest,
    second: PreparedHecRequest,
)
    requires
        first.body@ == spec_body(events),
        second.body@ == spec_body(events),
    ensures
        first.body@ == second.body@,
{
}

} // verus!
