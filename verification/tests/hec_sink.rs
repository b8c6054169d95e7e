use batch_dispatch::ack::{
    ack_transition, apply_resolutions, reconcile_tick, AckQueryStatus, AckReconciler, AckState,
};
use batch_dispatch::aggregator::DeliveryAggregator;
use batch_dispatch::batch::{BatchRequest, CompletionHandle};
use batch_dispatch::client::ClientHandle;
use batch_dispatch::record::HecChunk;
use batch_dispatch::hec::{
    default_endpoint_target, CodecKind, Compression, ConfigError, EncodingConfig, EndpointTarget,
    HecLogsSinkConfig, HecResponse, DATA_TYPE_LOG, DATA_TYPE_METRIC,
};
use batch_dispatch::status::{BatchReport, DeliveryStatus};

fn ack_window_ms(config: &HecLogsSinkConfig) -> u64 {
    config.acknowledgements.max_pending_wait_ms()
}

#[test]
fn generate_config() {
    let c = HecLogsSinkConfig::generate_config();
    assert_eq!(c.default_token, "${VECTOR_SPLUNK_HEC_TOKEN}");
    assert_eq!(c.endpoint, "endpoint");
    assert_eq!(c.host_key, "host");
    assert!(c.indexed_fields.is_empty());
    assert_eq!(c.index, None);
    assert_eq!(c.sourcetype, None);
    assert_eq!(c.source, None);
    assert_eq!(c.encoding.codec, CodecKind::Text);
    assert_eq!(c.compression, Compression::Uncompressed);
    assert_eq!(c.tls, None);
    assert!(c.acknowledgements.indexer_acknowledgements_enabled);
    assert_eq!(c.timestamp_nanos_key, None);
    assert_eq!(c.timestamp_key.as_deref(), Some("timestamp"));
    assert_eq!(c.auto_extract_timestamp, None);
    assert_eq!(c.endpoint_target, EndpointTarget::Event);
}

#[test]
fn endpoint_target_defaults_to_event() {
    assert_eq!(default_endpoint_target(), EndpointTarget::Event);
}

#[test]
fn auto_extract_timestamp_rejected_for_raw_endpoint() {
    let mut c = HecLogsSinkConfig::generate_config();
    c.auto_extract_timestamp = Some(true);
    c.endpoint_target = EndpointTarget::Raw;
    let r = c.build(ClientHandle { id: 1 });
    assert_eq!(r.err(), Some(ConfigError::AutoExtractTimestampWithRawEndpoint));
}

#[test]
fn auto_extract_timestamp_accepted_for_event_endpoint() {
    let mut c = HecLogsSinkConfig::generate_config();
    c.auto_extract_timestamp = Some(true);
    c.endpoint_target = EndpointTarget::Event;
    let sink = c.build(ClientHandle { id: 1 }).ok().unwrap();
    assert!(sink.request_builder.auto_extract_timestamp);
}

#[test]
fn processor_keeps_every_setting() {
    let mut c = HecLogsSinkConfig::generate_config();
    c.indexed_fields = vec!["field1".to_string(), "field2".to_string()];
    c.sourcetype = Some("_json".to_string());
    c.compression = Compression::Gzip;
    let client = ClientHandle { id: 11 };
    let sink = c.build_processor(client);
    assert_eq!(sink.service.http_client, client);
    assert_eq!(sink.service.ack_client, Some(client));
    assert_eq!(sink.service.endpoint, "endpoint");
    assert_eq!(sink.service.default_token, "${VECTOR_SPLUNK_HEC_TOKEN}");
    assert_eq!(sink.service.compression, Compression::Gzip);
    assert_eq!(sink.request_builder.compression, Compression::Gzip);
    assert!(!sink.request_builder.auto_extract_timestamp);
    assert_eq!(sink.indexed_fields, vec!["field1".to_string(), "field2".to_string()]);
    assert_eq!(sink.sourcetype.as_deref(), Some("_json"));
    assert_eq!(sink.host, "host");
}

#[test]
fn ack_client_dropped_when_acknowledgements_disabled() {
    let mut c = HecLogsSinkConfig::generate_config();
    c.acknowledgements.indexer_acknowledgements_enabled = false;
    let sink = c.build_processor(ClientHandle { id: 2 });
    assert_eq!(sink.service.ack_client, None);
}

#[test]
fn input_is_the_log_subset_of_the_codec() {
    let mut c = HecLogsSinkConfig::generate_config();
    c.encoding =
        EncodingConfig { codec: CodecKind::Json, input_type_mask: DATA_TYPE_LOG | DATA_TYPE_METRIC };
    assert_eq!(c.input().data_type_mask, DATA_TYPE_LOG);
}

#[test]
fn acknowledgements_exposes_the_inner_setting() {
    let mut c = HecLogsSinkConfig::generate_config();
    c.acknowledgements.inner.enabled = Some(true);
    assert_eq!(c.acknowledgements().enabled, Some(true));
}

#[test]
fn bulk_ingest_body_is_the_chunks_in_order() {
    let c = HecLogsSinkConfig::generate_config();
    let sink = c.build_processor(ClientHandle { id: 8 });
    let h = CompletionHandle { id: 0 };
    let chunks = vec![
        HecChunk { body: vec![1u8, 2] },
        HecChunk { body: vec![] },
        HecChunk { body: vec![3u8] },
    ];
    let prepared = sink.service.call(BatchRequest::new(chunks, 17, h));
    assert_eq!(prepared.body, vec![1u8, 2, 3]);
    assert_eq!(prepared.count, 3);
    assert_eq!(prepared.events_byte_size, 17);
    assert!(prepared.ack_query);
    assert_eq!(prepared.endpoint, "endpoint");
    assert_eq!(prepared.token, "${VECTOR_SPLUNK_HEC_TOKEN}");
    assert_eq!(prepared.compression, Compression::Uncompressed);
}

#[test]
fn ack_query_off_when_acknowledgements_disabled() {
    let mut c = HecLogsSinkConfig::generate_config();
    c.acknowledgements.indexer_acknowledgements_enabled = false;
    let sink = c.build_processor(ClientHandle { id: 9 });
    let h = CompletionHandle { id: 0 };
    let prepared =
        sink.service.call(BatchRequest::new(vec![HecChunk { body: vec![7u8] }], 1, h));
    assert!(!prepared.ack_query);
}

#[test]
fn acks_disabled_http_200_is_immediately_delivered() {
    let mut c = HecLogsSinkConfig::generate_config();
    c.acknowledgements.indexer_acknowledgements_enabled = false;
    let sink = c.build_processor(ClientHandle { id: 3 });
    let mut agg = DeliveryAggregator::new();
    let h = agg.new_handle();
    let mut recon = AckReconciler::new(ack_window_ms(&c));
    let resp = HecResponse { event_count: 2, events_byte_size: 10, ack_id: None };
    let rep = sink.service.handle_response(&mut agg, &mut recon, resp, h, 0);
    assert_eq!(
        rep,
        Some(BatchReport {
            delivered_count: 2,
            errored_count: 0,
            rejected_count: 0,
            events_byte_size: 10,
        })
    );
    assert_eq!(agg.resolved[h.id], Some(DeliveryStatus::Delivered));
    assert_eq!(recon.pending.len(), 0);
}

#[test]
fn ack_confirmed_within_window_is_delivered() {
    let c = HecLogsSinkConfig::generate_config();
    let sink = c.build_processor(ClientHandle { id: 4 });
    let mut agg = DeliveryAggregator::new();
    let h = agg.new_handle();
    let mut recon = AckReconciler::new(ack_window_ms(&c));
    let resp = HecResponse { event_count: 3, events_byte_size: 30, ack_id: Some(42) };
    let rep = sink.service.handle_response(&mut agg, &mut recon, resp, h, 0);
    assert_eq!(rep, None);
    assert_eq!(agg.resolved[h.id], None);
    assert_eq!(recon.pending.len(), 1);

    let resolutions = recon.poll_tick(10_000, &vec![(42, AckQueryStatus::Indexed)]);
    assert_eq!(resolutions.len(), 1);
    assert_eq!(resolutions[0].status, DeliveryStatus::Delivered);
    assert_eq!(resolutions[0].handle, h);
    assert_eq!(recon.pending.len(), 0);

    apply_resolutions(&mut agg, &resolutions);
    assert_eq!(agg.resolved[h.id], Some(DeliveryStatus::Delivered));
}

#[test]
fn ack_missing_past_max_wait_is_errored() {
    let c = HecLogsSinkConfig::generate_config();
    let sink = c.build_processor(ClientHandle { id: 5 });
    let mut agg = DeliveryAggregator::new();
    let h = agg.new_handle();
    let max_wait = ack_window_ms(&c);
    let mut recon = AckReconciler::new(max_wait);
    let resp = HecResponse { event_count: 1, events_byte_size: 8, ack_id: Some(7) };
    sink.service.handle_response(&mut agg, &mut recon, resp, h, 0);

    // within the window, an unreachable endpoint (empty answer) keeps waiting
    let resolutions = recon.poll_tick(max_wait, &vec![]);
    assert_eq!(resolutions.len(), 0);
    assert_eq!(recon.pending.len(), 1);

    // past the window the entry times out and the batch errors
    let resolutions = recon.poll_tick(max_wait + 1, &vec![]);
    assert_eq!(resolutions.len(), 1);
    assert_eq!(resolutions[0].status, DeliveryStatus::Errored);
    apply_resolutions(&mut agg, &resolutions);
    assert_eq!(agg.resolved[h.id], Some(DeliveryStatus::Errored));
}

#[test]
fn ack_explicit_rejection_is_rejected() {
    let c = HecLogsSinkConfig::generate_config();
    let sink = c.build_processor(ClientHandle { id: 6 });
    let mut agg = DeliveryAggregator::new();
    let h = agg.new_handle();
    let mut recon = AckReconciler::new(ack_window_ms(&c));
    let resp = HecResponse { event_count: 4, events_byte_size: 20, ack_id: Some(9) };
    sink.service.handle_response(&mut agg, &mut recon, resp, h, 0);

    let resolutions = recon.poll_tick(1000, &vec![(9, AckQueryStatus::Rejected)]);
    assert_eq!(resolutions.len(), 1);
    assert_eq!(resolutions[0].status, DeliveryStatus::Rejected);
    apply_resolutions(&mut agg, &resolutions);
    assert_eq!(agg.resolved[h.id], Some(DeliveryStatus::Rejected));
}

#[test]
fn pending_answer_keeps_the_entry_submitted() {
    let c = HecLogsSinkConfig::generate_config();
    let sink = c.build_processor(ClientHandle { id: 7 });
    let mut agg = DeliveryAggregator::new();
    let h = agg.new_handle();
    let mut recon = AckReconciler::new(ack_window_ms(&c));
    let resp = HecResponse { event_count: 1, events_byte_size: 1, ack_id: Some(5) };
    sink.service.handle_response(&mut agg, &mut recon, resp, h, 0);

    let resolutions = recon.poll_tick(1000, &vec![(5, AckQueryStatus::Pending)]);
    assert_eq!(resolutions.len(), 0);
    assert_eq!(recon.pending.len(), 1);
    assert_eq!(agg.resolved[h.id], None);
}

#[test]
fn terminal_ack_states_are_never_left() {
    for state in [AckState::Confirmed, AckState::TimedOut, AckState::Failed] {
        assert_eq!(ack_transition(state, Some(AckQueryStatus::Rejected), true), state);
        assert_eq!(ack_transition(state, Some(AckQueryStatus::Indexed), false), state);
        assert_eq!(ack_transition(state, None, true), state);
    }
    assert_eq!(
        ack_transition(AckState::Submitted, Some(AckQueryStatus::Indexed), true),
        AckState::Confirmed
    );
    assert_eq!(
        ack_transition(AckState::Submitted, Some(AckQueryStatus::Rejected), false),
        AckState::Failed
    );
    assert_eq!(ack_transition(AckState::Submitted, None, true), AckState::TimedOut);
    assert_eq!(ack_transition(AckState::Submitted, None, false), AckState::Submitted);
}

#[test]
fn one_tick_confirms_and_times_out_independently() {
    let mut agg = DeliveryAggregator::new();
    let h1 = agg.new_handle();
    let h2 = agg.new_handle();
    let mut recon = AckReconciler::new(1_000);
    recon.insert(1, 0, h1, 1, 10);
    recon.insert(2, 5_000, h2, 2, 20);
    // at 6_000: id 1 is long past its window but reported indexed — the
    // confirmation wins; id 2 is inside its window and stays pending
    reconcile_tick(&mut recon, &mut agg, 6_000, &vec![(1, AckQueryStatus::Indexed)]);
    assert_eq!(agg.resolved[h1.id], Some(DeliveryStatus::Delivered));
    assert_eq!(agg.resolved[h2.id], None);
    assert_eq!(recon.pending.len(), 1);
    assert_eq!(recon.pending[0].ack_id, 2);
    // at 7_000: id 2 is past its window with no answer and times out
    reconcile_tick(&mut recon, &mut agg, 7_000, &vec![]);
    assert_eq!(agg.resolved[h2.id], Some(DeliveryStatus::Errored));
    assert_eq!(recon.pending.len(), 0);
}

#[test]
fn shutdown_surfaces_unconfirmed_ids() {
    let mut recon = AckReconciler::new(1000);
    let mut agg = DeliveryAggregator::new();
    let h1 = agg.new_handle();
    let h2 = agg.new_handle();
    recon.insert(101, 0, h1, 1, 10);
    recon.insert(202, 5, h2, 2, 20);
    let unconfirmed = recon.shutdown();
    assert_eq!(unconfirmed, vec![101, 202]);
    assert_eq!(recon.pending.len(), 0);
    // the abandoned batches were surfaced, not resolved
    assert_eq!(agg.resolved[h1.id], None);
    assert_eq!(agg.resolved[h2.id], None);
}

#[test]
fn max_pending_wait_is_interval_times_retries() {
    let c = HecLogsSinkConfig::generate_config();
    assert_eq!(c.acknowledgements.query_interval_secs, 10);
    assert_eq!(c.acknowledgements.retry_limit, 30);
    assert_eq!(c.acknowledgements.max_pending_wait_ms(), 300_000);
}
