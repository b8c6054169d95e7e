use batch_dispatch::aggregator::DeliveryAggregator;
use batch_dispatch::batch::{BatchRequest, CompletionHandle, Metadata};
use batch_dispatch::client::ClientHandle;
use batch_dispatch::dispatch::{dispatch_batch, drive_attempts, AttemptOutcome};
use batch_dispatch::kinesis::{check_put_response, finish_call, KinesisService};
use batch_dispatch::limiter::{ConcurrencyLimiter, PollOutcome};
use batch_dispatch::record::{Record, StreamRecord};
use batch_dispatch::retry::{
    backoff_delay, classify, retry_decision, ErrorClass, RetryDecision, RetryPolicy,
    TransportError,
};
use batch_dispatch::status::{report_for, BatchReport, CountByteSize, DeliveryStatus};

fn test_policy() -> RetryPolicy {
    RetryPolicy { initial_backoff_ms: 100, max_backoff_ms: 1000, max_elapsed_ms: 60_000 }
}

fn three_records() -> Vec<StreamRecord> {
    vec![
        StreamRecord { data: vec![1u8, 2], routing_key: "a".to_string() },
        StreamRecord { data: vec![3u8], routing_key: "b".to_string() },
        StreamRecord { data: vec![4u8, 5, 6], routing_key: "c".to_string() },
    ]
}

#[test]
fn streaming_put_three_records_delivered() {
    let mut agg = DeliveryAggregator::new();
    let h = agg.new_handle();
    let batch = BatchRequest::new(three_records(), 42, h);
    assert_eq!(batch.metadata.event_count, 3);

    let service = KinesisService {
        client: ClientHandle { id: 7 },
        stream_name: "events".to_string(),
        region: Some("east-1".to_string()),
    };
    assert_eq!(service.poll_ready(), PollOutcome::Ready);

    let prepared = service.call(batch);
    assert_eq!(prepared.count, 3);
    assert_eq!(prepared.events_byte_size, 42);
    assert_eq!(prepared.stream_name, "events");
    assert_eq!(prepared.records.len(), 3);
    assert_eq!(prepared.records[0].data, vec![1u8, 2]);
    assert_eq!(prepared.records[0].routing_key, "a");
    assert_eq!(prepared.records[2].data, vec![4u8, 5, 6]);

    let resp = finish_call(prepared.count, prepared.events_byte_size, None).unwrap();
    assert_eq!(resp.event_status(), DeliveryStatus::Delivered);
    assert_eq!(resp.events_sent(), CountByteSize(3, 42));

    let meta = Metadata { event_count: 3, events_byte_size: 42, finalizers: h };
    let (st, rep) =
        dispatch_batch(&test_policy(), &mut agg, meta, &vec![AttemptOutcome::Accepted]);
    assert_eq!(st.attempts, 1);
    assert_eq!(st.outcome, Some(DeliveryStatus::Delivered));
    assert_eq!(
        rep,
        Some(BatchReport {
            delivered_count: 3,
            errored_count: 0,
            rejected_count: 0,
            events_byte_size: 42,
        })
    );
    assert_eq!(agg.resolved[h.id], Some(DeliveryStatus::Delivered));
}

#[test]
fn send_error_fails_whole_batch() {
    let r = finish_call(3, 42, Some(TransportError::ConnectionFailed));
    assert_eq!(r.err(), Some(TransportError::ConnectionFailed));
}

#[test]
fn throttled_twice_then_delivered_after_three_attempts() {
    let outcomes = vec![
        AttemptOutcome::Failed { error: TransportError::Throttled },
        AttemptOutcome::Failed { error: TransportError::Throttled },
        AttemptOutcome::Accepted,
    ];
    let st = drive_attempts(&test_policy(), &outcomes);
    assert_eq!(st.attempts, 3);
    assert_eq!(st.outcome, Some(DeliveryStatus::Delivered));
    // backoff respected between attempts: 100 ms, then 200 ms
    assert_eq!(st.elapsed_ms, 300);
}

#[test]
fn fatal_status_errors_after_exactly_one_attempt() {
    let outcomes = vec![AttemptOutcome::Failed { error: TransportError::Http { status: 403 } }];
    let st = drive_attempts(&test_policy(), &outcomes);
    assert_eq!(st.attempts, 1);
    assert_eq!(st.outcome, Some(DeliveryStatus::Errored));
    assert_eq!(st.elapsed_ms, 0);
}

#[test]
fn outcomes_after_the_terminal_decision_change_nothing() {
    let outcomes = vec![
        AttemptOutcome::Failed { error: TransportError::Http { status: 403 } },
        AttemptOutcome::Accepted,
        AttemptOutcome::Accepted,
    ];
    let st = drive_attempts(&test_policy(), &outcomes);
    assert_eq!(st.attempts, 1);
    assert_eq!(st.outcome, Some(DeliveryStatus::Errored));
}

#[test]
fn retry_budget_exhaustion_errors_the_batch() {
    let policy = RetryPolicy { initial_backoff_ms: 100, max_backoff_ms: 1000, max_elapsed_ms: 150 };
    let outcomes = vec![
        AttemptOutcome::Failed { error: TransportError::Throttled },
        AttemptOutcome::Failed { error: TransportError::Throttled },
        AttemptOutcome::Failed { error: TransportError::Throttled },
    ];
    let st = drive_attempts(&policy, &outcomes);
    // elapsed 0, then 100, then 300; the third failure sees the budget spent
    assert_eq!(st.attempts, 3);
    assert_eq!(st.outcome, Some(DeliveryStatus::Errored));
}

#[test]
fn metrics_unchanged_by_retries() {
    let mut agg = DeliveryAggregator::new();
    let h = agg.new_handle();
    let meta = Metadata { event_count: 7, events_byte_size: 99, finalizers: h };
    let outcomes = vec![
        AttemptOutcome::Failed { error: TransportError::Throttled },
        AttemptOutcome::Failed { error: TransportError::TimedOut },
        AttemptOutcome::Accepted,
    ];
    let (st, rep) = dispatch_batch(&test_policy(), &mut agg, meta, &outcomes);
    assert_eq!(st.attempts, 3);
    assert_eq!(
        rep,
        Some(BatchReport {
            delivered_count: 7,
            errored_count: 0,
            rejected_count: 0,
            events_byte_size: 99,
        })
    );
}

#[test]
fn retried_call_resends_identical_payload() {
    let service = KinesisService {
        client: ClientHandle { id: 1 },
        stream_name: "s".to_string(),
        region: None,
    };
    let h = CompletionHandle { id: 0 };
    let first = service.call(BatchRequest::new(three_records(), 5, h));
    let second = service.call(BatchRequest::new(three_records(), 5, h));
    assert_eq!(first.records.len(), second.records.len());
    for (a, b) in first.records.iter().zip(second.records.iter()) {
        assert_eq!(a.data, b.data);
        assert_eq!(a.routing_key, b.routing_key);
    }
}

#[test]
fn partial_rejection_surfaces_as_batch_error() {
    assert_eq!(check_put_response(0), None);
    assert_eq!(
        check_put_response(2),
        Some(TransportError::PartialRejection { failed_count: 2 })
    );
    // a partial rejection is fatal: the whole batch errors after one attempt
    let outcomes =
        vec![AttemptOutcome::Failed { error: TransportError::PartialRejection { failed_count: 2 } }];
    let st = drive_attempts(&test_policy(), &outcomes);
    assert_eq!(st.attempts, 1);
    assert_eq!(st.outcome, Some(DeliveryStatus::Errored));
}

#[test]
fn record_projection_is_pure() {
    let r = StreamRecord { data: vec![8u8, 9], routing_key: "pk".to_string() };
    let w = r.clone().get();
    assert_eq!(w.data, vec![8u8, 9]);
    assert_eq!(w.routing_key, "pk");
}

#[test]
fn classification_of_every_error_kind() {
    assert_eq!(classify(&TransportError::ConnectionFailed), ErrorClass::Transient);
    assert_eq!(classify(&TransportError::TimedOut), ErrorClass::Transient);
    assert_eq!(classify(&TransportError::Throttled), ErrorClass::Transient);
    assert_eq!(classify(&TransportError::Http { status: 429 }), ErrorClass::Transient);
    assert_eq!(classify(&TransportError::Http { status: 500 }), ErrorClass::Transient);
    assert_eq!(classify(&TransportError::Http { status: 599 }), ErrorClass::Transient);
    assert_eq!(classify(&TransportError::Http { status: 400 }), ErrorClass::Fatal);
    assert_eq!(classify(&TransportError::Http { status: 403 }), ErrorClass::Fatal);
    assert_eq!(classify(&TransportError::PartialRejection { failed_count: 1 }), ErrorClass::Fatal);
}

#[test]
fn backoff_doubles_and_clamps() {
    let p = test_policy();
    assert_eq!(backoff_delay(&p, 1), 100);
    assert_eq!(backoff_delay(&p, 2), 200);
    assert_eq!(backoff_delay(&p, 3), 400);
    assert_eq!(backoff_delay(&p, 4), 800);
    assert_eq!(backoff_delay(&p, 5), 1000);
    assert_eq!(backoff_delay(&p, 6), 1000);
}

#[test]
fn retry_decisions_respect_class_and_budget() {
    let p = test_policy();
    assert_eq!(
        retry_decision(&p, &TransportError::Throttled, 1, 0),
        RetryDecision::Retry { delay_ms: 100 }
    );
    assert_eq!(retry_decision(&p, &TransportError::Http { status: 403 }, 1, 0), RetryDecision::GiveUp);
    assert_eq!(retry_decision(&p, &TransportError::Throttled, 1, 60_000), RetryDecision::GiveUp);
}

#[test]
fn backpressure_pends_at_the_limit() {
    let mut lim = ConcurrencyLimiter::new(2);
    assert_eq!(lim.poll_ready(), PollOutcome::Ready);
    lim.start();
    assert_eq!(lim.poll_ready(), PollOutcome::Ready);
    lim.start();
    assert_eq!(lim.poll_ready(), PollOutcome::Pending);
    lim.finish();
    assert_eq!(lim.poll_ready(), PollOutcome::Ready);
    assert_eq!(lim.in_flight, 1);
}

#[test]
fn zero_limit_never_ready() {
    let lim = ConcurrencyLimiter::new(0);
    assert_eq!(lim.poll_ready(), PollOutcome::Pending);
}

#[test]
fn a_handle_resolves_exactly_once() {
    let mut agg = DeliveryAggregator::new();
    let h = agg.new_handle();
    let first = agg.try_resolve(h, DeliveryStatus::Errored, 4, 16);
    assert_eq!(
        first,
        Some(BatchReport {
            delivered_count: 0,
            errored_count: 4,
            rejected_count: 0,
            events_byte_size: 16,
        })
    );
    let second = agg.try_resolve(h, DeliveryStatus::Delivered, 4, 16);
    assert_eq!(second, None);
    assert_eq!(agg.resolved[h.id], Some(DeliveryStatus::Errored));
}

#[test]
fn resolving_a_dead_handle_does_nothing() {
    let mut agg = DeliveryAggregator::new();
    let r = agg.try_resolve(CompletionHandle { id: 3 }, DeliveryStatus::Delivered, 1, 1);
    assert_eq!(r, None);
    assert_eq!(agg.resolved.len(), 0);
}

#[test]
fn report_counts_land_under_the_matching_status() {
    assert_eq!(
        report_for(DeliveryStatus::Delivered, 5, 50),
        BatchReport { delivered_count: 5, errored_count: 0, rejected_count: 0, events_byte_size: 50 }
    );
    assert_eq!(
        report_for(DeliveryStatus::Errored, 5, 50),
        BatchReport { delivered_count: 0, errored_count: 5, rejected_count: 0, events_byte_size: 50 }
    );
    assert_eq!(
        report_for(DeliveryStatus::Rejected, 5, 50),
        BatchReport { delivered_count: 0, errored_count: 0, rejected_count: 5, events_byte_size: 50 }
    );
}

#[test]
fn cloned_service_matches_the_original() {
    let service = KinesisService {
        client: ClientHandle { id: 9 },
        stream_name: "stream".to_string(),
        region: Some("west-2".to_string()),
    };
    let copy = service.clone();
    assert_eq!(copy.client, service.client);
    assert_eq!(copy.stream_name, service.stream_name);
    assert_eq!(copy.region, service.region);
}
