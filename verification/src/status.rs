//! Delivery status and per-batch metrics: the vocabulary in which every
//! batch outcome is reported upstream.

use vstd::prelude::*;

verus! {

/// Terminal outcome of one batch, reported exactly once through the batch's
/// completion handle.
#[derive(Clone, Copy, Debug, PartialEq, Eq, Structural)]
pub enum DeliveryStatus {
    /// The destination durably accepted the whole batch.
    Delivered,
    /// Transport failure, retry budget exhaustion, or acknowledgement timeout.
    Errored,
    /// The destination explicitly rejected the batch.
    Rejected,
}

/// Event count paired with the estimated encoded byte size of those events,
/// as computed once at batch-assembly time.
#[derive(Clone, Copy, Debug, PartialEq, Eq, Structural)]
pub struct CountByteSize(pub usize, pub u64);

/// Per-batch metrics emitted to the pipeline's telemetry channel when a
/// completion handle resolves.
#[derive(Clone, Copy, Debug, PartialEq, Eq, Structural)]
pub struct BatchReport {
    pub delivered_count: usize,
    pub errored_count: usize,
    pub rejected_count: usize,
    pub events_byte_size: u64,
}

/// The metrics report of one resolved batch: the batch's whole event count
/// lands under exactly the one counter that matches its status, and the
/// byte size is passed through unchanged.
pub open spec fn spec_report(status: DeliveryStatus, count: usize, events_byte_size: u64) -> BatchReport {
    match status {
        DeliveryStatus::Delivered => BatchReport {
            delivered_count: count,
            errored_count: 0,
            rejected_count: 0,
            events_byte_size,
        },
        DeliveryStatus::Errored => BatchReport {
            delivered_count: 0,
            errored_count: count,
            rejected_count: 0,
            events_byte_size,
        },
        DeliveryStatus::Rejected => BatchReport {
            delivered_count: 0,
            errored_count: 0,
            rejected_count: count,
            events_byte_size,
        },
    }
}

/// Converts one resolved batch into its metrics report.
pub fn report_for(status: DeliveryStatus, count: usize, events_byte_size: u64) -> (r: BatchReport)
    ensures
        r == spec_report(status, count, events_byte_size),
{
    match status {
        DeliveryStatus::Delivered => BatchReport {
            delivered_count: count,
            errored_count: 0,
            rejected_count: 0,
            events_byte_size,
        },
        DeliveryStatus::Errored => BatchReport {
            delivered_count: 0,
            errored_count: count,
            rejected_count: 0,
            events_byte_size,
        },
        DeliveryStatus::Rejected => BatchReport {
            delivered_count: 0,
            errored_count: 0,
            rejected_count: count,
            events_byte_size,
        },
    }
}

} // verus!
