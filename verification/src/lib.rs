//! Dispatch core of a telemetry pipeline: turns buffered, already-encoded
//! event batches into transport-specific wire requests, drives them through a
//! retryable, backpressure-aware transport, and determines the final per-batch
//! delivery status, including reconciliation of asynchronous indexer
//! acknowledgements.

pub mod ack;
pub mod aggregator;
pub mod batch;
pub mod client;
pub mod dispatch;
pub mod hec;
pub mod kinesis;
pub mod limiter;
pub mod record;
pub mod retry;
pub mod status;
