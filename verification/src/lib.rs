//! Metrics-and-retry instrumentation for an HTTP proxy's request path.
//!
//! The crate wraps a request-handling service so that every request/response
//! exchange is measured (a total count, per-class counts, first-byte latency)
//! and classified exactly once, whichever way the exchange ends: normal
//! completion, trailers, a mid-stream error, or abandonment. A shared,
//! time-boxed retry budget gates whether a failed exchange may be retried.
//!
//! The asynchronous plumbing (polling bodies, clocks, locks) lives with the
//! caller; this crate holds the decisions. Each lifecycle event of an
//! exchange is a verified transition that takes the event's data and the
//! current time as plain values and updates the metrics aggregate.

pub mod body;
pub mod classify;
pub mod dst;
pub mod laws;
pub mod measure;
pub mod metrics;
pub mod registry;
pub mod retry;
