//! Metrics and observability.
//!
//! Provides instrumentation for monitoring analysis performance and health.
//!
//! # Thread-safety
//!
//! An operation that changes the registry takes it by unique reference, and updates each entry
//! in one step under the lock of its shard: reading the value, or putting the first one there,
//! and writing the next. Threads that share a registry take turns, one operation at a time. Any
//! two increments or observations commute, so that the metrics come out the same whichever way
//! the threads interleave, and no increment is lost.
pub mod clock;
pub mod histogram;
pub mod json;
pub mod laws;
pub mod metric_names;
pub mod model;
pub mod registry;
pub mod result_laws;
pub mod store;

pub use crate::metrics::histogram::HistogramData;
pub use crate::metrics::histogram::HistogramStats;
pub use crate::metrics::registry::MetricsRegistry;
