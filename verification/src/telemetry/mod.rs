//! Counters and latencies, and their text exposition.

pub mod metrics;

pub use metrics::{Metrics, LATENCY_CAPACITY};
