//! Metrics: request events, latency histograms, per-window and per-worker
//! accumulation, and latency snapshots.

pub mod snapshot;
pub mod histogram;
pub mod event;
pub mod window;
pub mod collector;
pub mod aggregator;
pub mod summary;
