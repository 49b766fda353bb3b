//! Bastion: the verified core of an HTTP load-testing tool.
//!
//! The library holds the configuration model and its validation, the
//! command-line and threshold parsers, the per-request timing and event
//! model, the per-window and per-worker metric accumulation over latency
//! histograms, the run's summary and spike detection, the checked parts of
//! each request, the scheduling decisions and what the reports decide.
//! Networking, terminal output and the floating-point statistics live in
//! the application around it.

pub mod time;
pub mod text;
pub mod error;
pub mod config;
pub mod cli;
pub mod metrics;
pub mod thresholds;
pub mod http;
pub mod rate;
pub mod scheduler;
pub mod display;
pub mod engine;
pub mod report;
