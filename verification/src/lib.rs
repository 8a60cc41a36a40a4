//! Core of a long-running internet speed monitor.
//!
//! Each cycle measures download throughput and average latency, assembles the
//! two measurements into labeled time series, builds an authenticated
//! Prometheus remote-write HTTP request, and delivers it. A fixed-interval
//! scheduler drives the cycles, sleeping only for the part of the interval the
//! cycle itself did not consume, and stops on the first failing cycle.
//!
//! The surrounding process supplies what only it can: the resolved hostname,
//! the measured values, the current time, and the transport. This crate holds
//! the decisions and the data transformations between those points.

pub mod auth;
pub mod endpoint;
pub mod error;
pub mod metrics;
pub mod request;
pub mod scheduler;
