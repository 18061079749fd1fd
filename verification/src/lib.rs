//! A live metric fan-out engine: a sampler produces per-core CPU utilization
//! snapshots at a bounded cadence, and a distributor hands the latest snapshot
//! to any number of concurrent consumers, latest-value-wins.
//!
//! Utilization values are carried as tenths of a percent (`125` is 12.5%), so
//! the whole engine works on plain integers; the surrounding binary converts
//! the operating system's readings at the edge.

pub mod distributor;
pub mod laws;
pub mod snapshot;
pub mod text;
