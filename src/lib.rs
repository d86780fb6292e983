//! Throughput monitor for ledger nodes: arrival bookkeeping, windowed rate
//! aggregation with bounded history, and the textual query protocol.

pub mod events;
pub mod rate;
pub mod metrics;
pub mod config;
pub mod aggregate;
pub mod query;
pub mod parse;
pub mod nodes;
