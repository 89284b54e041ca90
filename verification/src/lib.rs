//! Measurement core for transaction-submission latency benchmarks.
//!
//! The library models phase-separated latency measurement (send phase,
//! confirm phase) for transactions submitted to an RPC endpoint under
//! several submission strategies, tracks batch confirmation, reduces the
//! collected records to summary statistics, and renders / parses the
//! summary report table.  All I/O (RPC transport, clock sampling, file
//! output) is left to the embedding application; the logic here is pure
//! and verified.

pub mod clock;
pub mod fees;
pub mod records;
pub mod report;
pub mod runner;
pub mod shred;
pub mod stats;
pub mod strategy;
pub mod tracker;
