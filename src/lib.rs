//! Aggregation and scheduling core of a concurrent HTTP load generator.
//!
//! Producers each send a share of the requests and tally their outcomes; the
//! orchestrator plans the producers' shares and start delays and folds their
//! tallies into one run summary.

pub mod outcome;
pub mod report;
pub mod config;
pub mod orchestrator;
pub mod producer;
