//! Core of the program analyzer: metrics, and the post-processing of findings.
pub mod finding;
pub mod metrics;
pub mod pipeline;
