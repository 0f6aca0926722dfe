//! Verified core of a benchmarking harness for a remote full-text search
//! service: document batching, bounded-concurrency upload scheduling,
//! collection reset and index-convergence decisions, compilation of benchmark
//! commands into search requests, request-body rendering and validation of
//! query outcomes.
//!
//! Network traffic, standard input and the clock live outside this crate; the
//! functions here take what those produced as plain values and decide.

mod text;
pub mod error;
pub mod compiler;
pub mod scheduler;
pub mod batcher;
pub mod lifecycle;
pub mod outcome;
pub mod input;
pub mod request;
pub mod pipeline;
