use vstd::prelude::*;

verus! {

/// The fatal error classes of a benchmark run.
#[derive(Clone, Debug, PartialEq, Eq)]
pub enum BenchError {
    /// A malformed input record or command line.
    InputFormat(String),
    /// A request that could not be carried out (connection failure and the like).
    Transport(String),
    /// The service answered with a non-success HTTP status.
    HttpStatus(u16),
    /// A query was answered by an exhaustive scan instead of the index; the
    /// value is the reported exhaustive scan count.
    InvariantViolation(u64),
}

} // verus!
