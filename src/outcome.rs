//! Extraction and validation of a query's outcome.
use vstd::prelude::*;
use crate::compiler::CompiledQuery;
use crate::error::BenchError;

verus! {

/// What the service answered to one query.
#[derive(Clone, Copy, Debug, PartialEq, Eq)]
pub struct QueryOutcome {
    pub result_count: u64,
    /// Queries that bypassed the index; must be zero for a valid benchmark.
    pub exhaustive_scan_count: u64,
}

/// The outcome of `query` from the parts of its answer: the number of rows
/// returned for a ranked query, the count aggregate for an aggregation query.
/// `None` when the answer lacks the part that its query asks for.
pub fn outcome_of(
    query: &CompiledQuery,
    returned_rows: Option<u64>,
    count_aggregate: Option<u64>,
    exhaustive_scan_count: u64,
) -> (r: Option<QueryOutcome>)
    ensures
        query.aggregation is None ==> r == match returned_rows {
            Some(n) => Some(QueryOutcome { result_count: n, exhaustive_scan_count }),
            None => None,
        },
        query.aggregation is Some ==> r == match count_aggregate {
            Some(c) => Some(QueryOutcome { result_count: c, exhaustive_scan_count }),
            None => None,
        },
{
    match query.aggregation {
        None => match returned_rows {
            Some(n) => Some(QueryOutcome { result_count: n, exhaustive_scan_count }),
            None => None,
        },
        Some(_) => match count_aggregate {
            Some(c) => Some(QueryOutcome { result_count: c, exhaustive_scan_count }),
            None => None,
        },
    }
}

/// The result count of a valid outcome; an outcome with any exhaustive scan is
/// the fatal invariant violation, whatever its result count.
pub fn validate_outcome(outcome: QueryOutcome) -> (r: Result<u64, BenchError>)
    ensures
        outcome.exhaustive_scan_count == 0 ==> r == Ok::<u64, BenchError>(outcome.result_count),
        outcome.exhaustive_scan_count != 0 ==> r == Err::<u64, BenchError>(
            BenchError::InvariantViolation(outcome.exhaustive_scan_count),
        ),
{
    if outcome.exhaustive_scan_count == 0 {
        Ok(outcome.result_count)
    } else {
        Err(BenchError::InvariantViolation(outcome.exhaustive_scan_count))
    }
}

} // verus!
