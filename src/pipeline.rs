//! The per-line decisions of the query pipeline.
use vstd::prelude::*;
use crate::compiler::{compile, compiled, in_vocabulary, is_supported, verb_text, CompiledQuery, Verb};
use crate::error::BenchError;
use crate::input::{has_single_tab, split_command_line};
use crate::outcome::{outcome_of, validate_outcome};
use vstd::string::*;
use crate::request::{json_string_literal, query_body, query_body_text};

verus! {

/// What to do with one query input line.
#[derive(Clone, Debug, PartialEq, Eq)]
pub enum QueryStep {
    /// The command names no supported verb: report it and go on, sending
    /// nothing.
    Skip { command: String },
    /// Send `body` to the query endpoint; `query` says how to read the answer.
    Send { query: CompiledQuery, body: String },
}

/// Splits, compiles and renders one query input line.
pub fn prepare_query(line: &str) -> (r: Result<QueryStep, BenchError>)
    ensures
        r is Err <==> !has_single_tab(line@),
        r matches Err(e) ==> e is InputFormat,
        r matches Ok(QueryStep::Skip { command }) ==> !is_supported(command@)
            && exists|query: Seq<char>| line@ == command@ + seq!['\t'] + query,
        r matches Ok(QueryStep::Send { query, body }) ==> {
            &&& exists|v: Verb| in_vocabulary(v) && verb_text(v) + seq!['\t'] + query.text@ == line@
                && #[trigger] compiled(v, query.text@, query)
            &&& body@ == query_body_text(query, json_string_literal(query.text@))
        },
{
    match split_command_line(line) {
        Err(e) => Err(e),
        Ok((command, text)) => match compile(command.as_str(), text.as_str()) {
            None => Ok(QueryStep::Skip { command }),
            Some(query) => {
                let body = query_body(&query);
                Ok(QueryStep::Send { query, body })
            },
        },
    }
}

/// The result count that a query's answer reports: the returned rows of a
/// ranked query, the count aggregate of an aggregation query. An answer with
/// any exhaustive scan is the fatal invariant violation, whatever else it
/// holds; an answer without the part that its query asks for is malformed.
pub fn query_result(
    query: &CompiledQuery,
    returned_rows: Option<u64>,
    count_aggregate: Option<u64>,
    exhaustive_scan_count: u64,
) -> (r: Result<u64, BenchError>)
    ensures
        exhaustive_scan_count != 0 ==> r == Err::<u64, BenchError>(
            BenchError::InvariantViolation(exhaustive_scan_count),
        ),
        exhaustive_scan_count == 0 && query.aggregation is None ==> match returned_rows {
            Some(n) => r == Ok::<u64, BenchError>(n),
            None => r matches Err(BenchError::Transport(_)),
        },
        exhaustive_scan_count == 0 && query.aggregation is Some ==> match count_aggregate {
            Some(c) => r == Ok::<u64, BenchError>(c),
            None => r matches Err(BenchError::Transport(_)),
        },
{
    if exhaustive_scan_count != 0 {
        return Err(BenchError::InvariantViolation(exhaustive_scan_count));
    }
    match outcome_of(query, returned_rows, count_aggregate, exhaustive_scan_count) {
        Some(outcome) => validate_outcome(outcome),
        None => Err(BenchError::Transport(String::from_str("query answer without its result count"))),
    }
}

} // verus!
