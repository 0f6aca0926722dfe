use turbopuffer_bench::compiler::compile;
use turbopuffer_bench::error::BenchError;
use turbopuffer_bench::outcome::{outcome_of, validate_outcome, QueryOutcome};
use turbopuffer_bench::pipeline::query_result;
use turbopuffer_bench::request::{query_body, render_query_body};

#[test]
fn clean_outcome_reports_its_row_count() {
    let q = compile("TOP_100", "foo").unwrap();
    assert_eq!(query_result(&q, Some(37), None, 0), Ok(37));
    assert_eq!(
        validate_outcome(QueryOutcome { result_count: 37, exhaustive_scan_count: 0 }),
        Ok(37)
    );
}

#[test]
fn exhaustive_scan_is_an_invariant_violation() {
    let q = compile("TOP_100", "foo").unwrap();
    assert_eq!(query_result(&q, Some(37), None, 1), Err(BenchError::InvariantViolation(1)));
    assert_eq!(query_result(&q, None, None, 1), Err(BenchError::InvariantViolation(1)));
    assert_eq!(
        validate_outcome(QueryOutcome { result_count: 5, exhaustive_scan_count: 3 }),
        Err(BenchError::InvariantViolation(3))
    );
}

#[test]
fn ranked_answer_without_rows_is_malformed() {
    let q = compile("TOP_10", "foo").unwrap();
    assert!(matches!(query_result(&q, None, Some(3), 0), Err(BenchError::Transport(_))));
    assert_eq!(outcome_of(&q, None, Some(3), 0), None);
}

#[test]
fn aggregation_reports_its_count() {
    let q = compile("COUNT", "foo").unwrap();
    assert_eq!(query_result(&q, None, Some(4321), 0), Ok(4321));
    assert!(matches!(query_result(&q, None, None, 0), Err(BenchError::Transport(_))));
    assert_eq!(outcome_of(&q, Some(1), None, 0), None);
    assert_eq!(
        outcome_of(&q, None, Some(9), 0),
        Some(QueryOutcome { result_count: 9, exhaustive_scan_count: 0 })
    );
}

#[test]
fn count_body_has_aggregate_and_fallback_filter() {
    let q = compile("COUNT", "foo bar").unwrap();
    assert_eq!(
        query_body(&q),
        "{\"aggregate_by\":{\"count\":[\"Count\"]},\"filters\":[\"text\",\"ContainsAnyToken\",\"foo bar\"],\"consistency\":{\"level\":\"eventual\"}}"
    );
}

#[test]
fn filtered_intersection_body_nests_and() {
    let q = compile("TOP_1000_FILTER_20%", "a+b").unwrap();
    assert_eq!(
        render_query_body(&q, "Q"),
        "{\"rank_by\":[\"text\",\"BM25\",Q],\"filters\":[\"And\",[[\"filter\",\"Contains\",\"20%\"],[\"text\",\"ContainsAllTokens\",Q]]],\"top_k\":1000,\"consistency\":{\"level\":\"eventual\"}}"
    );
}

#[test]
fn query_text_is_escaped_in_the_body() {
    let q = compile("TOP_10", "say \"hi\"\\").unwrap();
    assert_eq!(
        query_body(&q),
        "{\"rank_by\":[\"text\",\"BM25\",\"say \\\"hi\\\"\\\\\"],\"top_k\":10,\"consistency\":{\"level\":\"eventual\"}}"
    );
}

#[test]
fn control_characters_are_escaped_in_the_body() {
    let q = compile("TOP_10", "a\nb\tc\u{1}\u{1f}\u{8}\u{c}\r/é").unwrap();
    assert_eq!(
        query_body(&q),
        "{\"rank_by\":[\"text\",\"BM25\",\"a\\nb\\tc\\u0001\\u001f\\b\\f\\r/é\"],\"top_k\":10,\"consistency\":{\"level\":\"eventual\"}}"
    );
}
