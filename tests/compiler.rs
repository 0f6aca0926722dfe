use turbopuffer_bench::compiler::{
    compile, compile_verb, parse_verb, vocabulary, Aggregation, CompiledQuery, Consistency,
    FilterExpr, Predicate, Ranking, Selectivity, TopK, Verb,
};
use turbopuffer_bench::pipeline::{prepare_query, QueryStep};
use turbopuffer_bench::error::BenchError;

#[test]
fn top_10_filter_80_is_ranked_with_tag_filter() {
    let q = compile("TOP_10_FILTER_80%", "foo").unwrap();
    assert_eq!(
        q,
        CompiledQuery {
            text: "foo".to_string(),
            rank_by: Some(Ranking::Bm25),
            filter: Some(FilterExpr::Single(Predicate::TagContains(Selectivity::Pct80))),
            top_k: Some(TopK::K10),
            aggregation: None,
            consistency: Consistency::Eventual,
        }
    );
}

#[test]
fn count_of_intersection_uses_only_the_token_filter() {
    let q = compile("COUNT", "foo+bar").unwrap();
    assert_eq!(
        q,
        CompiledQuery {
            text: "foo+bar".to_string(),
            rank_by: None,
            filter: Some(FilterExpr::Single(Predicate::ContainsAllTokens)),
            top_k: None,
            aggregation: Some(Aggregation::Count),
            consistency: Consistency::Eventual,
        }
    );
}

#[test]
fn unsupported_top_bucket_is_skipped() {
    assert_eq!(compile("TOP_5", "x"), None);
    assert_eq!(parse_verb("TOP_5"), None);
    assert_eq!(
        prepare_query("TOP_5\tx"),
        Ok(QueryStep::Skip { command: "TOP_5".to_string() })
    );
}

#[test]
fn count_without_intersection_falls_back_to_any_token() {
    let q = compile("COUNT", "foo bar").unwrap();
    assert_eq!(q.filter, Some(FilterExpr::Single(Predicate::ContainsAnyToken)));
    assert_eq!(q.aggregation, Some(Aggregation::Count));
}

#[test]
fn ranked_without_filter_or_intersection_has_no_filter() {
    let q = compile("TOP_1000", "foo bar").unwrap();
    assert_eq!(q.filter, None);
    assert_eq!(q.top_k, Some(TopK::K1000));
    assert_eq!(q.rank_by, Some(Ranking::Bm25));
}

#[test]
fn selectivity_and_intersection_are_joined_by_and() {
    let q = compile("TOP_100_FILTER_5%", "a+b").unwrap();
    assert_eq!(
        q.filter,
        Some(FilterExpr::And(
            Predicate::TagContains(Selectivity::Pct5),
            Predicate::ContainsAllTokens
        ))
    );
    let c = compile("COUNT_FILTER_20%", "a+b").unwrap();
    assert_eq!(
        c.filter,
        Some(FilterExpr::And(
            Predicate::TagContains(Selectivity::Pct20),
            Predicate::ContainsAllTokens
        ))
    );
    let d = compile("COUNT_FILTER_20%", "a b").unwrap();
    assert_eq!(d.filter, Some(FilterExpr::Single(Predicate::TagContains(Selectivity::Pct20))));
}

#[test]
fn largest_bucket_has_no_filtered_form() {
    assert!(compile("TOP_10000", "x").is_some());
    assert_eq!(compile("TOP_10000_FILTER_80%", "x"), None);
    assert_eq!(compile("top_10", "x"), None);
    assert_eq!(compile("", "x"), None);
}

#[test]
fn vocabulary_tokens_parse_back() {
    let vocab = vocabulary();
    assert_eq!(vocab.len(), 17);
    for v in vocab {
        assert_eq!(parse_verb(&v.token()), Some(v));
    }
    assert_eq!(Verb::Top { k: TopK::K100, filter: Some(Selectivity::Pct5) }.token(), "TOP_100_FILTER_5%");
    assert_eq!(Verb::Count { filter: None }.token(), "COUNT");
    assert_eq!(TopK::K10000.value(), 10000);
}

#[test]
fn compile_verb_keeps_the_raw_text() {
    let q = compile_verb(Verb::Top { k: TopK::K10, filter: None }, "x+y z");
    assert_eq!(q.text, "x+y z");
    assert_eq!(q.filter, Some(FilterExpr::Single(Predicate::ContainsAllTokens)));
}

#[test]
fn malformed_query_line_is_an_input_error() {
    assert!(matches!(prepare_query("TOP_10 foo"), Err(BenchError::InputFormat(_))));
    assert!(matches!(prepare_query("TOP_10\tfoo\tbar"), Err(BenchError::InputFormat(_))));
}

#[test]
fn supported_query_line_is_sent_with_its_body() {
    match prepare_query("TOP_10_FILTER_80%\tfoo").unwrap() {
        QueryStep::Send { query, body } => {
            assert_eq!(query.top_k, Some(TopK::K10));
            assert_eq!(
                body,
                "{\"rank_by\":[\"text\",\"BM25\",\"foo\"],\"filters\":[\"filter\",\"Contains\",\"80%\"],\"top_k\":10,\"consistency\":{\"level\":\"eventual\"}}"
            );
        }
        other => panic!("unexpected step {:?}", other),
    }
}
