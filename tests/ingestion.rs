use turbopuffer_bench::batcher::{batch_documents, DocumentBatcher, BATCH_SIZE};
use turbopuffer_bench::error::BenchError;
use turbopuffer_bench::input::{char_is_whitespace, ingest_line, is_blank, parse_record, split_command_line};
use turbopuffer_bench::lifecycle::{
    check_status, poll_decision, reset_outcome, PollDecision, ResetOutcome, POLL_INTERVAL_SECS,
};
use turbopuffer_bench::request::upsert_body;
use turbopuffer_bench::scheduler::{SubmitDecision, UploadScheduler, MAX_CONCURRENCY};

#[test]
fn batches_are_ceiling_many_and_keep_input_order() {
    let docs: Vec<u32> = (0..25).collect();
    let batches = batch_documents(docs.clone(), 10);
    assert_eq!(batches.len(), 3);
    assert_eq!(batches[0].len(), 10);
    assert_eq!(batches[2].len(), 5);
    let joined: Vec<u32> = batches.into_iter().flatten().collect();
    assert_eq!(joined, docs);
}

#[test]
fn exact_multiple_and_empty_inputs() {
    let docs: Vec<u32> = (0..20).collect();
    assert_eq!(batch_documents(docs, 10).len(), 2);
    assert_eq!(batch_documents(Vec::<u32>::new(), 10).len(), 0);
    assert_eq!(batch_documents(vec![7u32], BATCH_SIZE), vec![vec![7u32]]);
}

#[test]
fn batcher_hands_off_full_batches_and_flushes_the_rest() {
    let mut b = DocumentBatcher::new(2);
    assert_eq!(b.accept("a"), None);
    assert_eq!(b.accept("b"), Some(vec!["a", "b"]));
    assert_eq!(b.pending_len(), 0);
    assert_eq!(b.accept("c"), None);
    assert_eq!(b.flush(), Some(vec!["c"]));
    let empty: DocumentBatcher<u8> = DocumentBatcher::new(3);
    assert_eq!(empty.flush(), None);
}

#[test]
fn scheduler_never_exceeds_capacity() {
    let mut s = UploadScheduler::new(2);
    assert_eq!(s.submit(), SubmitDecision::Start);
    assert_eq!(s.submit(), SubmitDecision::Start);
    assert_eq!(s.submit(), SubmitDecision::WaitForCompletion);
    assert_eq!(s.in_flight(), 2);
    s.complete(Ok(()));
    assert_eq!(s.submit(), SubmitDecision::Start);
    assert_eq!(s.in_flight(), s.capacity());
    s.complete(Ok(()));
    s.complete(Ok(()));
    assert!(s.is_drained());
    assert_eq!(s.finish(), Ok(()));
    assert_eq!(MAX_CONCURRENCY, 32);
}

#[test]
fn scheduler_refuses_after_failure_and_reports_the_first() {
    let mut s = UploadScheduler::new(MAX_CONCURRENCY);
    assert_eq!(s.submit(), SubmitDecision::Start);
    assert_eq!(s.submit(), SubmitDecision::Start);
    assert_eq!(s.submit(), SubmitDecision::Start);
    s.complete(Err(BenchError::HttpStatus(500)));
    assert!(s.has_failed());
    assert_eq!(s.submit(), SubmitDecision::Refuse);
    s.complete(Err(BenchError::HttpStatus(503)));
    s.complete(Ok(()));
    assert!(s.is_drained());
    assert_eq!(s.finish(), Err(BenchError::HttpStatus(500)));
}

#[test]
fn reset_accepts_a_missing_namespace() {
    assert_eq!(reset_outcome(404), Ok(ResetOutcome::AlreadyAbsent));
    assert_eq!(reset_outcome(200), Ok(ResetOutcome::Deleted));
    assert_eq!(reset_outcome(202), Ok(ResetOutcome::Deleted));
    assert_eq!(reset_outcome(500), Err(BenchError::HttpStatus(500)));
    assert_eq!(reset_outcome(401), Err(BenchError::HttpStatus(401)));
}

#[test]
fn status_classification() {
    assert_eq!(check_status(200), Ok(()));
    assert_eq!(check_status(299), Ok(()));
    assert_eq!(check_status(199), Err(BenchError::HttpStatus(199)));
    assert_eq!(check_status(300), Err(BenchError::HttpStatus(300)));
}

#[test]
fn polling_stops_only_when_up_to_date() {
    assert_eq!(poll_decision("up-to-date", None), PollDecision::Converged);
    assert_eq!(
        poll_decision("updating", Some(1234)),
        PollDecision::Wait { unindexed_bytes: Some(1234) }
    );
    assert_eq!(
        poll_decision("up-to-date ", None),
        PollDecision::Wait { unindexed_bytes: None }
    );
    assert_eq!(POLL_INTERVAL_SECS, 10);
}

#[test]
fn blank_lines_and_records() {
    assert!(is_blank(""));
    assert!(is_blank("  \t \u{3000}"));
    assert!(!is_blank(" x "));
    assert_eq!(parse_record("   "), Ok(None));
    assert_eq!(
        parse_record("{\"id\":\"1\",\"text\":\"a b\",\"filter\":[\"80%\"]}"),
        Ok(Some("{\"id\":\"1\",\"text\":\"a b\",\"filter\":[\"80%\"]}".to_string()))
    );
    assert!(matches!(parse_record("{\"id\":"), Err(BenchError::InputFormat(_))));
    assert!(matches!(parse_record("not json"), Err(BenchError::InputFormat(_))));
}

#[test]
fn ingest_line_feeds_the_batcher() {
    let mut b = DocumentBatcher::new(2);
    assert_eq!(ingest_line(&mut b, ""), Ok(None));
    assert_eq!(ingest_line(&mut b, "{\"id\":\"1\"}"), Ok(None));
    assert!(matches!(ingest_line(&mut b, "{"), Err(BenchError::InputFormat(_))));
    assert_eq!(b.pending_len(), 1);
    assert_eq!(
        ingest_line(&mut b, "{\"id\":\"2\"}"),
        Ok(Some(vec!["{\"id\":\"1\"}".to_string(), "{\"id\":\"2\"}".to_string()]))
    );
}

#[test]
fn command_lines_split_on_their_single_tab() {
    assert_eq!(
        split_command_line("COUNT\tfoo bar"),
        Ok(("COUNT".to_string(), "foo bar".to_string()))
    );
    assert_eq!(split_command_line("\t"), Ok((String::new(), String::new())));
    assert!(matches!(split_command_line("COUNT foo"), Err(BenchError::InputFormat(_))));
    assert!(matches!(split_command_line("a\tb\tc"), Err(BenchError::InputFormat(_))));
}

#[test]
fn upsert_body_joins_rows_and_carries_the_schema() {
    let rows = vec!["{\"id\":\"1\"}".to_string(), "{\"id\":\"2\"}".to_string()];
    assert_eq!(
        upsert_body(&rows),
        "{\"upsert_rows\":[{\"id\":\"1\"},{\"id\":\"2\"}],\"schema\":{\"id\":\"string\",\"text\":{\"type\":\"string\",\"full_text_search\":{\"remove_stopwords\":false,\"k1\":0.9,\"b\":0.4}},\"filter\":{\"type\":\"[]string\"}},\"disable_backpressure\":true}"
    );
    let body = upsert_body(&Vec::new());
    assert!(body.starts_with("{\"upsert_rows\":[],"));
}

#[test]
fn whitespace_agrees_with_std() {
    for u in 0u32..0x3100 {
        if let Some(c) = char::from_u32(u) {
            assert_eq!(char_is_whitespace(c), c.is_whitespace(), "code point {:#x}", u);
        }
    }
    assert!(!char_is_whitespace('\u{feff}'));
}

#[test]
fn batches_but_the_last_are_full() {
    let docs: Vec<u32> = (0..25).collect();
    let sizes: Vec<usize> = batch_documents(docs, 10).iter().map(|b| b.len()).collect();
    assert_eq!(sizes, vec![10, 10, 5]);
}
