//! JSON request bodies for the service's upsert and query endpoints.
use vstd::prelude::*;
use vstd::string::*;
use crate::compiler::{
    selectivity_tag, top_k_text, Aggregation, CompiledQuery, Consistency, FilterExpr, Predicate,
    Ranking,
};

verus! {

#[verifier::external_type_specification]
#[verifier::external_body]
pub struct ExJsonError(serde_json::Error);

/// The lowercase hexadecimal digit of `n`, below 16.
pub open spec fn hex_digit(n: u32) -> char {
    seq!['0', '1', '2', '3', '4', '5', '6', '7', '8', '9', 'a', 'b', 'c', 'd', 'e', 'f'][n as int]
}

/// How one character is written inside a JSON string literal: quote and
/// backslash behind a backslash, the five control characters that have a
/// short escape with it, every other control character below 0x20 as
/// `\u00` and two hex digits, and everything else as it is.
pub open spec fn escaped_char(c: char) -> Seq<char> {
    let u = c as u32;
    if c == '"' {
        seq!['\\', '"']
    } else if c == '\\' {
        seq!['\\', '\\']
    } else if u == 0x08 {
        seq!['\\', 'b']
    } else if u == 0x09 {
        seq!['\\', 't']
    } else if u == 0x0A {
        seq!['\\', 'n']
    } else if u == 0x0C {
        seq!['\\', 'f']
    } else if u == 0x0D {
        seq!['\\', 'r']
    } else if u < 0x20 {
        seq!['\\', 'u', '0', '0', hex_digit(u / 16), hex_digit(u % 16)]
    } else {
        seq![c]
    }
}

/// The characters of `s`, each escaped.
pub open spec fn escaped_text(s: Seq<char>) -> Seq<char>
    decreases s.len(),
{
    if s.len() == 0 {
        Seq::empty()
    } else {
        escaped_text(s.drop_last()) + escaped_char(s.last())
    }
}

/// The JSON string literal that denotes `s`.
pub open spec fn json_string_literal(s: Seq<char>) -> Seq<char> {
    seq!['"'] + escaped_text(s) + seq!['"']
}

/// Relies on `serde_json::to_string` applied to a `str`: it writes into a
/// `Vec`, which cannot fail, the text between quotes with the escapes of
/// serde_json's `ESCAPE` table.
#[verifier::external_body]
fn encode_json_string(s: &str) -> (r: Result<String, serde_json::Error>)
    ensures
        r is Ok,
        r matches Ok(t) ==> t@ == json_string_literal(s@),
{
    serde_json::to_string(s)
}

/// The schema sent with every upsert: the id, the full-text-searchable text
/// with its BM25 parameters and without stopword removal, and the tag list.
pub open spec fn schema_text() -> Seq<char> {
    "{\"id\":\"string\",\"text\":{\"type\":\"string\",\"full_text_search\":{\"remove_stopwords\":false,\"k1\":0.9,\"b\":0.4}},\"filter\":{\"type\":\"[]string\"}}"@
}

/// `rows` separated by commas.
pub open spec fn comma_joined(rows: Seq<Seq<char>>) -> Seq<char>
    decreases rows.len(),
{
    if rows.len() == 0 {
        Seq::empty()
    } else if rows.len() == 1 {
        rows[0]
    } else {
        comma_joined(rows.drop_last()) + ","@ + rows.last()
    }
}

/// The upsert body for a batch of JSON records: the rows, the fixed schema,
/// and the flag that turns off the service's admission backpressure.
pub open spec fn upsert_body_text(rows: Seq<Seq<char>>) -> Seq<char> {
    "{\"upsert_rows\":["@ + comma_joined(rows) + "],\"schema\":"@ + schema_text()
        + ",\"disable_backpressure\":true}"@
}

/// Renders the upsert body for `rows`, each the text of one JSON record.
pub fn upsert_body(rows: &Vec<String>) -> (r: String)
    ensures
        r@ == upsert_body_text(rows@.map_values(|s: String| s@)),
{
    let mut out = String::from_str("{\"upsert_rows\":[");
    let ghost start = out@;
    let mut i: usize = 0;
    while i < rows.len()
        invariant
            i <= rows@.len(),
            start == "{\"upsert_rows\":["@,
            out@ == start + comma_joined(rows@.subrange(0, i as int).map_values(|s: String| s@)),
        decreases rows@.len() - i,
    {
        let ghost before = out@;
        if i > 0 {
            out.append(",");
        }
        out.append(rows[i].as_str());
        proof {
            let prev = rows@.subrange(0, i as int).map_values(|s: String| s@);
            let next = rows@.subrange(0, i + 1).map_values(|s: String| s@);
            assert(next.drop_last() =~= prev);
            assert(next.last() == rows@[i as int]@);
            assert(out@ =~= start + comma_joined(next));
        }
        i = i + 1;
    }
    out.append("],\"schema\":");
    out.append("{\"id\":\"string\",\"text\":{\"type\":\"string\",\"full_text_search\":{\"remove_stopwords\":false,\"k1\":0.9,\"b\":0.4}},\"filter\":{\"type\":\"[]string\"}}");
    out.append(",\"disable_backpressure\":true}");
    proof {
        assert(rows@.subrange(0, rows@.len() as int) =~= rows@);
    }
    out
}

pub open spec fn predicate_text(p: Predicate, quoted_query: Seq<char>) -> Seq<char> {
    match p {
        Predicate::TagContains(s) => "[\"filter\",\"Contains\",\""@ + selectivity_tag(s) + "\"]"@,
        Predicate::ContainsAllTokens => "[\"text\",\"ContainsAllTokens\","@ + quoted_query + "]"@,
        Predicate::ContainsAnyToken => "[\"text\",\"ContainsAnyToken\","@ + quoted_query + "]"@,
    }
}

pub open spec fn filter_text(f: FilterExpr, quoted_query: Seq<char>) -> Seq<char> {
    match f {
        FilterExpr::Single(p) => predicate_text(p, quoted_query),
        FilterExpr::And(a, b) => "[\"And\",["@ + predicate_text(a, quoted_query) + ","@
            + predicate_text(b, quoted_query) + "]]"@,
    }
}

pub open spec fn consistency_text(c: Consistency) -> Seq<char> {
    match c {
        Consistency::Eventual => "eventual"@,
        Consistency::Strong => "strong"@,
    }
}

pub open spec fn rank_part(q: CompiledQuery, quoted_query: Seq<char>) -> Seq<char> {
    match q.rank_by {
        Some(Ranking::Bm25) => "\"rank_by\":[\"text\",\"BM25\","@ + quoted_query + "],"@,
        None => Seq::empty(),
    }
}

pub open spec fn aggregate_part(q: CompiledQuery) -> Seq<char> {
    match q.aggregation {
        Some(Aggregation::Count) => "\"aggregate_by\":{\"count\":[\"Count\"]},"@,
        None => Seq::empty(),
    }
}

pub open spec fn filters_part(q: CompiledQuery, quoted_query: Seq<char>) -> Seq<char> {
    match q.filter {
        Some(f) => "\"filters\":"@ + filter_text(f, quoted_query) + ","@,
        None => Seq::empty(),
    }
}

pub open spec fn top_k_part(q: CompiledQuery) -> Seq<char> {
    match q.top_k {
        Some(k) => "\"top_k\":"@ + top_k_text(k) + ","@,
        None => Seq::empty(),
    }
}

/// The query body for `q`, whose text is written as `quoted_query`: each
/// member that `q` asks for, in the order ranking, aggregation, filters,
/// top-k, consistency.
pub open spec fn query_body_text(q: CompiledQuery, quoted_query: Seq<char>) -> Seq<char> {
    "{"@ + rank_part(q, quoted_query) + aggregate_part(q) + filters_part(q, quoted_query) + top_k_part(q)
        + "\"consistency\":{\"level\":\""@ + consistency_text(q.consistency) + "\"}}"@
}

fn append_predicate(out: &mut String, p: Predicate, quoted_query: &str)
    ensures
        final(out)@ == old(out)@ + predicate_text(p, quoted_query@),
{
    match p {
        Predicate::TagContains(s) => {
            out.append("[\"filter\",\"Contains\",\"");
            out.append(s.tag());
            out.append("\"]");
        },
        Predicate::ContainsAllTokens => {
            out.append("[\"text\",\"ContainsAllTokens\",");
            out.append(quoted_query);
            out.append("]");
        },
        Predicate::ContainsAnyToken => {
            out.append("[\"text\",\"ContainsAnyToken\",");
            out.append(quoted_query);
            out.append("]");
        },
    }
    proof {
        assert(final(out)@ =~= old(out)@ + predicate_text(p, quoted_query@));
    }
}

fn append_filters(out: &mut String, q: &CompiledQuery, quoted_query: &str)
    ensures
        final(out)@ == old(out)@ + filters_part(*q, quoted_query@),
{
    if let Some(f) = q.filter {
        out.append("\"filters\":");
        match f {
            FilterExpr::Single(p) => append_predicate(out, p, quoted_query),
            FilterExpr::And(a, b) => {
                out.append("[\"And\",[");
                append_predicate(out, a, quoted_query);
                out.append(",");
                append_predicate(out, b, quoted_query);
                out.append("]]");
            },
        }
        out.append(",");
    }
    proof {
        assert(final(out)@ =~= old(out)@ + filters_part(*q, quoted_query@));
    }
}

fn append_ranking_and_aggregate(out: &mut String, q: &CompiledQuery, quoted_query: &str)
    ensures
        final(out)@ == old(out)@ + rank_part(*q, quoted_query@) + aggregate_part(*q),
{
    let ghost s0 = out@;
    if let Some(Ranking::Bm25) = q.rank_by {
        out.append("\"rank_by\":[\"text\",\"BM25\",");
        out.append(quoted_query);
        out.append("],");
    }
    assert(out@ =~= s0 + rank_part(*q, quoted_query@));
    let ghost s1 = out@;
    if let Some(Aggregation::Count) = q.aggregation {
        out.append("\"aggregate_by\":{\"count\":[\"Count\"]},");
    }
    assert(out@ =~= s1 + aggregate_part(*q));
}

fn append_top_k_and_consistency(out: &mut String, q: &CompiledQuery)
    ensures
        final(out)@ == old(out)@ + top_k_part(*q) + "\"consistency\":{\"level\":\""@
            + consistency_text(q.consistency) + "\"}}"@,
{
    let ghost s0 = out@;
    if let Some(k) = q.top_k {
        out.append("\"top_k\":");
        out.append(k.text());
        out.append(",");
    }
    assert(out@ =~= s0 + top_k_part(*q));
    out.append("\"consistency\":{\"level\":\"");
    match q.consistency {
        Consistency::Eventual => out.append("eventual"),
        Consistency::Strong => out.append("strong"),
    }
    out.append("\"}}");
    assert(final(out)@ =~= old(out)@ + top_k_part(*q) + "\"consistency\":{\"level\":\""@
            + consistency_text(q.consistency) + "\"}}"@);
}

/// Renders the query body for `q`, with its text already written as the JSON
/// string literal `quoted_query`.
pub fn render_query_body(q: &CompiledQuery, quoted_query: &str) -> (r: String)
    ensures
        r@ == query_body_text(*q, quoted_query@),
{
    let mut out = String::from_str("{");
    append_ranking_and_aggregate(&mut out, q, quoted_query);
    append_filters(&mut out, q, quoted_query);
    append_top_k_and_consistency(&mut out, q);
    assert(out@ =~= query_body_text(*q, quoted_query@));
    out
}

/// Renders the query body for `q`, writing its text as a JSON string literal
/// with serde_json.
pub fn query_body(q: &CompiledQuery) -> (r: String)
    ensures
        r@ == query_body_text(*q, json_string_literal(q.text@)),
{
    let quoted = encode_json_string(q.text.as_str()).unwrap();
    render_query_body(q, quoted.as_str())
}

} // verus!
