//! Handling of the two input formats: newline-delimited document records for
//! ingestion, and `<COMMAND>\t<query text>` lines for querying.
use vstd::prelude::*;
use vstd::string::*;
use crate::batcher::{batcher_ok, DocumentBatcher};
use crate::error::BenchError;

verus! {

/// The Unicode White_Space property, which `char::is_whitespace` tests.
pub open spec fn is_white_space(c: char) -> bool {
    let u = c as u32;
    ||| 0x9 <= u <= 0xD
    ||| u == 0x20
    ||| u == 0x85
    ||| u == 0xA0
    ||| u == 0x1680
    ||| 0x2000 <= u <= 0x200A
    ||| u == 0x2028
    ||| u == 0x2029
    ||| u == 0x202F
    ||| u == 0x205F
    ||| u == 0x3000
}

/// Whether `serde_json::from_str` accepts `s` as one JSON value.
pub uninterp spec fn parses_as_json(s: Seq<char>) -> bool;

/// Whether `c` has the Unicode White_Space property.
pub fn char_is_whitespace(c: char) -> (r: bool)
    ensures
        r == is_white_space(c),
{
    let u = c as u32;
    (0x9 <= u && u <= 0xD) || u == 0x20 || u == 0x85 || u == 0xA0 || u == 0x1680 || (0x2000 <= u
        && u <= 0x200A) || u == 0x2028 || u == 0x2029 || u == 0x202F || u == 0x205F || u == 0x3000
}

/// Relies on `serde_json::from_str` into a `serde_json::Value`: whether it
/// accepts `s`, a decision that depends on the text alone.
#[verifier::external_body]
fn json_is_well_formed(s: &str) -> (r: bool)
    ensures
        r == parses_as_json(s@),
{
    serde_json::from_str::<serde_json::Value>(s).is_ok()
}

/// A line that holds nothing but whitespace.
pub open spec fn blank(s: Seq<char>) -> bool {
    forall|i: int| 0 <= i < s.len() ==> is_white_space(#[trigger] s[i])
}

/// Whether `line` is blank.
pub fn is_blank(line: &str) -> (r: bool)
    ensures
        r == blank(line@),
{
    let n = line.unicode_len();
    let mut i: usize = 0;
    while i < n
        invariant
            n == line@.len(),
            i <= n,
            forall|j: int| 0 <= j < i ==> is_white_space(#[trigger] line@[j]),
        decreases n - i,
    {
        if !char_is_whitespace(line.get_char(i)) {
            return false;
        }
        i = i + 1;
    }
    true
}

/// Reads one ingestion input line: `None` for a blank line, which is skipped;
/// the record's text for a well-formed record; an input-format error for
/// anything else.
pub fn parse_record(line: &str) -> (r: Result<Option<String>, BenchError>)
    ensures
        blank(line@) ==> r == Ok::<Option<String>, BenchError>(None),
        !blank(line@) && parses_as_json(line@) ==> (r matches Ok(Some(s)) && s@ == line@),
        !blank(line@) && !parses_as_json(line@) ==> r matches Err(BenchError::InputFormat(_)),
{
    if is_blank(line) {
        Ok(None)
    } else if json_is_well_formed(line) {
        Ok(Some(String::from_str(line)))
    } else {
        Err(BenchError::InputFormat(String::from_str("malformed document record")))
    }
}

/// Feeds one ingestion input line to `batcher`: blank lines are skipped, a
/// record is accepted, and a malformed line is an error that leaves the
/// batcher as it was. Returns the batch that the record completed, if any.
pub fn ingest_line(batcher: &mut DocumentBatcher<String>, line: &str) -> (r: Result<Option<Vec<String>>, BenchError>)
    requires
        batcher_ok(old(batcher)@),
    ensures
        batcher_ok(final(batcher)@),
        final(batcher)@.batch_size == old(batcher)@.batch_size,
        blank(line@) ==> (r matches Ok(None) && final(batcher)@ == old(batcher)@),
        !blank(line@) && !parses_as_json(line@) ==> (r matches Err(BenchError::InputFormat(_))
            && final(batcher)@ == old(batcher)@),
        !blank(line@) && parses_as_json(line@) ==> r is Ok && final(batcher)@.accepted.len()
            == old(batcher)@.accepted.len() + 1 && final(batcher)@.accepted.last()@ == line@
            && final(batcher)@.accepted.drop_last() == old(batcher)@.accepted,
        r matches Ok(Some(b)) ==> b@.len() == old(batcher)@.batch_size
            && final(batcher)@.dispatched == old(batcher)@.dispatched.push(b@)
            && final(batcher)@.pending.len() == 0,
        r matches Ok(None) ==> final(batcher)@.dispatched == old(batcher)@.dispatched,
{
    match parse_record(line) {
        Err(e) => Err(e),
        Ok(None) => Ok(None),
        Ok(Some(doc)) => {
            let ghost before = batcher@;
            let handed = batcher.accept(doc);
            proof {
                assert(batcher@.accepted.drop_last() =~= before.accepted);
            }
            Ok(handed)
        },
    }
}

/// `s` holds exactly one tab.
pub open spec fn has_single_tab(s: Seq<char>) -> bool {
    exists|t: int| 0 <= t < s.len() && s[t] == '\t'
        && forall|j: int| 0 <= j < s.len() && j != t ==> #[trigger] s[j] != '\t'
}

/// Splits a query input line into its command token and its query text,
/// which a single tab separates. Any other shape is an input-format error.
pub fn split_command_line(line: &str) -> (r: Result<(String, String), BenchError>)
    ensures
        r is Ok <==> has_single_tab(line@),
        r matches Ok((command, query)) ==> command@ + seq!['\t'] + query@ == line@
            && !command@.contains('\t') && !query@.contains('\t'),
        r is Err ==> r matches Err(BenchError::InputFormat(_)),
{
    let n = line.unicode_len();
    let mut tab: Option<usize> = None;
    let mut i: usize = 0;
    while i < n
        invariant
            n == line@.len(),
            i <= n,
            tab matches Some(t) ==> t < i && line@[t as int] == '\t'
                && forall|j: int| 0 <= j < i && j != t ==> #[trigger] line@[j] != '\t',
            tab is None ==> forall|j: int| 0 <= j < i ==> #[trigger] line@[j] != '\t',
        decreases n - i,
    {
        if line.get_char(i) == '\t' {
            if tab.is_some() {
                let t = tab.unwrap();
                assert(line@[t as int] == '\t' && line@[i as int] == '\t');
                return Err(BenchError::InputFormat(String::from_str("expected a line of the form <COMMAND>\\t<query>")));
            }
            tab = Some(i);
        }
        i = i + 1;
    }
    match tab {
        None => Err(BenchError::InputFormat(String::from_str("expected a line of the form <COMMAND>\\t<query>"))),
        Some(t) => {
            let command = String::from_str(line.substring_char(0, t));
            let query = String::from_str(line.substring_char(t + 1, n));
            proof {
                assert(command@ + seq!['\t'] + query@ =~= line@);
                assert forall|c: char| command@.contains(c) implies c != '\t' by {
                    let k = choose|k: int| 0 <= k < command@.len() && command@[k] == c;
                    assert(line@[k] == c);
                }
                assert forall|c: char| query@.contains(c) implies c != '\t' by {
                    let k = choose|k: int| 0 <= k < query@.len() && query@[k] == c;
                    assert(line@[k + t + 1] == c);
                }
            }
            Ok((command, query))
        },
    }
}

} // verus!
