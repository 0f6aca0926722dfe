//! Compilation of a benchmark command (a verb and a raw query text) into a
//! structured search or aggregation request.
use vstd::prelude::*;
use vstd::string::*;
use crate::text::{contains_char, str_eq};

verus! {

/// The fraction of the corpus that a selectivity filter keeps; each fraction
/// is a tag carried by the documents in their filter field.
#[derive(Clone, Copy, Debug, PartialEq, Eq)]
pub enum Selectivity {
    Pct80,
    Pct20,
    Pct5,
}

/// The number of ranked rows that a ranked query asks for.
#[derive(Clone, Copy, Debug, PartialEq, Eq)]
pub enum TopK {
    K10,
    K100,
    K1000,
    K10000,
}

/// A verb of the benchmark's command vocabulary.
#[derive(Clone, Copy, Debug, PartialEq, Eq)]
pub enum Verb {
    /// `TOP_<k>` or `TOP_<k>_FILTER_<pct>%`.
    Top { k: TopK, filter: Option<Selectivity> },
    /// `COUNT` or `COUNT_FILTER_<pct>%`.
    Count { filter: Option<Selectivity> },
}

/// One predicate of a filter expression. The token predicates apply to the
/// query's own text.
#[derive(Clone, Copy, Debug, PartialEq, Eq)]
pub enum Predicate {
    /// The filter field contains the selectivity's tag.
    TagContains(Selectivity),
    /// Every token of the query text occurs in the document text.
    ContainsAllTokens,
    /// At least one token of the query text occurs in the document text.
    ContainsAnyToken,
}

/// A filter expression: one predicate, or the conjunction of two.
#[derive(Clone, Copy, Debug, PartialEq, Eq)]
pub enum FilterExpr {
    Single(Predicate),
    And(Predicate, Predicate),
}

/// How ranked rows are ordered.
#[derive(Clone, Copy, Debug, PartialEq, Eq)]
pub enum Ranking {
    /// BM25 relevance of the text field to the query text.
    Bm25,
}

/// The aggregate that an aggregation query asks for.
#[derive(Clone, Copy, Debug, PartialEq, Eq)]
pub enum Aggregation {
    Count,
}

/// The consistency level that a query asks of the service.
#[derive(Clone, Copy, Debug, PartialEq, Eq)]
pub enum Consistency {
    Eventual,
    Strong,
}

/// A structured request, built once per command.
#[derive(Clone, Debug, PartialEq, Eq)]
pub struct CompiledQuery {
    /// The raw query text.
    pub text: String,
    pub rank_by: Option<Ranking>,
    pub filter: Option<FilterExpr>,
    /// `None` for aggregation queries (conceptually a top-k of zero).
    pub top_k: Option<TopK>,
    pub aggregation: Option<Aggregation>,
    pub consistency: Consistency,
}

pub open spec fn top_k_value(k: TopK) -> nat {
    match k {
        TopK::K10 => 10,
        TopK::K100 => 100,
        TopK::K1000 => 1000,
        TopK::K10000 => 10000,
    }
}

pub open spec fn top_k_text(k: TopK) -> Seq<char> {
    match k {
        TopK::K10 => "10"@,
        TopK::K100 => "100"@,
        TopK::K1000 => "1000"@,
        TopK::K10000 => "10000"@,
    }
}

pub open spec fn selectivity_tag(s: Selectivity) -> Seq<char> {
    match s {
        Selectivity::Pct80 => "80%"@,
        Selectivity::Pct20 => "20%"@,
        Selectivity::Pct5 => "5%"@,
    }
}

pub open spec fn filter_suffix(f: Option<Selectivity>) -> Seq<char> {
    match f {
        Some(s) => "_FILTER_"@ + selectivity_tag(s),
        None => Seq::empty(),
    }
}

/// The command token that names a verb.
pub open spec fn verb_text(v: Verb) -> Seq<char> {
    match v {
        Verb::Top { k, filter } => "TOP_"@ + top_k_text(k) + filter_suffix(filter),
        Verb::Count { filter } => "COUNT"@ + filter_suffix(filter),
    }
}

/// The fixed vocabulary: every ranked bucket up to ten thousand rows without a
/// filter, up to a thousand rows with one, and counting with or without one.
pub open spec fn in_vocabulary(v: Verb) -> bool {
    match v {
        Verb::Top { k, filter } => filter is None || k != TopK::K10000,
        Verb::Count { .. } => true,
    }
}

/// A command token names a supported verb.
pub open spec fn is_supported(token: Seq<char>) -> bool {
    exists|v: Verb| in_vocabulary(v) && verb_text(v) == token
}

/// A query text that holds a `+` asks for documents holding all its terms.
pub open spec fn is_intersection(q: Seq<char>) -> bool {
    q.contains('+')
}

pub open spec fn verb_selectivity(v: Verb) -> Option<Selectivity> {
    match v {
        Verb::Top { filter, .. } => filter,
        Verb::Count { filter } => filter,
    }
}

/// The filter of the request compiled from `v` and query text `q`: the
/// selectivity predicate and the intersection predicate joined by AND where
/// both apply, the one that applies alone, and otherwise none for ranked
/// queries and "any token" for counts.
pub open spec fn compiled_filter(v: Verb, q: Seq<char>) -> Option<FilterExpr> {
    match verb_selectivity(v) {
        Some(s) => if is_intersection(q) {
            Some(FilterExpr::And(Predicate::TagContains(s), Predicate::ContainsAllTokens))
        } else {
            Some(FilterExpr::Single(Predicate::TagContains(s)))
        },
        None => if is_intersection(q) {
            Some(FilterExpr::Single(Predicate::ContainsAllTokens))
        } else if v is Count {
            Some(FilterExpr::Single(Predicate::ContainsAnyToken))
        } else {
            None
        },
    }
}

/// The request compiled from verb `v` and query text `q`.
pub open spec fn compiled(v: Verb, q: Seq<char>, r: CompiledQuery) -> bool {
    &&& r.text@ == q
    &&& r.filter == compiled_filter(v, q)
    &&& r.consistency == Consistency::Eventual
    &&& match v {
        Verb::Top { k, .. } => {
            &&& r.rank_by == Some(Ranking::Bm25)
            &&& r.top_k == Some(k)
            &&& r.aggregation is None
        },
        Verb::Count { .. } => {
            &&& r.rank_by is None
            &&& r.top_k is None
            &&& r.aggregation == Some(Aggregation::Count)
        },
    }
}

impl TopK {
    pub fn value(self) -> (r: u32)
        ensures
            r as nat == top_k_value(self),
    {
        match self {
            TopK::K10 => 10,
            TopK::K100 => 100,
            TopK::K1000 => 1000,
            TopK::K10000 => 10000,
        }
    }

    /// The decimal text of the bucket.
    pub fn text(self) -> (r: &'static str)
        ensures
            r@ == top_k_text(self),
    {
        match self {
            TopK::K10 => "10",
            TopK::K100 => "100",
            TopK::K1000 => "1000",
            TopK::K10000 => "10000",
        }
    }
}

impl Selectivity {
    /// The tag that documents in this fraction carry.
    pub fn tag(self) -> (r: &'static str)
        ensures
            r@ == selectivity_tag(self),
    {
        match self {
            Selectivity::Pct80 => "80%",
            Selectivity::Pct20 => "20%",
            Selectivity::Pct5 => "5%",
        }
    }
}

impl Verb {
    /// The command token of this verb.
    pub fn token(self) -> (r: String)
        ensures
            r@ == verb_text(self),
    {
        let (mut s, filter) = match self {
            Verb::Top { k, filter } => {
                let mut s = String::from_str("TOP_");
                s.append(k.text());
                (s, filter)
            },
            Verb::Count { filter } => (String::from_str("COUNT"), filter),
        };
        if let Some(sel) = filter {
            s.append("_FILTER_");
            s.append(sel.tag());
        }
        proof {
            assert(filter_suffix(filter) == Seq::<char>::empty() ==> s@ + filter_suffix(filter) =~= s@);
        }
        s
    }
}

/// Every verb of the vocabulary.
pub fn vocabulary() -> (r: Vec<Verb>)
    ensures
        forall|v: Verb| #[trigger] in_vocabulary(v) <==> r@.contains(v),
{
    let pct80 = Some(Selectivity::Pct80);
    let pct20 = Some(Selectivity::Pct20);
    let pct5 = Some(Selectivity::Pct5);
    let r = vec![
        Verb::Top { k: TopK::K10, filter: None },
        Verb::Top { k: TopK::K100, filter: None },
        Verb::Top { k: TopK::K1000, filter: None },
        Verb::Top { k: TopK::K10000, filter: None },
        Verb::Top { k: TopK::K10, filter: pct80 },
        Verb::Top { k: TopK::K10, filter: pct20 },
        Verb::Top { k: TopK::K10, filter: pct5 },
        Verb::Top { k: TopK::K100, filter: pct80 },
        Verb::Top { k: TopK::K100, filter: pct20 },
        Verb::Top { k: TopK::K100, filter: pct5 },
        Verb::Top { k: TopK::K1000, filter: pct80 },
        Verb::Top { k: TopK::K1000, filter: pct20 },
        Verb::Top { k: TopK::K1000, filter: pct5 },
        Verb::Count { filter: None },
        Verb::Count { filter: pct80 },
        Verb::Count { filter: pct20 },
        Verb::Count { filter: pct5 },
    ];
    assert forall|v: Verb| #[trigger] in_vocabulary(v) <==> r@.contains(v) by {
        if r@.contains(v) {
            let idx = choose|idx: int| 0 <= idx < r@.len() && r@[idx] == v;
            assert(in_vocabulary(r@[idx]));
        }
        if in_vocabulary(v) {
            let j: int = match v {
                Verb::Top { k: TopK::K10, filter: None } => 0,
                Verb::Top { k: TopK::K100, filter: None } => 1,
                Verb::Top { k: TopK::K1000, filter: None } => 2,
                Verb::Top { k: TopK::K10000, filter: None } => 3,
                Verb::Top { k: TopK::K10, filter: Some(Selectivity::Pct80) } => 4,
                Verb::Top { k: TopK::K10, filter: Some(Selectivity::Pct20) } => 5,
                Verb::Top { k: TopK::K10, filter: Some(Selectivity::Pct5) } => 6,
                Verb::Top { k: TopK::K100, filter: Some(Selectivity::Pct80) } => 7,
                Verb::Top { k: TopK::K100, filter: Some(Selectivity::Pct20) } => 8,
                Verb::Top { k: TopK::K100, filter: Some(Selectivity::Pct5) } => 9,
                Verb::Top { k: TopK::K1000, filter: Some(Selectivity::Pct80) } => 10,
                Verb::Top { k: TopK::K1000, filter: Some(Selectivity::Pct20) } => 11,
                Verb::Top { k: TopK::K1000, filter: Some(Selectivity::Pct5) } => 12,
                Verb::Count { filter: None } => 13,
                Verb::Count { filter: Some(Selectivity::Pct80) } => 14,
                Verb::Count { filter: Some(Selectivity::Pct20) } => 15,
                Verb::Count { filter: Some(Selectivity::Pct5) } => 16,
                _ => 0,
            };
            assert(r@[j] == v);
        }
    }
    r
}

/// The verb that a command token names, if it names one of the vocabulary.
pub fn parse_verb(token: &str) -> (r: Option<Verb>)
    ensures
        r is None <==> !is_supported(token@),
        r matches Some(v) ==> in_vocabulary(v) && verb_text(v) == token@,
{
    let vocab = vocabulary();
    let mut i: usize = 0;
    while i < vocab.len()
        invariant
            i <= vocab@.len(),
            forall|v: Verb| #[trigger] in_vocabulary(v) <==> vocab@.contains(v),
            forall|j: int| 0 <= j < i ==> verb_text(#[trigger] vocab@[j]) != token@,
        decreases vocab@.len() - i,
    {
        let v = vocab[i];
        let t = v.token();
        if str_eq(t.as_str(), token) {
            assert(vocab@.contains(v));
            return Some(v);
        }
        i = i + 1;
    }
    assert forall|v: Verb| in_vocabulary(v) implies verb_text(v) != token@ by {
        assert(vocab@.contains(v));
        let idx = choose|idx: int| 0 <= idx < vocab@.len() && vocab@[idx] == v;
        assert(verb_text(vocab@[idx]) != token@);
    }
    None
}

/// Builds the request for verb `v` and query text `query`.
pub fn compile_verb(v: Verb, query: &str) -> (r: CompiledQuery)
    ensures
        compiled(v, query@, r),
{
    let intersection = contains_char(query, '+');
    let selectivity = match v {
        Verb::Top { filter, .. } => filter,
        Verb::Count { filter } => filter,
    };
    let filter = match selectivity {
        Some(s) => if intersection {
            Some(FilterExpr::And(Predicate::TagContains(s), Predicate::ContainsAllTokens))
        } else {
            Some(FilterExpr::Single(Predicate::TagContains(s)))
        },
        None => if intersection {
            Some(FilterExpr::Single(Predicate::ContainsAllTokens))
        } else if matches!(v, Verb::Count { .. }) {
            Some(FilterExpr::Single(Predicate::ContainsAnyToken))
        } else {
            None
        },
    };
    let text = String::from_str(query);
    match v {
        Verb::Top { k, .. } => CompiledQuery {
            text,
            rank_by: Some(Ranking::Bm25),
            filter,
            top_k: Some(k),
            aggregation: None,
            consistency: Consistency::Eventual,
        },
        Verb::Count { .. } => CompiledQuery {
            text,
            rank_by: None,
            filter,
            top_k: None,
            aggregation: Some(Aggregation::Count),
            consistency: Consistency::Eventual,
        },
    }
}

/// Compiles a command token and a query text. `None` means the token names no
/// supported verb: the command is to be skipped, and nothing is sent.
pub fn compile(command: &str, query: &str) -> (r: Option<CompiledQuery>)
    ensures
        r is None <==> !is_supported(command@),
        r matches Some(q) ==> exists|v: Verb|
            in_vocabulary(v) && verb_text(v) == command@ && #[trigger] compiled(v, query@, q),
{
    match parse_verb(command) {
        Some(v) => {
            let q = compile_verb(v, query);
            assert(compiled(v, query@, q));
            Some(q)
        },
        None => None,
    }
}

} // verus!
