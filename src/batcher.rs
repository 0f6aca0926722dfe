//! Accumulation of parsed documents into fixed-size batches, kept in input
//! order.
use vstd::prelude::*;
use vstd::arithmetic::div_mod::lemma_fundamental_div_mod_converse;

verus! {

/// The default number of documents in a full batch.
pub const BATCH_SIZE: usize = 10_000;

/// The number of batches that `n` documents make in batches of `b`: the
/// ceiling of `n / b`.
pub open spec fn batch_count(n: nat, b: nat) -> nat
    recommends
        b > 0,
{
    ((n + b - 1) as nat / b) as nat
}

/// The abstract state of a batcher.
pub struct BatcherState<T> {
    pub batch_size: nat,
    /// Every document accepted so far, in order.
    pub accepted: Seq<T>,
    /// The batches handed off so far, in dispatch order.
    pub dispatched: Seq<Seq<T>>,
    /// The batch being filled.
    pub pending: Seq<T>,
}

/// Handed-off batches are full, the pending one is not, and together they are
/// exactly the accepted documents in order.
pub open spec fn batcher_ok<T>(s: BatcherState<T>) -> bool {
    &&& s.batch_size > 0
    &&& s.pending.len() < s.batch_size
    &&& forall|i: int| 0 <= i < s.dispatched.len() ==> (#[trigger] s.dispatched[i]).len() == s.batch_size
    &&& s.dispatched.flatten_alt() + s.pending == s.accepted
    &&& s.dispatched.flatten_alt().len() == s.dispatched.len() * s.batch_size
}

/// Accumulates documents into batches of a fixed size.
pub struct DocumentBatcher<T> {
    batch_size: usize,
    pending: Vec<T>,
    accepted: Ghost<Seq<T>>,
    dispatched: Ghost<Seq<Seq<T>>>,
}

impl<T> View for DocumentBatcher<T> {
    type V = BatcherState<T>;

    closed spec fn view(&self) -> BatcherState<T> {
        BatcherState {
            batch_size: self.batch_size as nat,
            accepted: self.accepted@,
            dispatched: self.dispatched@,
            pending: self.pending@,
        }
    }
}

proof fn lemma_count_after_flush(full: nat, rest: nat, b: nat)
    requires
        b > 0,
        rest < b,
    ensures
        batch_count(full * b + rest, b) == full + if rest > 0 { 1nat } else { 0nat },
{
    if rest > 0 {
        assert(full * b + rest + b - 1 == (full + 1) * b + (rest - 1)) by (nonlinear_arith);
        lemma_fundamental_div_mod_converse((full * b + rest + b - 1) as int, b as int, (full + 1) as int, (rest - 1) as int);
    } else {
        assert(full * b + b - 1 == full * b + (b - 1)) by (nonlinear_arith);
        lemma_fundamental_div_mod_converse((full * b + b - 1) as int, b as int, full as int, (b - 1) as int);
    }
}

impl<T> DocumentBatcher<T> {
    /// An empty batcher that hands off batches of `batch_size` documents.
    pub fn new(batch_size: usize) -> (r: Self)
        requires
            batch_size > 0,
        ensures
            r@.batch_size == batch_size,
            r@.accepted.len() == 0,
            r@.dispatched.len() == 0,
            r@.pending.len() == 0,
            batcher_ok(r@),
    {
        let r = DocumentBatcher {
            batch_size,
            pending: Vec::new(),
            accepted: Ghost(Seq::empty()),
            dispatched: Ghost(Seq::empty()),
        };
        assert(r@.dispatched.flatten_alt() + r@.pending =~= r@.accepted);
        r
    }

    /// The number of documents in the batch being filled.
    pub fn pending_len(&self) -> (r: usize)
        ensures
            r == self@.pending.len(),
    {
        self.pending.len()
    }

    /// Appends `doc` to the batch being filled. When that fills the batch, it
    /// is handed off (returned) and a new empty batch begins.
    pub fn accept(&mut self, doc: T) -> (r: Option<Vec<T>>)
        requires
            batcher_ok(old(self)@),
        ensures
            batcher_ok(final(self)@),
            final(self)@.batch_size == old(self)@.batch_size,
            final(self)@.accepted == old(self)@.accepted.push(doc),
            old(self)@.pending.len() + 1 == old(self)@.batch_size ==> {
                &&& r is Some
                &&& r.unwrap()@ == old(self)@.pending.push(doc)
                &&& final(self)@.dispatched == old(self)@.dispatched.push(r.unwrap()@)
                &&& final(self)@.pending.len() == 0
            },
            old(self)@.pending.len() + 1 < old(self)@.batch_size ==> {
                &&& r is None
                &&& final(self)@.dispatched == old(self)@.dispatched
                &&& final(self)@.pending == old(self)@.pending.push(doc)
            },
    {
        let ghost old_state = self@;
        self.pending.push(doc);
        self.accepted = Ghost(self.accepted@.push(doc));
        if self.pending.len() >= self.batch_size {
            let mut full: Vec<T> = Vec::new();
            std::mem::swap(&mut full, &mut self.pending);
            self.dispatched = Ghost(self.dispatched@.push(full@));
            proof {
                let d = self.dispatched@;
                assert(d.drop_last() =~= old_state.dispatched);
                assert(d.flatten_alt() == old_state.dispatched.flatten_alt() + full@);
                assert(d.flatten_alt() + self.pending@ =~= self@.accepted);
                let (n, b) = (old_state.dispatched.len(), self.batch_size as nat);
                assert(n * b + b == (n + 1) * b) by (nonlinear_arith);
            }
            Some(full)
        } else {
            proof {
                assert(self@.dispatched.flatten_alt() + self.pending@ =~= self@.accepted);
            }
            None
        }
    }

    /// Hands off the partial trailing batch, if it holds any document.
    pub fn flush(self) -> (r: Option<Vec<T>>)
        requires
            batcher_ok(self@),
        ensures
            r is None <==> self@.pending.len() == 0,
            r matches Some(b) ==> b@ == self@.pending,
            ({
                let all = match r {
                    Some(b) => self@.dispatched.push(b@),
                    None => self@.dispatched,
                };
                &&& all.flatten_alt() == self@.accepted
                &&& all.len() == batch_count(self@.accepted.len(), self@.batch_size)
            }),
    {
        proof {
            lemma_count_after_flush(self@.dispatched.len(), self@.pending.len(), self@.batch_size);
            assert(self@.accepted.len() == self@.dispatched.len() * self@.batch_size + self@.pending.len());
        }
        if self.pending.len() == 0 {
            proof {
                assert(self@.dispatched.flatten_alt() =~= self@.accepted);
            }
            None
        } else {
            proof {
                let all = self@.dispatched.push(self@.pending);
                assert(all.drop_last() =~= self@.dispatched);
            }
            Some(self.pending)
        }
    }
}

/// Splits `docs` into batches of `batch_size` in input order, as a batcher
/// that accepts them one by one and is then flushed dispatches them. There
/// are `ceil(n / batch_size)` batches; every one but the last is full, and
/// their concatenation is `docs`.
pub fn batch_documents<T>(docs: Vec<T>, batch_size: usize) -> (r: Vec<Vec<T>>)
    requires
        batch_size > 0,
    ensures
        r@.map_values(|b: Vec<T>| b@).flatten_alt() == docs@,
        r@.len() == batch_count(docs@.len(), batch_size as nat),
        forall|i: int| 0 <= i < r@.len() ==> 0 < (#[trigger] r@[i])@.len() <= batch_size,
        forall|i: int| 0 <= i < r@.len() - 1 ==> (#[trigger] r@[i])@.len() == batch_size,
{
    let mut batcher = DocumentBatcher::new(batch_size);
    let mut out: Vec<Vec<T>> = Vec::new();
    let ghost all = docs@;
    let mut docs = docs;
    let mut rest: Vec<T> = Vec::new();
    while docs.len() > 0
        invariant
            docs@ + rest@.reverse() == all,
        decreases docs@.len(),
    {
        let doc = docs.pop().unwrap();
        let ghost before = rest@;
        rest.push(doc);
        proof {
            assert(rest@.reverse() =~= seq![doc] + before.reverse());
            assert(docs@ + rest@.reverse() =~= all);
        }
    }
    assert(rest@.reverse() =~= all);
    while rest.len() > 0
        invariant
            batcher_ok(batcher@),
            batcher@.batch_size == batch_size,
            out@.map_values(|b: Vec<T>| b@) == batcher@.dispatched,
            batcher@.accepted + rest@.reverse() == all,
            forall|i: int| 0 <= i < out@.len() ==> (#[trigger] out@[i])@.len() == batch_size,
        decreases rest@.len(),
    {
        let ghost old_rest = rest@;
        let doc = rest.pop().unwrap();
        let handed = batcher.accept(doc);
        if let Some(b) = handed {
            out.push(b);
        }
        proof {
            assert forall|i: int| 0 <= i < out@.len() implies (#[trigger] out@[i])@.len() == batch_size by {
                assert(out@.map_values(|b: Vec<T>| b@)[i] == out@[i]@);
            }
            assert(out@.map_values(|b: Vec<T>| b@) =~= batcher@.dispatched);
            assert(seq![doc] + rest@.reverse() =~= old_rest.reverse());
            assert(batcher@.accepted + rest@.reverse() =~= all);
        }
    }
    let ghost before = batcher@;
    let last = batcher.flush();
    if let Some(b) = last {
        out.push(b);
    }
    proof {
        assert(before.accepted =~= all);
        assert(out@.map_values(|b: Vec<T>| b@) =~= match last {
            Some(b) => before.dispatched.push(b@),
            None => before.dispatched,
        });
    }
    out
}

} // verus!
