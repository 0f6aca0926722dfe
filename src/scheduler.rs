//! Bounded-concurrency dispatch of batch uploads, with backpressure on the
//! producer and a fail-fast-after-drain error policy.
//!
//! The scheduler only decides; whoever owns the network performs the uploads
//! it starts and reports each completion back.
use vstd::prelude::*;
use crate::error::BenchError;

verus! {

/// The default number of uploads allowed in flight at once.
pub const MAX_CONCURRENCY: usize = 32;

/// What the producer is to do with the batch it wants to submit.
#[derive(Clone, Copy, Debug, PartialEq, Eq)]
pub enum SubmitDecision {
    /// A slot was taken: start the upload now.
    Start,
    /// Every slot is busy: await one completion, report it, then submit again.
    WaitForCompletion,
    /// An upload has failed: submit nothing more, drain, and end the run.
    Refuse,
}

/// The abstract state of a scheduler.
pub struct SchedulerState {
    pub capacity: nat,
    pub in_flight: nat,
    /// The first upload failure reported, if any.
    pub first_error: Option<BenchError>,
}

/// An event that a scheduler is handed.
pub enum SchedulerEvent {
    Submit,
    Complete(Result<(), BenchError>),
}

pub open spec fn state_ok(s: SchedulerState) -> bool {
    s.capacity > 0 && s.in_flight <= s.capacity
}

/// The decision on a submission and the state after it.
pub open spec fn submit_step(s: SchedulerState) -> (SchedulerState, SubmitDecision) {
    if s.first_error is Some {
        (s, SubmitDecision::Refuse)
    } else if s.in_flight < s.capacity {
        (SchedulerState { in_flight: s.in_flight + 1, ..s }, SubmitDecision::Start)
    } else {
        (s, SubmitDecision::WaitForCompletion)
    }
}

/// The state after an upload completed with `outcome`; the first failure is
/// kept, later ones are dropped. A completion with nothing in flight changes
/// nothing.
pub open spec fn complete_step(s: SchedulerState, outcome: Result<(), BenchError>) -> SchedulerState {
    if s.in_flight == 0 {
        s
    } else {
        SchedulerState {
            in_flight: (s.in_flight - 1) as nat,
            first_error: match (s.first_error, outcome) {
                (None, Err(e)) => Some(e),
                (prev, _) => prev,
            },
            ..s
        }
    }
}

pub open spec fn event_step(s: SchedulerState, e: SchedulerEvent) -> SchedulerState {
    match e {
        SchedulerEvent::Submit => submit_step(s).0,
        SchedulerEvent::Complete(outcome) => complete_step(s, outcome),
    }
}

/// The state after handing `events` to a scheduler in state `s`, in order.
pub open spec fn run_events(s: SchedulerState, events: Seq<SchedulerEvent>) -> SchedulerState
    decreases events.len(),
{
    if events.len() == 0 {
        s
    } else {
        event_step(run_events(s, events.drop_last()), events.last())
    }
}

/// Whatever events a well-formed scheduler is handed, it never has more
/// uploads in flight than its capacity, and the capacity never changes.
pub proof fn lemma_in_flight_never_exceeds_capacity(s: SchedulerState, events: Seq<SchedulerEvent>)
    requires
        state_ok(s),
    ensures
        run_events(s, events).capacity == s.capacity,
        run_events(s, events).in_flight <= s.capacity,
    decreases events.len(),
{
    if events.len() > 0 {
        lemma_in_flight_never_exceeds_capacity(s, events.drop_last());
    }
}

/// Once a failure is known, it stays known and no further upload starts.
pub proof fn lemma_no_start_after_failure(s: SchedulerState, events: Seq<SchedulerEvent>)
    requires
        s.first_error is Some,
    ensures
        run_events(s, events).first_error == s.first_error,
        run_events(s, events).in_flight <= s.in_flight,
        submit_step(run_events(s, events)).1 == SubmitDecision::Refuse,
    decreases events.len(),
{
    if events.len() > 0 {
        lemma_no_start_after_failure(s, events.drop_last());
    }
}

/// A fixed-capacity set of in-flight uploads with a blocking submit.
pub struct UploadScheduler {
    capacity: usize,
    in_flight: usize,
    first_error: Option<BenchError>,
}

impl View for UploadScheduler {
    type V = SchedulerState;

    closed spec fn view(&self) -> SchedulerState {
        SchedulerState {
            capacity: self.capacity as nat,
            in_flight: self.in_flight as nat,
            first_error: self.first_error,
        }
    }
}

impl UploadScheduler {
    /// A scheduler with nothing in flight and no failure.
    pub fn new(capacity: usize) -> (r: Self)
        requires
            capacity > 0,
        ensures
            r@ == (SchedulerState { capacity: capacity as nat, in_flight: 0, first_error: None }),
            state_ok(r@),
    {
        UploadScheduler { capacity, in_flight: 0, first_error: None }
    }

    pub fn capacity(&self) -> (r: usize)
        ensures
            r as nat == self@.capacity,
    {
        self.capacity
    }

    pub fn in_flight(&self) -> (r: usize)
        ensures
            r as nat == self@.in_flight,
    {
        self.in_flight
    }

    /// Whether an upload has failed.
    pub fn has_failed(&self) -> (r: bool)
        ensures
            r == self@.first_error is Some,
    {
        self.first_error.is_some()
    }

    /// Whether every dispatched upload has completed.
    pub fn is_drained(&self) -> (r: bool)
        ensures
            r == (self@.in_flight == 0),
    {
        self.in_flight == 0
    }

    /// Asks for a slot for one more upload.
    pub fn submit(&mut self) -> (r: SubmitDecision)
        requires
            state_ok(old(self)@),
        ensures
            (final(self)@, r) == submit_step(old(self)@),
            state_ok(final(self)@),
    {
        if self.first_error.is_some() {
            SubmitDecision::Refuse
        } else if self.in_flight < self.capacity {
            self.in_flight = self.in_flight + 1;
            SubmitDecision::Start
        } else {
            SubmitDecision::WaitForCompletion
        }
    }

    /// Reports that one in-flight upload finished with `outcome`.
    pub fn complete(&mut self, outcome: Result<(), BenchError>)
        requires
            state_ok(old(self)@),
            old(self)@.in_flight > 0,
        ensures
            final(self)@ == complete_step(old(self)@, outcome),
            state_ok(final(self)@),
    {
        self.in_flight = self.in_flight - 1;
        if self.first_error.is_none() {
            if let Err(e) = outcome {
                self.first_error = Some(e);
            }
        }
    }

    /// The result of the run once everything dispatched has completed: the
    /// first failure, if there was one.
    pub fn finish(self) -> (r: Result<(), BenchError>)
        requires
            self@.in_flight == 0,
        ensures
            r == (match self@.first_error {
                Some(e) => Err(e),
                None => Ok(()),
            }),
    {
        match self.first_error {
            Some(e) => Err(e),
            None => Ok(()),
        }
    }
}

} // verus!
