//! Decisions on the service's answers during ingestion: HTTP status
//! classification, namespace reset, and index-convergence polling.
use vstd::prelude::*;
use crate::error::BenchError;
use crate::text::str_eq;

verus! {

/// The HTTP status with which the service reports an absent namespace.
pub const STATUS_NOT_FOUND: u16 = 404;

/// Seconds between two index-status polls.
pub const POLL_INTERVAL_SECS: u64 = 10;

pub open spec fn is_success_status(status: u16) -> bool {
    200 <= status && status < 300
}

/// Maps an HTTP status to success or to the fatal `HttpStatus` error.
pub fn check_status(status: u16) -> (r: Result<(), BenchError>)
    ensures
        r is Ok <==> is_success_status(status),
        r is Err ==> r == Err::<(), BenchError>(BenchError::HttpStatus(status)),
{
    if 200 <= status && status < 300 {
        Ok(())
    } else {
        Err(BenchError::HttpStatus(status))
    }
}

/// How a namespace reset ended.
#[derive(Clone, Copy, Debug, PartialEq, Eq)]
pub enum ResetOutcome {
    /// The namespace existed and was deleted.
    Deleted,
    /// The namespace did not exist; that is as good as deleted.
    AlreadyAbsent,
}

/// The outcome of a namespace delete that answered `status`.
pub open spec fn reset_result(status: u16) -> Result<ResetOutcome, BenchError> {
    if status == STATUS_NOT_FOUND {
        Ok(ResetOutcome::AlreadyAbsent)
    } else if is_success_status(status) {
        Ok(ResetOutcome::Deleted)
    } else {
        Err(BenchError::HttpStatus(status))
    }
}

/// The outcome of the namespace delete that answered `status`. An absent
/// namespace is no error: the next upsert creates it afresh.
pub fn reset_outcome(status: u16) -> (r: Result<ResetOutcome, BenchError>)
    ensures
        r == reset_result(status),
{
    if status == STATUS_NOT_FOUND {
        Ok(ResetOutcome::AlreadyAbsent)
    } else {
        match check_status(status) {
            Ok(()) => Ok(ResetOutcome::Deleted),
            Err(e) => Err(e),
        }
    }
}

/// Whether uploads may begin after a reset that ended with `r`.
pub open spec fn ready_for_upload(r: Result<ResetOutcome, BenchError>) -> bool {
    r is Ok
}

/// A reset leaves the namespace ready for the upsert that recreates it both
/// when the namespace existed and when it did not: "not found" is no failure.
pub proof fn lemma_reset_permits_upsert(status: u16)
    requires
        is_success_status(status) || status == STATUS_NOT_FOUND,
    ensures
        ready_for_upload(reset_result(status)),
        status == STATUS_NOT_FOUND ==> reset_result(status) == Ok::<ResetOutcome, BenchError>(
            ResetOutcome::AlreadyAbsent,
        ),
{
}

/// The index status that means every uploaded byte is indexed.
pub open spec fn up_to_date_text() -> Seq<char> {
    "up-to-date"@
}

/// What to do after one index-status poll.
#[derive(Clone, Copy, Debug, PartialEq, Eq)]
pub enum PollDecision {
    /// The index has converged: ingestion is done.
    Converged,
    /// Not yet: report the unindexed byte count, sleep the poll interval, and
    /// poll again.
    Wait { unindexed_bytes: Option<u64> },
}

/// Decides on an index-status answer.
pub fn poll_decision(status: &str, unindexed_bytes: Option<u64>) -> (r: PollDecision)
    ensures
        r == (if status@ == up_to_date_text() {
            PollDecision::Converged
        } else {
            PollDecision::Wait { unindexed_bytes }
        }),
{
    if str_eq(status, "up-to-date") {
        PollDecision::Converged
    } else {
        PollDecision::Wait { unindexed_bytes }
    }
}

} // verus!
