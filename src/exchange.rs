//! Submissions to the hub client under a bounded wait, and the answer to
//! incoming messages.
use vstd::prelude::*;

use crate::error::TwinError;
use crate::hub::DispositionResult;

verus! {

/// The bound, in seconds, on every submission to the hub client.
pub const SUBMIT_TIMEOUT_SECS: u64 = 5;

/// How a submission to the hub client ended.
#[derive(Clone, Copy, Debug, PartialEq, Eq, Structural)]
pub enum SubmitOutcome {
    /// The client confirmed it within the bound.
    Completed,
    /// The client answered within the bound with a failure.
    Failed,
    /// The bound passed first.
    TimedOut,
}

/// The result of a submission that ended as `outcome`.
pub open spec fn submission_spec(outcome: SubmitOutcome) -> Result<(), TwinError> {
    match outcome {
        SubmitOutcome::Completed => Ok(()),
        SubmitOutcome::Failed => Err(TwinError::SendFailed),
        SubmitOutcome::TimedOut => Err(TwinError::Timeout),
    }
}

/// The result of a submission that ended as `outcome`; a timed-out one is
/// `Timeout` and is not tried again.
pub fn submission_result(outcome: SubmitOutcome) -> (r: Result<(), TwinError>)
    ensures
        r == submission_spec(outcome),
{
    match outcome {
        SubmitOutcome::Completed => Ok(()),
        SubmitOutcome::Failed => Err(TwinError::SendFailed),
        SubmitOutcome::TimedOut => Err(TwinError::Timeout),
    }
}

/// Every incoming message is accepted; no content decides otherwise.
pub fn accept_incoming_message() -> (r: DispositionResult)
    ensures
        r == DispositionResult::Accepted,
{
    DispositionResult::Accepted
}

} // verus!
