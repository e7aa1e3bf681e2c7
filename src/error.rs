use vstd::prelude::*;

use crate::hub::UnauthenticatedReason;

verus! {

/// Every failure the orchestrator distinguishes.
#[derive(Clone, Copy, Debug, PartialEq, Eq, Structural)]
pub enum TwinError {
    /// The hub client lost its authentication for a reason it will not recover from.
    AuthenticationFailed(UnauthenticatedReason),
    /// A cloud round-trip did not complete within its bound.
    Timeout,
    /// A desired-property document was not a JSON object.
    MalformedTwin,
    /// A direct method was invoked under a name that no handler is registered for.
    UnknownMethod,
    /// A collaborator dropped its end of a channel.
    ChannelClosed,
    /// The hub client answered a submission with a failure of its own.
    SendFailed,
}

/// The errors that end the event loop; every other error is logged and the loop goes on.
pub open spec fn error_is_fatal(e: TwinError) -> bool {
    match e {
        TwinError::AuthenticationFailed(_) | TwinError::ChannelClosed => true,
        _ => false,
    }
}

impl TwinError {
    /// Whether this error terminates the event loop.
    pub fn is_fatal(&self) -> (r: bool)
        ensures
            r == error_is_fatal(*self),
    {
        match self {
            TwinError::AuthenticationFailed(_) => true,
            TwinError::ChannelClosed => true,
            _ => false,
        }
    }
}

} // verus!
