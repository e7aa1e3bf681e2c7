//! What the hub client hands to the orchestrator, as plain values.
use vstd::prelude::*;

verus! {

/// Why the hub client reports that it is not authenticated.
#[derive(Clone, Copy, Debug, PartialEq, Eq, Structural)]
pub enum UnauthenticatedReason {
    ExpiredSasToken,
    DeviceDisabled,
    BadCredential,
    RetryExpired,
    NoNetwork,
    CommunicationError,
    NoPingResponse,
}

/// A transition of the hub client's authentication.
#[derive(Clone, Copy, Debug, PartialEq, Eq, Structural)]
pub enum AuthenticationStatus {
    Authenticated,
    Unauthenticated(UnauthenticatedReason),
}

/// Whether a desired-property payload is a delta or the whole twin, whose
/// desired section then lies under `"desired"`.
#[derive(Clone, Copy, Debug, PartialEq, Eq, Structural)]
pub enum TwinUpdateState {
    Partial,
    Complete,
}

/// What the device answers to a cloud-to-device message.
#[derive(Clone, Copy, Debug, PartialEq, Eq, Structural)]
pub enum DispositionResult {
    Accepted,
    Rejected,
    Abandoned,
}

} // verus!
