//! Event-driven orchestration of a cloud-connected device twin: connection
//! lifecycle, desired/reported property reconciliation, direct-method
//! dispatch, timed submissions and liveness pulses, all as verified decisions
//! that an asynchronous runtime drives.
pub mod error;
pub mod exchange;
pub mod hub;
pub mod json;
pub mod methods;
pub mod reconcile;
pub mod twin;
pub mod watchdog;

pub use error::TwinError;
pub use exchange::{accept_incoming_message, submission_result, SubmitOutcome, SUBMIT_TIMEOUT_SECS};
pub use hub::{AuthenticationStatus, DispositionResult, TwinUpdateState, UnauthenticatedReason};
pub use methods::{first_poll_reply, mirror_func_params_as_result, MethodTable, HANDLER_LIFETIME_SECS};
pub use reconcile::reported_from_desired;
pub use twin::{Action, Event, LoopState, Twin};
pub use watchdog::WatchdogHandler;
