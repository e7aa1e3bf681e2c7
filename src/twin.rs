//! The orchestrator: the state it keeps between events, and the decision it
//! takes on each event of its loop. The runtime that drives it performs each
//! decided action and hands back what came of it as a further event.
use vstd::prelude::*;

use crate::error::{error_is_fatal, TwinError};
use crate::exchange::{accept_incoming_message, submission_result, submission_spec, SubmitOutcome};
use crate::hub::{AuthenticationStatus, DispositionResult, TwinUpdateState, UnauthenticatedReason};
use crate::json::json_object;
use crate::methods::{is_registered, names_unique, MethodTable};
use crate::reconcile::{reconciled, reported_from_desired};
use crate::watchdog::{watchdog_step, WatchdogHandler, WatchdogState};

verus! {

/// Whether the event loop goes on, or ends for a fatal reason.
#[derive(Clone, Copy, Debug, PartialEq, Eq, Structural)]
pub enum LoopState {
    Running,
    Terminating(TwinError),
}

/// What the event loop woke up for. `M` is an outgoing message, which the
/// orchestrator passes on without reading it.
pub enum Event<M> {
    /// The liveness interval ticked; the time is in µs of a monotonic clock.
    Tick(u64),
    ConnectionStatus(AuthenticationStatus),
    Desired(TwinUpdateState, serde_json::Value),
    /// A reported-property document is queued for submission.
    ReportRequest(serde_json::Value),
    IncomingMessage,
    OutgoingMessage(M),
    /// A direct method was invoked under this name.
    DirectMethod(String),
    /// A submission decided earlier ended so.
    Submitted(SubmitOutcome),
    /// A channel that feeds the loop lost its sender.
    ChannelClosed,
}

/// What the runtime does next.
pub enum Action<M> {
    Idle,
    /// Tell the supervisor, once, that the process is ready.
    SignalReady,
    /// Tell the supervisor that the process is alive.
    PulseLiveness,
    /// Queue this document for reporting.
    QueueReported(serde_json::Value),
    /// Submit this document to the hub client, under the bounded wait.
    SubmitReported(serde_json::Value),
    /// Send this message through the hub client, under the bounded wait.
    SubmitMessage(M),
    /// Answer the incoming message so.
    Dispose(DispositionResult),
    /// Run the handler at this position of the method table.
    InvokeMethod(usize),
    /// Log this error, which the loop survives; for a direct method it is
    /// also the caller's answer.
    Log(TwinError),
    /// End the loop for this reason.
    Terminate(TwinError),
}

/// What a `Twin` holds: whether it was ever authenticated, the loop's state,
/// its liveness handler and its direct-method handlers.
pub struct TwinView<H> {
    pub authenticated_once: bool,
    pub state: LoopState,
    pub watchdog: WatchdogState,
    pub methods: Seq<(Seq<char>, H)>,
}

/// After an authentication status, whether the twin was ever authenticated,
/// and the result: whether readiness is to be signalled now, or the fatal
/// error. An expired token is left to the client, which renews it.
pub open spec fn connection_step(authenticated_once: bool, status: AuthenticationStatus) -> (
    bool,
    Result<bool, TwinError>,
) {
    match status {
        AuthenticationStatus::Authenticated => (true, Ok(!authenticated_once)),
        AuthenticationStatus::Unauthenticated(UnauthenticatedReason::ExpiredSasToken) => (
            authenticated_once,
            Ok(false),
        ),
        AuthenticationStatus::Unauthenticated(reason) => (
            authenticated_once,
            Err(TwinError::AuthenticationFailed(reason)),
        ),
    }
}

/// The action for a non-fatal result: nothing for success, the error logged.
pub open spec fn logged<M>(r: Result<(), TwinError>) -> Action<M> {
    match r {
        Ok(()) => Action::Idle,
        Err(e) => Action::Log(e),
    }
}

/// One step of the event loop: from `pre`, `event` leads to `post` and the
/// runtime does `action`. Once terminating, the loop takes no event.
pub open spec fn step_post<H, M>(pre: TwinView<H>, event: Event<M>, post: TwinView<H>, action: Action<M>) -> bool {
    if pre.state is Terminating {
        post == pre && action is Idle
    } else {
        match event {
            Event::Tick(now) => {
                let (w, pulsed) = watchdog_step(pre.watchdog, now);
                &&& post == TwinView { watchdog: w, ..pre }
                &&& action == (if pulsed {
                    Action::<M>::PulseLiveness
                } else {
                    Action::<M>::Idle
                })
            },
            Event::ConnectionStatus(status) => {
                let (once, r) = connection_step(pre.authenticated_once, status);
                match r {
                    Ok(ready) => {
                        &&& post == TwinView { authenticated_once: once, ..pre }
                        &&& action == (if ready {
                            Action::<M>::SignalReady
                        } else {
                            Action::<M>::Idle
                        })
                    },
                    Err(e) => {
                        &&& post == TwinView { state: LoopState::Terminating(e), ..pre }
                        &&& action == Action::<M>::Terminate(e)
                    },
                }
            },
            Event::Desired(state, payload) => {
                &&& post == pre
                &&& match reconciled(state, payload) {
                    Some(m) => action matches Action::QueueReported(doc) && json_object(doc) == Some(m),
                    None => action == Action::<M>::Log(TwinError::MalformedTwin),
                }
            },
            Event::ReportRequest(doc) => post == pre && action == Action::<M>::SubmitReported(doc),
            Event::OutgoingMessage(m) => post == pre && action == Action::SubmitMessage(m),
            Event::IncomingMessage => post == pre && action == Action::<M>::Dispose(
                DispositionResult::Accepted,
            ),
            Event::DirectMethod(name) => {
                &&& post == pre
                &&& if is_registered(pre.methods, name@) {
                    action matches Action::InvokeMethod(i) && i < pre.methods.len()
                        && pre.methods[i as int].0 == name@
                } else {
                    action == Action::<M>::Log(TwinError::UnknownMethod)
                }
            },
            Event::Submitted(outcome) => post == pre && action == logged::<M>(
                submission_spec(outcome),
            ),
            Event::ChannelClosed => {
                &&& post == TwinView { state: LoopState::Terminating(TwinError::ChannelClosed), ..pre }
                &&& action == Action::<M>::Terminate(TwinError::ChannelClosed)
            },
        }
    }
}

/// How many of `actions` signal readiness.
pub open spec fn ready_signals<M>(actions: Seq<Action<M>>) -> nat
    decreases actions.len(),
{
    if actions.len() == 0 {
        0
    } else {
        (if actions[0] is SignalReady {
            1nat
        } else {
            0nat
        }) + ready_signals(actions.drop_first())
    }
}

/// Over any run of one or more `Authenticated` statuses, the loop signals
/// readiness exactly once when it was never authenticated before, and never
/// when it was.
pub proof fn lemma_ready_signalled_once<H, M>(views: Seq<TwinView<H>>, actions: Seq<Action<M>>)
    requires
        actions.len() >= 1,
        views.len() == actions.len() + 1,
        views[0].state is Running,
        forall|k: int|
            #![trigger actions[k]]
            0 <= k < actions.len() ==> step_post(
                views[k],
                Event::<M>::ConnectionStatus(AuthenticationStatus::Authenticated),
                views[k + 1],
                actions[k],
            ),
    ensures
        ready_signals(actions) == (if views[0].authenticated_once {
            0nat
        } else {
            1nat
        }),
    decreases actions.len(),
{
    let event = Event::<M>::ConnectionStatus(AuthenticationStatus::Authenticated);
    assert(step_post(views[0], event, views[1], actions[0]));
    if actions.len() > 1 {
        let (vs, acts) = (views.drop_first(), actions.drop_first());
        assert forall|k: int| #![trigger acts[k]] 0 <= k < acts.len() implies step_post(
            vs[k],
            event,
            vs[k + 1],
            acts[k],
        ) by {
            assert(acts[k] == actions[k + 1]);
        }
        assert(vs[0] == views[1] && views[1].authenticated_once && views[1].state is Running);
        lemma_ready_signalled_once(vs, acts);
    } else {
        assert(ready_signals(actions.drop_first()) == 0);
    }
}

/// An expired token never ends the loop; any other loss of authentication
/// always ends it, with a fatal error that carries the reason.
pub proof fn lemma_unauthenticated<H, M>(
    pre: TwinView<H>,
    reason: UnauthenticatedReason,
    post: TwinView<H>,
    action: Action<M>,
)
    requires
        pre.state is Running,
        step_post(pre, Event::<M>::ConnectionStatus(AuthenticationStatus::Unauthenticated(reason)), post, action),
    ensures
        reason == UnauthenticatedReason::ExpiredSasToken ==> post.state is Running && action is Idle,
        reason != UnauthenticatedReason::ExpiredSasToken ==> {
            &&& post.state == LoopState::Terminating(TwinError::AuthenticationFailed(reason))
            &&& action == Action::<M>::Terminate(TwinError::AuthenticationFailed(reason))
            &&& error_is_fatal(TwinError::AuthenticationFailed(reason))
        },
{
}

/// A direct method invoked under a name that no handler is registered for is
/// answered with `UnknownMethod`, which is not fatal: the loop goes on as it
/// was.
pub proof fn lemma_unknown_method<H, M>(pre: TwinView<H>, name: String, post: TwinView<H>, action: Action<M>)
    requires
        pre.state is Running,
        !is_registered(pre.methods, name@),
        step_post(pre, Event::<M>::DirectMethod(name), post, action),
    ensures
        action == Action::<M>::Log(TwinError::UnknownMethod),
        !error_is_fatal(TwinError::UnknownMethod),
        post == pre,
{
}

/// A submission that timed out is `Timeout`, logged; the loop goes on as it
/// was and submits nothing again.
pub proof fn lemma_timeout_not_retried<H, M>(pre: TwinView<H>, post: TwinView<H>, action: Action<M>)
    requires
        pre.state is Running,
        step_post(pre, Event::<M>::Submitted(SubmitOutcome::TimedOut), post, action),
    ensures
        action == Action::<M>::Log(TwinError::Timeout),
        !(action is SubmitReported) && !(action is SubmitMessage),
        post == pre,
{
}

/// The orchestrator's state, owned by the event loop.
pub struct Twin<H> {
    authenticated_once: bool,
    state: LoopState,
    watchdog: WatchdogHandler,
    methods: MethodTable<H>,
}

impl<H> View for Twin<H> {
    type V = TwinView<H>;

    closed spec fn view(&self) -> TwinView<H> {
        TwinView {
            authenticated_once: self.authenticated_once,
            state: self.state,
            watchdog: self.watchdog@,
            methods: self.methods@,
        }
    }
}

impl<H> Twin<H> {
    pub open spec fn wf(&self) -> bool {
        names_unique(self@.methods)
    }

    /// A running orchestrator, not yet authenticated, with these liveness
    /// handler and direct-method handlers.
    pub fn new(watchdog: WatchdogHandler, methods: MethodTable<H>) -> (r: Self)
        requires
            methods.wf(),
        ensures
            r.wf(),
            r@ == (TwinView {
                authenticated_once: false,
                state: LoopState::Running,
                watchdog: watchdog@,
                methods: methods@,
            }),
    {
        Twin { authenticated_once: false, state: LoopState::Running, watchdog, methods }
    }

    /// The loop's state.
    pub fn state(&self) -> (r: LoopState)
        ensures
            r == self@.state,
    {
        self.state
    }

    /// The direct-method handlers.
    pub fn methods(&self) -> (r: &MethodTable<H>)
        ensures
            r@ == self@.methods,
            self.wf() ==> r.wf(),
    {
        &self.methods
    }

    /// Interprets an authentication status: `Ok(true)` on the first
    /// authentication, when readiness is to be signalled; an expired token
    /// goes on; any other loss of authentication is fatal.
    pub fn handle_connection_status(&mut self, status: AuthenticationStatus) -> (r: Result<
        bool,
        TwinError,
    >)
        ensures
            (final(self)@.authenticated_once, r) == connection_step(old(self)@.authenticated_once, status),
            final(self)@ == (TwinView { authenticated_once: final(self)@.authenticated_once, ..old(self)@ }),
    {
        match status {
            AuthenticationStatus::Authenticated => {
                let first = !self.authenticated_once;
                self.authenticated_once = true;
                Ok(first)
            },
            AuthenticationStatus::Unauthenticated(UnauthenticatedReason::ExpiredSasToken) => Ok(
                false,
            ),
            AuthenticationStatus::Unauthenticated(reason) => Err(
                TwinError::AuthenticationFailed(reason),
            ),
        }
    }

    /// The reported document for a desired-property payload, or
    /// `MalformedTwin`.
    pub fn handle_desired(&self, state: TwinUpdateState, desired: serde_json::Value) -> (r: Result<
        serde_json::Value,
        TwinError,
    >)
        ensures
            r is Ok <==> reconciled(state, desired) is Some,
            r matches Ok(doc) ==> json_object(doc) == reconciled(state, desired),
            r matches Err(e) ==> e == TwinError::MalformedTwin,
    {
        reported_from_desired(state, desired)
    }

    /// The position of the handler registered under `name`, or
    /// `UnknownMethod`.
    pub fn handle_direct_method(&self, name: &String) -> (r: Result<usize, TwinError>)
        ensures
            r is Err <==> !is_registered(self@.methods, name@),
            r matches Err(e) ==> e == TwinError::UnknownMethod,
            r matches Ok(i) ==> i < self@.methods.len() && self@.methods[i as int].0 == name@,
    {
        match self.methods.lookup(name) {
            Some(i) => Ok(i),
            None => Err(TwinError::UnknownMethod),
        }
    }

    /// Ends the loop when `e` is fatal; otherwise the loop goes on and `e` is
    /// to be logged.
    fn settle<M>(&mut self, e: TwinError) -> (action: Action<M>)
        requires
            old(self)@.state is Running,
        ensures
            error_is_fatal(e) ==> final(self)@ == (TwinView { state: LoopState::Terminating(e), ..old(self)@ })
                && action == Action::<M>::Terminate(e),
            !error_is_fatal(e) ==> final(self)@ == old(self)@ && action == Action::<M>::Log(e),
    {
        if e.is_fatal() {
            self.state = LoopState::Terminating(e);
            Action::Terminate(e)
        } else {
            Action::Log(e)
        }
    }

    /// Takes one event and decides what the runtime does next.
    pub fn step<M>(&mut self, event: Event<M>) -> (action: Action<M>)
        requires
            old(self).wf(),
        ensures
            final(self).wf(),
            step_post(old(self)@, event, final(self)@, action),
    {
        if let LoopState::Terminating(_) = self.state {
            return Action::Idle;
        }
        match event {
            Event::Tick(now) => {
                if self.watchdog.notify(now) {
                    Action::PulseLiveness
                } else {
                    Action::Idle
                }
            },
            Event::ConnectionStatus(status) => match self.handle_connection_status(status) {
                Ok(true) => Action::SignalReady,
                Ok(false) => Action::Idle,
                Err(e) => self.settle(e),
            },
            Event::Desired(state, payload) => match self.handle_desired(state, payload) {
                Ok(doc) => Action::QueueReported(doc),
                Err(e) => self.settle(e),
            },
            Event::ReportRequest(doc) => Action::SubmitReported(doc),
            Event::OutgoingMessage(m) => Action::SubmitMessage(m),
            Event::IncomingMessage => Action::Dispose(accept_incoming_message()),
            Event::DirectMethod(name) => match self.handle_direct_method(&name) {
                Ok(i) => Action::InvokeMethod(i),
                Err(e) => self.settle(e),
            },
            Event::Submitted(outcome) => match submission_result(outcome) {
                Ok(()) => Action::Idle,
                Err(e) => self.settle(e),
            },
            Event::ChannelClosed => self.settle(TwinError::ChannelClosed),
        }
    }
}

} // verus!
