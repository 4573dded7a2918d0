//! The lifecycle state machine: the async consumer's interpretation of each
//! control event against the current state, including the decision to drain
//! the running server before a stop may be acknowledged.

use vstd::prelude::*;

use crate::channels;
use crate::control::{AckResult, ControlRequest};
use crate::event::ServiceEvent;

verus! {

/// The phase the service is in. Owned solely by the consumer that pulls
/// control events; nothing else ever changes it.
#[derive(Clone, Copy, Debug, PartialEq, Eq, Structural)]
pub enum LifecycleState {
    /// Before the server task has been spawned.
    Starting,
    /// The server task is live and its handle is held.
    Running,
    /// A stop was received and the server is draining.
    Stopping,
    /// Terminal: the server has exited and the stop was acknowledged.
    Stopped,
}

/// Failure code acknowledged when the server task exits abnormally while
/// draining after a stop request.
pub const DRAIN_FAILED: u32 = 1;

/// Whether handling `request` in `state` must first drain the server task:
/// only a stop request while the server is running does. Anything else —
/// an interrogate, an unrecognized code, or a repeated stop — is answered
/// without touching the server.
pub open spec fn spec_needs_drain(state: LifecycleState, request: ControlRequest) -> bool {
    state is Running && request is Stop
}

/// The state after one request is fully handled, the drain (when one is
/// needed) included: a stop received while running ends in `Stopped`, and
/// every other combination leaves the state exactly as it was.
pub open spec fn spec_next_state(state: LifecycleState, request: ControlRequest) -> LifecycleState {
    if spec_needs_drain(state, request) {
        LifecycleState::Stopped
    } else {
        state
    }
}

/// The acknowledgment a finished drain earns: `Accepted` when the server
/// task exited cleanly, `Failure(DRAIN_FAILED)` when it did not.
pub open spec fn spec_drain_ack(drain_ok: bool) -> AckResult {
    if drain_ok {
        AckResult::Accepted
    } else {
        AckResult::Failure(DRAIN_FAILED)
    }
}

/// The acknowledgment for handling `request` in `state`, where `drain_ok`
/// says how the drain went in the one case that needs one: an interrogate
/// and a stop are accepted, except that a failed drain turns the stop's
/// acknowledgment into a failure; an unrecognized code is not supported.
pub open spec fn spec_ack(
    state: LifecycleState,
    request: ControlRequest,
    drain_ok: bool,
) -> AckResult {
    match request {
        ControlRequest::Interrogate => AckResult::Accepted,
        ControlRequest::Stop => if spec_needs_drain(state, request) {
            spec_drain_ack(drain_ok)
        } else {
            AckResult::Accepted
        },
        ControlRequest::Other(_) => AckResult::NotSupported,
    }
}

/// The state after handling each request of `requests` in order from
/// `state`, every needed drain running to completion.
pub open spec fn spec_run(state: LifecycleState, requests: Seq<ControlRequest>) -> LifecycleState
    decreases requests.len(),
{
    if requests.len() == 0 {
        state
    } else {
        spec_run(spec_next_state(state, requests[0]), requests.skip(1))
    }
}

/// What handling one event came to. `Done` says the acknowledgment was
/// written into the event's slot: it carries that acknowledgment and whether
/// the blocked callback thread was still there to receive it. `Drain` says
/// the event was a stop that must wait: it hands the event back unanswered,
/// together with the server handle whose task must be awaited before
/// `Lifecycle::resolve_drain` writes the acknowledgment.
pub enum RespondOutcome {
    Done(AckResult, bool),
    Drain(ServiceEvent, tokio::task::JoinHandle<()>),
}

/// The state machine that interprets control events. It owns the lifecycle
/// state, and, while the server runs, the server's shutdown token and join
/// handle — the only live handle to the server task.
pub struct Lifecycle {
    state: LifecycleState,
    shutdown: Option<tokio_util::sync::CancellationToken>,
    server: Option<tokio::task::JoinHandle<()>>,
}

impl Lifecycle {
    /// The current phase.
    pub closed spec fn spec_state(self) -> LifecycleState {
        self.state
    }

    /// The held server handle, if the server is live.
    pub closed spec fn spec_server(self) -> Option<tokio::task::JoinHandle<()>> {
        self.server
    }

    /// Whether a live server handle is held.
    pub open spec fn has_server(self) -> bool {
        self.spec_server() is Some
    }

    /// The machine's invariant: the server handle and its shutdown token are
    /// held exactly while the state is `Running`.
    pub closed spec fn wf(self) -> bool {
        &&& (self.state is Running <==> self.server is Some)
        &&& (self.state is Running <==> self.shutdown is Some)
    }

    /// Runtime mirror of `wf`, for unverified callers that must check it
    /// before calling in.
    pub fn well_formed(&self) -> (r: bool)
        ensures
            r == self.wf(),
    {
        let running = self.state == LifecycleState::Running;
        running == self.server.is_some() && running == self.shutdown.is_some()
    }

    /// The current phase.
    pub fn current_state(&self) -> (state: LifecycleState)
        ensures
            state == self.spec_state(),
    {
        self.state
    }

    /// Whether the terminal phase is reached; the consumer's pull loop ends
    /// once it is.
    pub fn is_stopped(&self) -> (r: bool)
        ensures
            r == (self.spec_state() is Stopped),
    {
        self.state == LifecycleState::Stopped
    }

    /// A fresh machine: `Starting`, no server.
    pub fn new() -> (machine: Lifecycle)
        ensures
            machine.wf(),
            machine.spec_state() is Starting,
            !machine.has_server(),
    {
        Lifecycle { state: LifecycleState::Starting, shutdown: None, server: None }
    }

    /// Records the spawned server: the token that signals it to shut down
    /// and the handle that resolves when its task has fully exited. Happens
    /// once, on entering `Running`; from here until the drain this machine
    /// holds the only live server handle.
    pub fn on_started(
        &mut self,
        shutdown: tokio_util::sync::CancellationToken,
        server: tokio::task::JoinHandle<()>,
    )
        requires
            old(self).wf(),
            old(self).spec_state() is Starting,
        ensures
            final(self).wf(),
            final(self).spec_state() is Running,
            final(self).spec_server() == Some(server),
    {
        self.state = LifecycleState::Running;
        self.shutdown = Some(shutdown);
        self.server = Some(server);
    }

    /// Handles one control event. An interrogate and an unrecognized code
    /// are acknowledged on the spot and change nothing. A stop while the
    /// server runs raises the shutdown signal, moves to `Stopping`, and
    /// hands the event back with the server handle: the acknowledgment must
    /// wait until the drain is done (`resolve_drain`). A stop in any other
    /// phase is an idempotent no-op, acknowledged `Accepted` at once.
    pub fn respond(&mut self, event: ServiceEvent) -> (outcome: RespondOutcome)
        requires
            old(self).wf(),
        ensures
            final(self).wf(),
            outcome is Drain <==> spec_needs_drain(old(self).spec_state(), event.request()),
            outcome matches RespondOutcome::Drain(pending, server) ==> {
                &&& pending == event
                &&& Some(server) == old(self).spec_server()
                &&& final(self).spec_state() is Stopping
                &&& !final(self).has_server()
            },
            outcome matches RespondOutcome::Done(ack, _) ==> {
                &&& ack == spec_ack(old(self).spec_state(), event.request(), true)
                &&& *final(self) == *old(self)
            },
    {
        let request = event.service_control();
        match request {
            ControlRequest::Interrogate => {
                let delivered = event.complete(AckResult::Accepted);
                RespondOutcome::Done(AckResult::Accepted, delivered)
            },
            ControlRequest::Stop => {
                if self.state == LifecycleState::Running {
                    let shutdown = self.shutdown.take();
                    let server = self.server.take();
                    self.state = LifecycleState::Stopping;
                    match (shutdown, server) {
                        (Some(shutdown), Some(server)) => {
                            channels::cancel_token(&shutdown);
                            RespondOutcome::Drain(event, server)
                        },
                        _ => unreached(),
                    }
                } else {
                    let delivered = event.complete(AckResult::Accepted);
                    RespondOutcome::Done(AckResult::Accepted, delivered)
                }
            },
            ControlRequest::Other(_) => {
                let delivered = event.complete(AckResult::NotSupported);
                RespondOutcome::Done(AckResult::NotSupported, delivered)
            },
        }
    }

    /// Acknowledges a stop once the drain has finished: `drain_ok` says
    /// whether the server task exited cleanly. The event is the one that
    /// `respond` handed back. The machine ends in `Stopped` either way — a
    /// failed drain is no reason to keep running — and the acknowledgment is
    /// written on this path too, never left pending. Returns the
    /// acknowledgment written and whether the callback thread received it.
    pub fn resolve_drain(&mut self, event: ServiceEvent, drain_ok: bool) -> (r: (AckResult, bool))
        requires
            old(self).wf(),
            old(self).spec_state() is Stopping,
        ensures
            final(self).wf(),
            final(self).spec_state() is Stopped,
            !final(self).has_server(),
            r.0 == spec_drain_ack(drain_ok),
    {
        self.state = LifecycleState::Stopped;
        let ack = if drain_ok {
            AckResult::Accepted
        } else {
            AckResult::Failure(DRAIN_FAILED)
        };
        let delivered = event.complete(ack);
        (ack, delivered)
    }
}

/// Stop is idempotent: from any state, two stops in a row (the drain, when
/// one happens, succeeding) are both acknowledged `Accepted`; the second one
/// finds no server left to drain and changes nothing.
pub proof fn lemma_stop_idempotent(state: LifecycleState)
    ensures
        spec_ack(state, ControlRequest::Stop, true) == AckResult::Accepted,
        spec_ack(
            spec_next_state(state, ControlRequest::Stop),
            ControlRequest::Stop,
            true,
        ) == AckResult::Accepted,
        !spec_needs_drain(spec_next_state(state, ControlRequest::Stop), ControlRequest::Stop),
        spec_next_state(spec_next_state(state, ControlRequest::Stop), ControlRequest::Stop)
            == spec_next_state(state, ControlRequest::Stop),
{
}

/// The server is started at most once — `Running` is entered only from
/// `Starting`, by `on_started` — and drained at most once: a drain happens
/// only in `Running`, and once the state has left `Running` no request ever
/// brings it back there.
pub proof fn lemma_drain_at_most_once(state: LifecycleState, request: ControlRequest)
    ensures
        spec_needs_drain(state, request) ==> !(spec_next_state(state, request) is Running),
        spec_next_state(state, request) is Running ==> state is Running,
{
}

/// An interrogate is side-effect free: in any state it is acknowledged
/// `Accepted`, needs no drain, and leaves the state exactly as it was.
pub proof fn lemma_interrogate_no_effect(state: LifecycleState)
    ensures
        spec_next_state(state, ControlRequest::Interrogate) == state,
        !spec_needs_drain(state, ControlRequest::Interrogate),
        spec_ack(state, ControlRequest::Interrogate, true) == AckResult::Accepted,
{
}

/// Interrogates are side-effect free under any interleaving: deleting an
/// interrogate from anywhere in a request sequence leaves the state the run
/// ends in unchanged.
pub proof fn lemma_interrogate_removable(
    state: LifecycleState,
    pre: Seq<ControlRequest>,
    post: Seq<ControlRequest>,
)
    ensures
        spec_run(state, pre + seq![ControlRequest::Interrogate] + post) == spec_run(
            state,
            pre + post,
        ),
    decreases pre.len(),
{
    let with_interrogate = pre + seq![ControlRequest::Interrogate] + post;
    let without = pre + post;
    if pre.len() == 0 {
        assert(with_interrogate[0] == ControlRequest::Interrogate);
        assert(with_interrogate.skip(1) =~= post);
        assert(without =~= post);
        assert(spec_next_state(state, ControlRequest::Interrogate) == state);
    } else {
        assert(with_interrogate[0] == pre[0]);
        assert(without[0] == pre[0]);
        assert(with_interrogate.skip(1) =~= pre.skip(1) + seq![ControlRequest::Interrogate]
            + post);
        assert(without.skip(1) =~= pre.skip(1) + post);
        lemma_interrogate_removable(spec_next_state(state, pre[0]), pre.skip(1), post);
    }
}

/// An unrecognized code is refused harmlessly: in any state it is
/// acknowledged `NotSupported`, needs no drain, and leaves the state exactly
/// as it was, whatever code it carries.
pub proof fn lemma_unrecognized_no_effect(state: LifecycleState, code: u32)
    ensures
        spec_next_state(state, ControlRequest::Other(code)) == state,
        !spec_needs_drain(state, ControlRequest::Other(code)),
        spec_ack(state, ControlRequest::Other(code), true) == AckResult::NotSupported,
        spec_ack(state, ControlRequest::Other(code), false) == AckResult::NotSupported,
{
}

} // verus!
