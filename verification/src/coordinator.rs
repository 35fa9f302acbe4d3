//! The single-instance takeover protocol.
//!
//! At startup the process probes the well-known service endpoint. If no
//! instance answers, it becomes the owner. If one answers, their versions
//! decide: a running instance that is no older than this build wins and
//! this process exits cleanly; an older one is asked to shut down, given a
//! grace period to vacate the endpoint name, and then replaced. A failed
//! send aborts the whole attempt; it is never retried.

use vstd::prelude::*;

use crate::messaging::{complete_send_spec, SendError, SendOutcome};
use crate::version::{version_le, AppVersion};

verus! {

/// Where a coordination attempt stands.
#[derive(Clone, Copy, Debug, PartialEq, Eq, Structural)]
pub enum CoordState {
    /// Probing the service name for a running instance.
    Probing,
    /// An older instance answered; it has been asked to shut down.
    RequestingHandover,
    /// The old instance acknowledged; waiting out the grace period it has
    /// to vacate the endpoint name.
    AwaitingOldExit,
    /// The endpoint name is free; registering the server under it.
    BecomingOwner,
    /// This process owns the endpoint and serves requests.
    Serving,
    /// A running instance is already at least this build's version; this
    /// process exits cleanly.
    AlreadyCurrent,
    /// A send failed; the attempt is abandoned with the error.
    Aborted(SendError),
}

/// What the outside world reported back to the protocol.
#[derive(Clone, Copy, Debug, PartialEq, Eq, Structural)]
pub enum CoordEvent {
    /// No instance is registered under the service name.
    NoEndpoint,
    /// The running instance answered the version query.
    VersionReply(AppVersion),
    /// A synchronous send failed with a fatal transport outcome.
    SendFailed(SendError),
    /// The running instance acknowledged the shutdown request.
    HandoverAcknowledged,
    /// The grace period for the old instance to exit has elapsed.
    GracePeriodElapsed,
    /// The local endpoint was registered and the server created.
    ServerCreated,
}

/// Which events a state can be answered with. The terminal states accept
/// none: in particular an aborted attempt is never resumed or retried.
pub open spec fn step_allowed(state: CoordState, event: CoordEvent) -> bool {
    match state {
        CoordState::Probing => event is NoEndpoint || event is VersionReply
            || event is SendFailed,
        CoordState::RequestingHandover => event is HandoverAcknowledged || event is SendFailed,
        CoordState::AwaitingOldExit => event is GracePeriodElapsed,
        CoordState::BecomingOwner => event is ServerCreated,
        CoordState::Serving => false,
        CoordState::AlreadyCurrent => false,
        CoordState::Aborted(_) => false,
    }
}

/// A state from which the protocol takes no further step.
pub open spec fn is_terminal(state: CoordState) -> bool {
    state is Serving || state is AlreadyCurrent || state is Aborted
}

/// The protocol's transition relation, for the build version `current`.
pub open spec fn step_spec(state: CoordState, event: CoordEvent, current: AppVersion) -> CoordState
    recommends
        step_allowed(state, event),
{
    match (state, event) {
        (CoordState::Probing, CoordEvent::NoEndpoint) => CoordState::BecomingOwner,
        (CoordState::Probing, CoordEvent::VersionReply(running)) => if version_le(
            current,
            running,
        ) {
            CoordState::AlreadyCurrent
        } else {
            CoordState::RequestingHandover
        },
        (CoordState::Probing, CoordEvent::SendFailed(e)) => CoordState::Aborted(e),
        (CoordState::RequestingHandover, CoordEvent::HandoverAcknowledged) => (
        CoordState::AwaitingOldExit),
        (CoordState::RequestingHandover, CoordEvent::SendFailed(e)) => CoordState::Aborted(e),
        (CoordState::AwaitingOldExit, CoordEvent::GracePeriodElapsed) => CoordState::BecomingOwner,
        (CoordState::BecomingOwner, CoordEvent::ServerCreated) => CoordState::Serving,
        (s, _) => s,
    }
}

/// Advances the takeover protocol by one event.
pub fn coordination_step(state: CoordState, event: CoordEvent, current: &AppVersion) -> (r:
    CoordState)
    requires
        step_allowed(state, event),
    ensures
        r == step_spec(state, event, *current),
{
    match (state, event) {
        (CoordState::Probing, CoordEvent::NoEndpoint) => CoordState::BecomingOwner,
        (CoordState::Probing, CoordEvent::VersionReply(running)) => {
            if current.le(&running) {
                CoordState::AlreadyCurrent
            } else {
                CoordState::RequestingHandover
            }
        },
        (CoordState::Probing, CoordEvent::SendFailed(e)) => CoordState::Aborted(e),
        (CoordState::RequestingHandover, CoordEvent::HandoverAcknowledged) => {
            CoordState::AwaitingOldExit
        },
        (CoordState::RequestingHandover, CoordEvent::SendFailed(e)) => CoordState::Aborted(e),
        (CoordState::AwaitingOldExit, CoordEvent::GracePeriodElapsed) => CoordState::BecomingOwner,
        (CoordState::BecomingOwner, CoordEvent::ServerCreated) => CoordState::Serving,
        (s, _) => s,
    }
}

/// A failed send is fatal to the coordination attempt: every state that
/// issues a request moves to the aborted state on failure, and an aborted
/// attempt accepts no further event, so it is never silently retried.
pub proof fn lemma_send_failure_aborts(state: CoordState, e: SendError, current: AppVersion)
    requires
        step_allowed(state, CoordEvent::SendFailed(e)),
    ensures
        step_spec(state, CoordEvent::SendFailed(e), current) == CoordState::Aborted(e),
        is_terminal(step_spec(state, CoordEvent::SendFailed(e), current)),
        forall|ev: CoordEvent| !step_allowed(CoordState::Aborted(e), ev),
{
}

/// End to end across the transport and the protocol: a round trip that
/// finishes with any outcome but success hands the caller an error, and
/// feeding that failure to either request-issuing state ends the attempt
/// in the terminal aborted state carrying the same error.
pub proof fn lemma_transport_failure_ends_attempt(
    outcome: SendOutcome,
    reply: Option<Vec<u8>>,
    expected_len: int,
    state: CoordState,
    current: AppVersion,
)
    requires
        outcome != SendOutcome::Success,
        state is Probing || state is RequestingHandover,
    ensures
        complete_send_spec(outcome, reply, expected_len) is Err,
        ({
            let e = complete_send_spec(outcome, reply, expected_len)->Err_0;
            &&& step_spec(state, CoordEvent::SendFailed(e), current) == CoordState::Aborted(e)
            &&& is_terminal(CoordState::Aborted(e))
        }),
{
}

/// The probe's version comparison is decided by the lexicographic order:
/// the attempt ends cleanly exactly when the running instance is no older
/// than this build, and otherwise a handover is requested.
pub proof fn lemma_version_gate(running: AppVersion, current: AppVersion)
    ensures
        step_spec(CoordState::Probing, CoordEvent::VersionReply(running), current) == (
        if version_le(current, running) {
            CoordState::AlreadyCurrent
        } else {
            CoordState::RequestingHandover
        }),
{
}

} // verus!
