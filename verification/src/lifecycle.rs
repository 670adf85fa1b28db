//! The per-connection lifecycle state machine.
//!
//! A session moves through `Connecting -> Active -> Draining -> Closed`.
//! The decisions of the connection-handling loop are pure: from the current
//! phase and the next lifecycle event, [`step`] yields the next phase and
//! the action owed, and the surrounding server performs the action (fan
//! out, stop the companion task, deregister). Transport reads and task
//! scheduling stay outside; the decisions are verified here.

use vstd::prelude::*;

verus! {

/// Where a session stands in its lifecycle.
#[derive(Clone, Copy, PartialEq, Eq, Debug, Structural)]
pub enum SessionPhase {
    /// The transport upgrade finished; identity assigned, queue built,
    /// registry entry not yet confirmed.
    Connecting,
    /// Read loop and delivery task running; inbound text fans out.
    Active,
    /// One of the two tasks ended; the other is being stopped.
    Draining,
    /// Both tasks ended and the registry entry is to be gone; terminal.
    Closed,
}

/// What the connection-handling loop observed.
#[derive(Clone, Copy, PartialEq, Eq, Debug, Structural)]
pub enum SessionEvent {
    /// The session's registry entry is in place.
    Registered,
    /// A text frame arrived from this session's client.
    InboundText,
    /// A non-text frame arrived; not a relay trigger, silently ignored.
    InboundIgnored,
    /// The inbound stream ended: peer closed, protocol or transport error.
    InboundEnded,
    /// The outbound delivery task terminated (queue closed or write failed).
    DeliveryEnded,
    /// Both tasks have been awaited to completion.
    DrainComplete,
}

/// What the loop owes the session after a step.
#[derive(Clone, Copy, PartialEq, Eq, Debug, Structural)]
pub enum SessionAction {
    /// Nothing beyond staying in the loop.
    DoNothing,
    /// Fan the received text out to all other active sessions.
    RelayText,
    /// Signal the companion task to stop and await both tasks.
    BeginDrain,
    /// Remove the session's registry entry; the session is done.
    Deregister,
}

/// The transition relation of the lifecycle: next phase and owed action
/// for each phase and event. An event that cannot occur in a phase leaves
/// the phase unchanged and owes nothing.
pub open spec fn step_spec(phase: SessionPhase, event: SessionEvent) -> (
    SessionPhase,
    SessionAction,
) {
    match (phase, event) {
        (SessionPhase::Connecting, SessionEvent::Registered) => (
            SessionPhase::Active,
            SessionAction::DoNothing,
        ),
        (SessionPhase::Active, SessionEvent::InboundText) => (
            SessionPhase::Active,
            SessionAction::RelayText,
        ),
        (SessionPhase::Active, SessionEvent::InboundIgnored) => (
            SessionPhase::Active,
            SessionAction::DoNothing,
        ),
        (SessionPhase::Active, SessionEvent::InboundEnded) => (
            SessionPhase::Draining,
            SessionAction::BeginDrain,
        ),
        (SessionPhase::Active, SessionEvent::DeliveryEnded) => (
            SessionPhase::Draining,
            SessionAction::BeginDrain,
        ),
        (SessionPhase::Draining, SessionEvent::DrainComplete) => (
            SessionPhase::Closed,
            SessionAction::Deregister,
        ),
        _ => (phase, SessionAction::DoNothing),
    }
}

/// Advance the lifecycle by one observed event.
pub fn step(phase: SessionPhase, event: SessionEvent) -> (r: (SessionPhase, SessionAction))
    ensures
        r == step_spec(phase, event),
{
    match (phase, event) {
        (SessionPhase::Connecting, SessionEvent::Registered) => (
            SessionPhase::Active,
            SessionAction::DoNothing,
        ),
        (SessionPhase::Active, SessionEvent::InboundText) => (
            SessionPhase::Active,
            SessionAction::RelayText,
        ),
        (SessionPhase::Active, SessionEvent::InboundIgnored) => (
            SessionPhase::Active,
            SessionAction::DoNothing,
        ),
        (SessionPhase::Active, SessionEvent::InboundEnded) => (
            SessionPhase::Draining,
            SessionAction::BeginDrain,
        ),
        (SessionPhase::Active, SessionEvent::DeliveryEnded) => (
            SessionPhase::Draining,
            SessionAction::BeginDrain,
        ),
        (SessionPhase::Draining, SessionEvent::DrainComplete) => (
            SessionPhase::Closed,
            SessionAction::Deregister,
        ),
        (p, _) => (p, SessionAction::DoNothing),
    }
}

/// `Closed` is terminal: no event leaves it.
pub proof fn lemma_closed_is_terminal(event: SessionEvent)
    ensures
        step_spec(SessionPhase::Closed, event).0 == SessionPhase::Closed,
{
}

/// Fan-out is owed only while the session is `Active`, and only for an
/// inbound text frame.
pub proof fn lemma_relay_only_when_active(phase: SessionPhase, event: SessionEvent)
    ensures
        step_spec(phase, event).1 == SessionAction::RelayText ==> phase == SessionPhase::Active
            && event == SessionEvent::InboundText,
{
}

/// Deregistration is owed exactly when the session reaches `Closed`.
pub proof fn lemma_deregister_exactly_on_close(phase: SessionPhase, event: SessionEvent)
    ensures
        (step_spec(phase, event).1 == SessionAction::Deregister) <==> (phase != SessionPhase::Closed
            && step_spec(phase, event).0 == SessionPhase::Closed),
{
}

} // verus!
