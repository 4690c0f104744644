//! The life of one live-view connection, as a state machine: what to do
//! with the viewer count at each step of the connection.

use vstd::prelude::*;

verus! {

/// Where a connection stands.
#[derive(Debug)]
pub enum SessionPhase {
    /// Not yet counted.
    Idle,
    /// Counted; the first count is on its way to the client.
    Joined,
    /// Counted and following count updates.
    Live,
    /// Gone and no longer counted.
    Closed,
}

/// What happened on a connection.
#[derive(Debug)]
pub enum SessionEvent {
    /// The client connected.
    Connected,
    /// The first count reached the client.
    InitialSent,
    /// The first count could not be sent: the connection is already dead.
    InitialFailed,
    /// The client left or updates could no longer be delivered.
    Finished,
}

/// What the connection handler does next.
#[derive(Debug)]
pub enum SessionAction {
    /// Count the viewer in and send the new count to the client.
    JoinAndSendCount,
    /// Subscribe the client to later counts.
    Subscribe,
    /// Count the viewer out.
    Leave,
    /// Nothing.
    Wait,
}

/// The transition of a connection on an event.
pub open spec fn step(phase: SessionPhase, event: SessionEvent) -> (SessionPhase, SessionAction) {
    match (phase, event) {
        (SessionPhase::Idle, SessionEvent::Connected) => (SessionPhase::Joined, SessionAction::JoinAndSendCount),
        (SessionPhase::Joined, SessionEvent::InitialFailed) => (SessionPhase::Closed, SessionAction::Leave),
        (SessionPhase::Joined, SessionEvent::InitialSent) => (SessionPhase::Live, SessionAction::Subscribe),
        (SessionPhase::Live, SessionEvent::Finished) => (SessionPhase::Closed, SessionAction::Leave),
        (p, _) => (p, SessionAction::Wait),
    }
}

/// How an action changes the number of viewers this connection accounts for.
pub open spec fn count_change(action: SessionAction) -> int {
    match action {
        SessionAction::JoinAndSendCount => 1,
        SessionAction::Leave => -1,
        _ => 0,
    }
}

/// The phase reached and the net change to the count after a sequence of
/// events, starting from a fresh connection.
pub open spec fn run(events: Seq<SessionEvent>) -> (SessionPhase, int)
    decreases events.len(),
{
    if events.len() == 0 {
        (SessionPhase::Idle, 0)
    } else {
        let (p, n) = run(events.drop_last());
        let (q, a) = step(p, events.last());
        (q, n + count_change(a))
    }
}

/// How many viewers a connection in this phase accounts for.
pub open spec fn counted(phase: SessionPhase) -> int {
    match phase {
        SessionPhase::Joined | SessionPhase::Live => 1,
        _ => 0,
    }
}

/// The next phase and action of a connection.
pub fn session_step(phase: SessionPhase, event: SessionEvent) -> (r: (SessionPhase, SessionAction))
    ensures
        r == step(phase, event),
{
    match (phase, event) {
        (SessionPhase::Idle, SessionEvent::Connected) => (SessionPhase::Joined, SessionAction::JoinAndSendCount),
        (SessionPhase::Joined, SessionEvent::InitialFailed) => (SessionPhase::Closed, SessionAction::Leave),
        (SessionPhase::Joined, SessionEvent::InitialSent) => (SessionPhase::Live, SessionAction::Subscribe),
        (SessionPhase::Live, SessionEvent::Finished) => (SessionPhase::Closed, SessionAction::Leave),
        (p, _) => (p, SessionAction::Wait),
    }
}

/// Whatever happens on a connection, it accounts for exactly the viewers its
/// phase says: one while joined or live, none before it joins or once it is
/// closed. So every viewer counted in is counted out when the connection
/// closes, and never twice.
pub proof fn law_session_balanced(events: Seq<SessionEvent>)
    ensures
        run(events).1 == counted(run(events).0),
        0 <= run(events).1 <= 1,
        run(events).0 is Closed ==> run(events).1 == 0,
    decreases events.len(),
{
    if events.len() > 0 {
        law_session_balanced(events.drop_last());
    }
}

} // verus!
