use vstd::prelude::*;
use crate::protocol::{ClientMessage, ServerMessage};

verus! {

/// Where a connection stands.
#[derive(Clone, Copy, Debug, PartialEq, Eq, Structural)]
pub enum SessionPhase {
    /// The stream is open; no snapshot has been sent yet.
    Connecting,
    /// The snapshot went out; updates and client messages flow.
    Active,
    /// Either direction ended; nothing more flows.
    Closed,
}

/// What the transport reports to a session.
#[derive(Clone, Debug)]
pub enum SessionEvent {
    /// The stream is ready for the snapshot.
    Opened,
    /// A text frame arrived: the client message it decodes to, or nothing if it is malformed.
    Frame(Option<ClientMessage>),
    /// The bus delivered a published message.
    Broadcast(ServerMessage),
    /// The subscription fell behind and lost its oldest unread messages.
    Lagged,
    /// A write to the client failed, or the bus feeding the outbound direction ended.
    OutboundEnded,
    /// The client closed the stream, or a read failed.
    InboundEnded,
}

/// What the transport should do next.
#[derive(Clone, Debug)]
pub enum SessionAction {
    /// Take the `init` snapshot and subscribe to the bus in one step, so that
    /// no update falls between them, then send the snapshot.
    SendInit,
    /// Resolve the message against the registry and run the handler it names.
    Dispatch(ClientMessage),
    /// Write the message to the client.
    Forward(ServerMessage),
    /// Stop the inbound direction: the outbound one has ended.
    CancelInbound,
    /// Stop the outbound direction: the inbound one has ended.
    CancelOutbound,
    /// Nothing to do.
    Ignore,
}

/// The next phase and action of a session in `phase` on `event`.
pub open spec fn step_of(phase: SessionPhase, event: SessionEvent) -> (SessionPhase, SessionAction) {
    match phase {
        SessionPhase::Connecting => match event {
            SessionEvent::Opened => (SessionPhase::Active, SessionAction::SendInit),
            SessionEvent::OutboundEnded => (SessionPhase::Closed, SessionAction::CancelInbound),
            SessionEvent::InboundEnded => (SessionPhase::Closed, SessionAction::CancelOutbound),
            _ => (SessionPhase::Connecting, SessionAction::Ignore),
        },
        SessionPhase::Active => match event {
            SessionEvent::Frame(Some(msg)) => (SessionPhase::Active, SessionAction::Dispatch(msg)),
            SessionEvent::Broadcast(msg) => (SessionPhase::Active, SessionAction::Forward(msg)),
            SessionEvent::Lagged => (SessionPhase::Active, SessionAction::Ignore),
            SessionEvent::OutboundEnded => (SessionPhase::Closed, SessionAction::CancelInbound),
            SessionEvent::InboundEnded => (SessionPhase::Closed, SessionAction::CancelOutbound),
            _ => (SessionPhase::Active, SessionAction::Ignore),
        },
        SessionPhase::Closed => (SessionPhase::Closed, SessionAction::Ignore),
    }
}

/// The protocol state of one client connection: `Connecting`, then `Active`
/// once the snapshot is due, then `Closed` as soon as either direction ends.
/// Malformed frames are dropped without closing; a closed session stays
/// closed and asks for nothing more.
#[derive(Debug)]
pub struct Session {
    phase: SessionPhase,
}

impl Session {
    /// The session's current phase.
    pub closed spec fn spec_phase(&self) -> SessionPhase {
        self.phase
    }

    /// A session whose stream has just been accepted.
    pub fn new() -> (r: Session)
        ensures
            r.spec_phase() == SessionPhase::Connecting,
    {
        Session { phase: SessionPhase::Connecting }
    }

    /// The session's current phase.
    pub fn phase(&self) -> (r: SessionPhase)
        ensures
            r == self.spec_phase(),
    {
        self.phase
    }

    /// Takes one event and says what to do about it.
    pub fn step(&mut self, event: SessionEvent) -> (r: SessionAction)
        ensures
            (final(self).spec_phase(), r) == step_of(old(self).spec_phase(), event),
    {
        match self.phase {
            SessionPhase::Connecting => match event {
                SessionEvent::Opened => {
                    self.phase = SessionPhase::Active;
                    SessionAction::SendInit
                },
                SessionEvent::OutboundEnded => {
                    self.phase = SessionPhase::Closed;
                    SessionAction::CancelInbound
                },
                SessionEvent::InboundEnded => {
                    self.phase = SessionPhase::Closed;
                    SessionAction::CancelOutbound
                },
                _ => SessionAction::Ignore,
            },
            SessionPhase::Active => match event {
                SessionEvent::Frame(Some(msg)) => SessionAction::Dispatch(msg),
                SessionEvent::Broadcast(msg) => SessionAction::Forward(msg),
                SessionEvent::Lagged => SessionAction::Ignore,
                SessionEvent::OutboundEnded => {
                    self.phase = SessionPhase::Closed;
                    SessionAction::CancelInbound
                },
                SessionEvent::InboundEnded => {
                    self.phase = SessionPhase::Closed;
                    SessionAction::CancelOutbound
                },
                _ => SessionAction::Ignore,
            },
            SessionPhase::Closed => SessionAction::Ignore,
        }
    }
}

/// Once closed, a session stays closed and asks for nothing, whatever comes.
pub proof fn lemma_closed_is_final(event: SessionEvent)
    ensures
        step_of(SessionPhase::Closed, event) == (SessionPhase::Closed, SessionAction::Ignore),
{
}

} // verus!
