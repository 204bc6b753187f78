use webui::protocol::{ClientMessage, ServerMessage};
use webui::{Session, SessionAction, SessionEvent, SessionPhase, UiElement};

#[test]
fn session_runs_connecting_active_closed() {
    let mut s = Session::new();
    assert_eq!(s.phase(), SessionPhase::Connecting);
    assert!(matches!(s.step(SessionEvent::Opened), SessionAction::SendInit));
    assert_eq!(s.phase(), SessionPhase::Active);
    match s.step(SessionEvent::Frame(Some(ClientMessage::Click { id: "b1".to_string() }))) {
        SessionAction::Dispatch(ClientMessage::Click { id }) => assert_eq!(id, "b1"),
        _ => panic!("expected dispatch"),
    }
    assert!(matches!(s.step(SessionEvent::Frame(None)), SessionAction::Ignore));
    assert_eq!(s.phase(), SessionPhase::Active);
    let update = ServerMessage::Update {
        id: "t".to_string(),
        element: UiElement::Text { id: "t".to_string(), text: "x".to_string() },
    };
    assert!(matches!(s.step(SessionEvent::Broadcast(update)), SessionAction::Forward(_)));
    assert!(matches!(s.step(SessionEvent::InboundEnded), SessionAction::CancelOutbound));
    assert_eq!(s.phase(), SessionPhase::Closed);
    assert!(matches!(s.step(SessionEvent::OutboundEnded), SessionAction::Ignore));
    assert!(matches!(s.step(SessionEvent::Opened), SessionAction::Ignore));
    assert_eq!(s.phase(), SessionPhase::Closed);
}

#[test]
fn session_closes_when_outbound_ends() {
    let mut s = Session::new();
    s.step(SessionEvent::Opened);
    assert!(matches!(s.step(SessionEvent::OutboundEnded), SessionAction::CancelInbound));
    assert_eq!(s.phase(), SessionPhase::Closed);
}

#[test]
fn session_ignores_frames_before_init() {
    let mut s = Session::new();
    assert!(matches!(
        s.step(SessionEvent::Frame(Some(ClientMessage::Click { id: "b".to_string() }))),
        SessionAction::Ignore
    ));
    assert_eq!(s.phase(), SessionPhase::Connecting);
}

#[test]
fn session_stays_active_when_lagging() {
    let mut s = Session::new();
    s.step(SessionEvent::Opened);
    assert!(matches!(s.step(SessionEvent::Lagged), SessionAction::Ignore));
    assert_eq!(s.phase(), SessionPhase::Active);
}
