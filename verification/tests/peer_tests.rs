use xacpp::capability::Capabilities;
use xacpp::commands::XacppCommand;
use xacpp::error::XacppError;
use xacpp::events::activity_event::XacppActivityEvent;
use xacpp::events::xacpp_event::XacppEvent;
use xacpp::json::JsonValue;
use xacpp::message::{XacppRequest, XacppResponse};
use xacpp::peer::{
    answer_negotiate, apply_establish_decision, register_session, route_inbound, session_route,
    EstablishDecision, EstablishStep, InboundRoute, PeerCore, PeerState,
};
use xacpp::table::KeyedTable;

fn named(name: &str) -> JsonValue {
    JsonValue::Object(vec![("name".to_string(), JsonValue::Str(name.to_string()))])
}

fn internal_text(e: XacppError) -> String {
    match e {
        XacppError::Internal(t) => t,
        other => panic!("unexpected: {other:?}"),
    }
}

#[test]
fn peer_starts_disconnected_and_connects_once() {
    let mut core = PeerCore::new();
    assert_eq!(core.state, PeerState::Disconnected);
    core.mark_connected();
    assert_eq!(core.state, PeerState::Connected);
    core.complete_negotiate(Capabilities::empty(), vec![]);
    core.mark_connected();
    assert_eq!(core.state, PeerState::Negotiated);
}

#[test]
fn negotiate_requires_connected_state() {
    let core = PeerCore::new();
    let text = internal_text(core.begin_negotiate().unwrap_err());
    assert_eq!(text, "negotiate requires Connected state, current: Disconnected");
    let mut core = PeerCore::new();
    core.mark_connected();
    assert!(core.begin_negotiate().is_ok());
}

#[test]
fn establish_requires_negotiated_state() {
    let mut core = PeerCore::new();
    core.mark_connected();
    let text = internal_text(core.begin_establish().unwrap_err());
    assert_eq!(text, "establish requires Negotiated state, current: Connected");
    core.complete_negotiate(Capabilities::empty(), vec![]);
    assert!(core.begin_establish().is_ok());
    core.reset();
    assert_eq!(core.state, PeerState::Disconnected);
    assert!(core.begin_establish().is_err());
}

#[test]
fn negotiate_outcome_computes_effective_capabilities() {
    let local = Capabilities {
        commands: vec![],
        produce_events: vec![named("content_delta"), named("think")],
        accept_events: vec![],
    };
    let remote = Capabilities {
        commands: vec![named("new_activity")],
        produce_events: vec![],
        accept_events: vec![named("content_delta"), named("info")],
    };
    let (remote_back, effective) =
        PeerCore::negotiate_outcome(&local, XacppResponse::Negotiated { capabilities: remote })
            .unwrap();
    assert_eq!(remote_back.commands.len(), 1);
    assert_eq!(effective.emit_events, vec!["content_delta"]);
    let mut core = PeerCore::new();
    core.mark_connected();
    core.complete_negotiate(remote_back, effective.emit_events);
    assert_eq!(core.state, PeerState::Negotiated);
    assert_eq!(core.emit_events, vec!["content_delta"]);
}

#[test]
fn negotiate_outcome_errors() {
    let local = Capabilities::empty();
    match PeerCore::negotiate_outcome(
        &local,
        XacppResponse::Error { code: "internal_error".into(), message: "no".into() },
    ) {
        Err(XacppError::Application { code, message }) => {
            assert_eq!(code, "internal_error");
            assert_eq!(message, "no");
        }
        other => panic!("unexpected: {other:?}"),
    }
    let text = internal_text(
        PeerCore::negotiate_outcome(&local, XacppResponse::acknowledge()).unwrap_err(),
    );
    assert!(text.starts_with("unexpected response to negotiate: "), "{text}");
    assert!(text.contains("acknowledge"), "{text}");
}

#[test]
fn establish_outcomes() {
    match PeerCore::establish_outcome(XacppResponse::Established {
        session_id: "sid".into(),
        credentials: "creds".into(),
    }) {
        EstablishStep::Established { session_id, credentials } => {
            assert_eq!(session_id, "sid");
            assert_eq!(credentials, "creds");
        }
        other => panic!("unexpected: {other:?}"),
    }
    match PeerCore::establish_outcome(XacppResponse::EstablishPrepare {
        challenge: "prove-yourself".into(),
    }) {
        EstablishStep::Challenge { challenge } => assert_eq!(challenge, "prove-yourself"),
        other => panic!("unexpected: {other:?}"),
    }
    match PeerCore::establish_outcome(XacppResponse::EstablishReject { reason: "bad".into() }) {
        EstablishStep::Failed(XacppError::EstablishReject { reason }) => assert_eq!(reason, "bad"),
        other => panic!("unexpected: {other:?}"),
    }
    match PeerCore::establish_outcome(XacppResponse::acknowledge()) {
        EstablishStep::Failed(XacppError::Internal(t)) => {
            assert!(t.starts_with("unexpected response to establish: "))
        }
        other => panic!("unexpected: {other:?}"),
    }
    match PeerCore::confirm_outcome(XacppResponse::Established {
        session_id: "challenge-sid".into(),
        credentials: "issued-creds".into(),
    }) {
        Ok((sid, creds)) => {
            assert_eq!(sid, "challenge-sid");
            assert_eq!(creds, "issued-creds");
        }
        other => panic!("unexpected: {other:?}"),
    }
    match PeerCore::confirm_outcome(XacppResponse::Error { code: "c".into(), message: "m".into() }) {
        Err(XacppError::Application { code, message }) => {
            assert_eq!((code.as_str(), message.as_str()), ("c", "m"))
        }
        other => panic!("unexpected: {other:?}"),
    }
    let text = internal_text(PeerCore::confirm_outcome(XacppResponse::acknowledge()).unwrap_err());
    assert!(text.starts_with("unexpected response to establish_confirm: "));
}

#[test]
fn emit_check_follows_negotiated_events() {
    let mut core = PeerCore::new();
    assert!(core.check_emit(&"anything".to_string()).is_ok());
    core.complete_negotiate(Capabilities::empty(), vec!["content_delta".to_string()]);
    assert!(core.check_emit(&"content_delta".to_string()).is_ok());
    let text = internal_text(core.check_emit(&"think".to_string()).unwrap_err());
    assert_eq!(text, "event 'think' not in negotiated emit_events capability");
    core.reset();
    assert!(core.emit_events.is_empty());
    assert!(core.check_emit(&"think".to_string()).is_ok());
}

#[test]
fn empty_negotiation_allows_no_event() {
    let mut core = PeerCore::new();
    core.mark_connected();
    assert!(core.check_emit(&"think".to_string()).is_ok());
    core.complete_negotiate(Capabilities::empty(), Vec::new());
    let text = internal_text(core.check_emit(&"think".to_string()).unwrap_err());
    assert_eq!(text, "event 'think' not in negotiated emit_events capability");
    assert!(core.check_emit(&"content_delta".to_string()).is_err());
}

#[test]
fn establish_decisions_register_sessions() {
    let mut sessions: KeyedTable<u32> = KeyedTable::new();
    let challenge = EstablishDecision::ChallengeRequired { challenge: "nonce".to_string() };
    match apply_establish_decision(&mut sessions, challenge) {
        XacppResponse::EstablishPrepare { challenge } => assert_eq!(challenge, "nonce"),
        other => panic!("unexpected: {other:?}"),
    }
    assert_eq!(sessions.len(), 0);
    let done = EstablishDecision::Established {
        session_id: "handler-1".to_string(),
        handler: 1,
        credentials: "cred".to_string(),
    };
    match apply_establish_decision(&mut sessions, done) {
        XacppResponse::Established { session_id, credentials } => {
            assert_eq!(session_id, "handler-1");
            assert_eq!(credentials, "cred");
        }
        other => panic!("unexpected: {other:?}"),
    }
    match register_session(&mut sessions, "handler-2".to_string(), 2, String::new()) {
        XacppResponse::Established { session_id, credentials } => {
            assert_eq!(session_id, "handler-2");
            assert_eq!(credentials, "");
        }
        other => panic!("unexpected: {other:?}"),
    }
    assert_eq!(session_route(&sessions, &"handler-1".to_string()).ok(), Some(&1));
    assert_eq!(session_route(&sessions, &"handler-2".to_string()).ok(), Some(&2));
    assert_eq!(session_route(&sessions, &"handler-1".to_string()).ok(), Some(&1));
    sessions.take(&"handler-2".to_string());
    assert_eq!(session_route(&sessions, &"handler-1".to_string()).ok(), Some(&1));
}

#[test]
fn inbound_requests_are_routed() {
    let caps = Capabilities { commands: vec![named("x")], produce_events: vec![], accept_events: vec![] };
    match route_inbound(None, XacppRequest::Command(XacppCommand::Negotiate { capabilities: caps })) {
        InboundRoute::Negotiate(c) => assert_eq!(c.commands.len(), 1),
        other => panic!("unexpected: {other:?}"),
    }
    match route_inbound(
        None,
        XacppRequest::Command(XacppCommand::Establish { credentials: Some("c".into()) }),
    ) {
        InboundRoute::Establish(c) => assert_eq!(c.as_deref(), Some("c")),
        other => panic!("unexpected: {other:?}"),
    }
    assert!(matches!(
        route_inbound(None, XacppRequest::Command(XacppCommand::EstablishConfirm)),
        InboundRoute::EstablishConfirm
    ));
    match route_inbound(
        None,
        XacppRequest::Command(XacppCommand::generic("new_activity".into(), JsonValue::Null)),
    ) {
        InboundRoute::Refuse(XacppError::InvalidRequest(t)) => assert_eq!(t, "missing session_id"),
        other => panic!("unexpected: {other:?}"),
    }
    let event = XacppActivityEvent::new("act".into(), XacppEvent::new("think".into(), JsonValue::Null));
    match route_inbound(None, XacppRequest::Event(event)) {
        InboundRoute::Refuse(XacppError::InvalidRequest(_)) => {}
        other => panic!("unexpected: {other:?}"),
    }
    match route_inbound(
        Some("s1".into()),
        XacppRequest::Command(XacppCommand::EstablishConfirm),
    ) {
        InboundRoute::Command { session_id, command } => {
            assert_eq!(session_id, "s1");
            assert_eq!(command.name(), "establish_confirm");
        }
        other => panic!("unexpected: {other:?}"),
    }
    let event = XacppActivityEvent::new("act".into(), XacppEvent::new("think".into(), JsonValue::Null));
    match route_inbound(Some("s2".into()), XacppRequest::Event(event)) {
        InboundRoute::Event { session_id, event } => {
            assert_eq!(session_id, "s2");
            assert_eq!(event.event.name, "think");
        }
        other => panic!("unexpected: {other:?}"),
    }
}

#[test]
fn responder_answers_negotiate_with_its_capabilities() {
    let local = Capabilities {
        commands: vec![named("new_activity"), named("switch_activity")],
        produce_events: vec![named("content_delta")],
        accept_events: vec![],
    };
    let remote = Capabilities {
        commands: vec![],
        produce_events: vec![],
        accept_events: vec![named("content_delta")],
    };
    let (effective, answer) = answer_negotiate(&local, &remote);
    assert!(effective.remote_commands.is_empty());
    assert_eq!(effective.emit_events, vec!["content_delta"]);
    match answer {
        XacppResponse::Negotiated { capabilities } => {
            assert_eq!(capabilities.commands.len(), 2);
            assert_eq!(capabilities.produce_events.len(), 1);
        }
        other => panic!("unexpected: {other:?}"),
    }
}

#[test]
fn sessions_route_to_their_own_handler() {
    let mut sessions: KeyedTable<&str> = KeyedTable::new();
    sessions.insert("handler-1".to_string(), "first");
    sessions.insert("handler-2".to_string(), "second");
    assert_eq!(*session_route(&sessions, &"handler-1".to_string()).unwrap(), "first");
    assert_eq!(*session_route(&sessions, &"handler-2".to_string()).unwrap(), "second");
    let text = internal_text(session_route(&sessions, &"nope".to_string()).unwrap_err());
    assert_eq!(text, "unknown session: nope");
    sessions.insert("handler-1".to_string(), "replaced");
    assert_eq!(sessions.len(), 2);
    assert_eq!(*session_route(&sessions, &"handler-1".to_string()).unwrap(), "replaced");
    assert_eq!(*session_route(&sessions, &"handler-2".to_string()).unwrap(), "second");
}

#[test]
fn state_labels() {
    assert_eq!(PeerState::Disconnected.label(), "Disconnected");
    assert_eq!(PeerState::Connected.label(), "Connected");
    assert_eq!(PeerState::Negotiated.label(), "Negotiated");
}
