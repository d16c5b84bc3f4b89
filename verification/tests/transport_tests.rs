use xacpp::commands::XacppCommand;
use xacpp::error::XacppError;
use xacpp::json::JsonValue;
use xacpp::message::{XacppEnvelope, XacppRequest, XacppResponse};
use xacpp::table::KeyedTable;
use xacpp::transport::{
    answer_envelope, awaited_response, decimal_text, error_response, handler_response,
    no_handler_response, request_envelope, request_id, route_envelope, EnvelopeRoute, LinkState,
    RequestCounter, StreamSource,
};

fn establish() -> XacppRequest {
    XacppRequest::Command(XacppCommand::Establish { credentials: None })
}

#[test]
fn request_ids_are_r_and_a_decimal_counter() {
    assert_eq!(request_id(1), "r1");
    assert_eq!(request_id(0), "r0");
    assert_eq!(request_id(10), "r10");
    assert_eq!(request_id(4096), "r4096");
    assert_eq!(request_id(u64::MAX), "r18446744073709551615");
    assert_eq!(decimal_text(907), "907");
    let ids: Vec<String> = (1..200).map(request_id).collect();
    let mut sorted = ids.clone();
    sorted.sort();
    sorted.dedup();
    assert_eq!(sorted.len(), ids.len());
}

#[test]
fn handler_errors_become_error_responses() {
    match handler_response(Err(XacppError::Internal("something went wrong".into()))) {
        XacppResponse::Error { code, message } => {
            assert_eq!(code, "internal_error");
            assert_eq!(message, "internal error: something went wrong");
        }
        other => panic!("unexpected: {other:?}"),
    }
    match handler_response(Ok(XacppResponse::acknowledge())) {
        XacppResponse::Generic { name, .. } => assert_eq!(name, "acknowledge"),
        other => panic!("unexpected: {other:?}"),
    }
    match error_response(&XacppError::Application { code: "c".into(), message: "m".into() }) {
        XacppResponse::Error { code, message } => {
            assert_eq!(code, "c");
            assert_eq!(message, "[c] m");
        }
        other => panic!("unexpected: {other:?}"),
    }
}

#[test]
fn no_handler_answer() {
    match no_handler_response() {
        XacppResponse::Error { code, message } => {
            assert_eq!(code, "no_handler");
            assert_eq!(message, "no handler registered");
        }
        other => panic!("unexpected: {other:?}"),
    }
}

#[test]
fn inbound_envelopes_are_routed() {
    let env = XacppEnvelope::Request { id: "r7".into(), session_id: Some("s1".into()), payload: establish() };
    match route_envelope(env, true) {
        EnvelopeRoute::Handle { id, session_id, .. } => {
            assert_eq!(id, "r7");
            assert_eq!(session_id.as_deref(), Some("s1"));
        }
        other => panic!("unexpected: {other:?}"),
    }
    let env = XacppEnvelope::Request { id: "r8".into(), session_id: None, payload: establish() };
    match route_envelope(env, false) {
        EnvelopeRoute::Reply(XacppEnvelope::Response { id, session_id, payload }) => {
            assert_eq!(id, "r8");
            assert!(session_id.is_none());
            match payload {
                XacppResponse::Error { code, .. } => assert_eq!(code, "no_handler"),
                other => panic!("unexpected: {other:?}"),
            }
        }
        other => panic!("unexpected: {other:?}"),
    }
    let env = XacppEnvelope::Response {
        id: "r9".into(),
        session_id: None,
        payload: XacppResponse::acknowledge(),
    };
    match route_envelope(env, true) {
        EnvelopeRoute::Deliver { id, .. } => assert_eq!(id, "r9"),
        other => panic!("unexpected: {other:?}"),
    }
}

#[test]
fn answers_keep_the_request_id() {
    match answer_envelope("r3".into(), Some("s".into()), Err(XacppError::NoHandler)) {
        XacppEnvelope::Response { id, session_id, payload } => {
            assert_eq!(id, "r3");
            assert_eq!(session_id.as_deref(), Some("s"));
            assert!(matches!(payload, XacppResponse::Error { .. }));
        }
        other => panic!("unexpected: {other:?}"),
    }
    match request_envelope("r4".into(), Some("s1"), establish()) {
        XacppEnvelope::Request { id, session_id, .. } => {
            assert_eq!(id, "r4");
            assert_eq!(session_id.as_deref(), Some("s1"));
        }
        other => panic!("unexpected: {other:?}"),
    }
}

#[test]
fn pending_requests_are_matched_by_id() {
    let mut pending: KeyedTable<u32> = KeyedTable::new();
    pending.insert(request_id(1), 10);
    pending.insert(request_id(2), 20);
    assert_eq!(pending.take(&request_id(2)), Some(20));
    assert_eq!(pending.take(&request_id(2)), None);
    assert_eq!(pending.take(&"r99".to_string()), None);
    assert_eq!(pending.len(), 1);
    pending.clear();
    assert_eq!(pending.take(&request_id(1)), None);
    assert!(matches!(awaited_response(None), Err(XacppError::Closed)));
    assert!(matches!(awaited_response(Some(XacppResponse::acknowledge())), Ok(_)));
}

#[test]
fn each_reply_reaches_its_own_request() {
    let mut pending: KeyedTable<u64> = KeyedTable::new();
    for n in 1..=8u64 {
        pending.insert(request_id(n), n * 100);
    }
    for n in [5u64, 1, 8, 3, 2, 7, 4, 6] {
        let reply = answer_envelope(request_id(n), None, Ok(XacppResponse::acknowledge()));
        match route_envelope(reply, true) {
            EnvelopeRoute::Deliver { id, .. } => assert_eq!(pending.take(&id), Some(n * 100)),
            other => panic!("unexpected: {other:?}"),
        }
    }
    assert_eq!(pending.len(), 0);
}

#[test]
fn counter_issues_ids_in_turn() {
    let mut counter = RequestCounter::new();
    let ids: Vec<String> = (0..11).map(|_| counter.issue()).collect();
    assert_eq!(ids[0], "r1");
    assert_eq!(ids[1], "r2");
    assert_eq!(ids[9], "r10");
    assert_eq!(ids[10], "r11");
    let mut sorted = ids.clone();
    sorted.sort();
    sorted.dedup();
    assert_eq!(sorted.len(), ids.len());
}

#[test]
fn own_stream_connects_once() {
    let mut link = LinkState::over_stream();
    assert!(link.check_register().is_ok());
    assert!(link.begin_connect().is_ok());
    link.finish_connect();
    assert!(matches!(link.check_register(), Err(XacppError::AlreadyConnected)));
    assert!(matches!(link.begin_connect(), Err(XacppError::AlreadyConnected)));
    link.mark_closed();
    assert_eq!(link.source, StreamSource::Spent);
    // Reconnect after disconnect fails: the stream was consumed.
    assert!(matches!(link.begin_connect(), Err(XacppError::AlreadyConnected)));
}

#[test]
fn dialing_transport_reconnects() {
    let mut link = LinkState::dialing();
    assert!(link.begin_connect().is_ok());
    link.finish_connect();
    assert!(link.begin_connect().is_err());
    link.mark_closed();
    assert!(link.begin_connect().is_ok());
    let _ = JsonValue::Null;
}
