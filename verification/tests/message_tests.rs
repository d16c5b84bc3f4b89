use xacpp::activity_ref::ActivityRef;
use xacpp::commands::XacppCommand;
use xacpp::error::XacppError;
use xacpp::events::activity_event::XacppActivityEvent;
use xacpp::events::interaction::{
    action_request_command, question_command, sensitive_info_command, ActionRequestPayload,
    QuestionPayload, SensitiveInfoItem, SensitiveInfoOperation, SensitiveInfoOperationPayload,
    SensitiveInfoType,
};
use xacpp::events::payload::AlertLevel;
use xacpp::events::xacpp_event::XacppEvent;
use xacpp::json::JsonValue;
use xacpp::message::XacppResponse;

fn text<'a>(v: &'a JsonValue, key: &str) -> &'a str {
    v.get(key).expect("member present").as_str().expect("a string").as_str()
}

#[test]
fn test_action_request_command_builder() {
    let payload = ActionRequestPayload {
        request_id: "req-1".into(),
        tool_name: "bash".into(),
        arguments: "{}".into(),
        action_id: "act-1".into(),
        description: "test".into(),
        alert: AlertLevel::Info,
        intent: "test".into(),
    };
    let args = action_request_command("act-1", &payload);

    // All payload fields plus "activity".
    assert_eq!(text(&args, "activity"), "act-1");
    assert_eq!(text(&args, "requestId"), "req-1");
    assert_eq!(text(&args, "toolName"), "bash");

    // The full command carries the builder's arguments under its name.
    let cmd = XacppCommand::generic("action_request".into(), args);
    assert_eq!(cmd.name(), "action_request");
    match &cmd {
        XacppCommand::Generic { arguments, activity, .. } => {
            assert_eq!(text(arguments, "activity"), "act-1");
            assert!(activity.is_none());
        }
        other => panic!("unexpected: {other:?}"),
    }
}

#[test]
fn test_question_command_builder() {
    let payload = QuestionPayload {
        request_id: "req-2".into(),
        question: "continue?".into(),
        options: vec!["yes".into(), "no".into()],
    };
    let args = question_command("act-1", &payload);

    assert_eq!(text(&args, "activity"), "act-1");
    assert_eq!(text(&args, "requestId"), "req-2");
    assert_eq!(text(&args, "question"), "continue?");

    let cmd = XacppCommand::generic("question".into(), args);
    assert_eq!(cmd.name(), "question");
}

#[test]
fn test_sensitive_info_command_builder() {
    let payload = SensitiveInfoOperationPayload {
        request_id: "req-3".into(),
        operation: SensitiveInfoOperation::Collect {
            items: vec![SensitiveInfoItem {
                id: None,
                key: "API_KEY".into(),
                display_text: "API Key".into(),
                hint: "enter key".into(),
                si_type: SensitiveInfoType::Secret,
            }],
        },
    };
    let args = sensitive_info_command("act-1", &payload);

    assert_eq!(text(&args, "activity"), "act-1");
    assert_eq!(text(&args, "requestId"), "req-3");

    let cmd = XacppCommand::generic("sensitive_info_operation".into(), args);
    assert_eq!(cmd.name(), "sensitive_info_operation");
}

#[test]
fn action_request_members_are_camel_case() {
    let payload = ActionRequestPayload {
        request_id: "req-1".into(),
        tool_name: "bash".into(),
        arguments: r#"{"command":"ls"}"#.into(),
        action_id: "act-1".into(),
        description: "list files".into(),
        alert: AlertLevel::Warn,
        intent: "look".into(),
    };
    let args = action_request_command("activity-1", &payload);
    assert_eq!(text(&args, "arguments"), r#"{"command":"ls"}"#);
    assert_eq!(text(&args, "actionId"), "act-1");
    assert_eq!(text(&args, "description"), "list files");
    assert_eq!(text(&args, "alert"), "warn");
    assert_eq!(text(&args, "intent"), "look");
    match &args {
        JsonValue::Object(members) => assert_eq!(members.len(), 8),
        other => panic!("unexpected: {other:?}"),
    }
    let critical = ActionRequestPayload { alert: AlertLevel::Critical, ..payload };
    assert_eq!(text(&action_request_command("a", &critical), "alert"), "critical");
}

#[test]
fn question_options_are_listed_in_order() {
    let payload = QuestionPayload {
        request_id: "req-2".into(),
        question: "continue?".into(),
        options: vec!["yes".into(), "no".into()],
    };
    let args = question_command("act-1", &payload);
    match args.get("options") {
        Some(JsonValue::Array(items)) => {
            assert_eq!(items.len(), 2);
            assert_eq!(items[0].as_str().unwrap(), "yes");
            assert_eq!(items[1].as_str().unwrap(), "no");
        }
        other => panic!("unexpected: {other:?}"),
    }
}

#[test]
fn sensitive_info_operation_is_tagged() {
    let payload = SensitiveInfoOperationPayload {
        request_id: "req-3".into(),
        operation: SensitiveInfoOperation::Delete {
            items: vec![
                SensitiveInfoItem {
                    id: Some("item-1".into()),
                    key: "DB_PASSWORD".into(),
                    display_text: "Database Password".into(),
                    hint: "".into(),
                    si_type: SensitiveInfoType::EnvVar,
                },
                SensitiveInfoItem {
                    id: None,
                    key: "API_KEY".into(),
                    display_text: "API Key".into(),
                    hint: "h".into(),
                    si_type: SensitiveInfoType::Secret,
                },
            ],
        },
    };
    let args = sensitive_info_command("act-9", &payload);
    let op = args.get("operation").unwrap();
    assert_eq!(text(op, "type"), "delete");
    match op.get("items") {
        Some(JsonValue::Array(items)) => {
            assert_eq!(items.len(), 2);
            assert_eq!(text(&items[0], "id"), "item-1");
            assert_eq!(text(&items[0], "siType"), "env_var");
            assert_eq!(text(&items[0], "displayText"), "Database Password");
            assert!(items[1].get("id").is_none());
            assert_eq!(text(&items[1], "siType"), "secret");
        }
        other => panic!("unexpected: {other:?}"),
    }
}

#[test]
fn command_names() {
    assert_eq!(XacppCommand::Establish { credentials: None }.name(), "establish");
    assert_eq!(XacppCommand::EstablishConfirm.name(), "establish_confirm");
    let caps = xacpp::capability::Capabilities::empty();
    assert_eq!(XacppCommand::Negotiate { capabilities: caps }.name(), "negotiate");
    let cmd = XacppCommand::generic_with_activity(
        "report_to_user".into(),
        JsonValue::Null,
        ActivityRef::new("act-1".into()),
    );
    assert_eq!(cmd.name(), "report_to_user");
    match cmd {
        XacppCommand::Generic { activity, .. } => {
            assert_eq!(activity, Some(ActivityRef::new("act-1".into())))
        }
        other => panic!("unexpected: {other:?}"),
    }
}

#[test]
fn response_constructors() {
    match XacppResponse::acknowledge() {
        XacppResponse::Generic { name, data } => {
            assert_eq!(name, "acknowledge");
            assert!(matches!(data, JsonValue::Null));
        }
        other => panic!("unexpected: {other:?}"),
    }
    match XacppResponse::activity_not_found() {
        XacppResponse::Generic { name, data } => {
            assert_eq!(name, "activity_not_found");
            assert!(matches!(data, JsonValue::Null));
        }
        other => panic!("unexpected: {other:?}"),
    }
    match XacppResponse::error("internal_error".into(), "boom".into()) {
        XacppResponse::Error { code, message } => {
            assert_eq!(code, "internal_error");
            assert_eq!(message, "boom");
        }
        other => panic!("unexpected: {other:?}"),
    }
    match XacppResponse::generic("action".into(), JsonValue::Bool(true)) {
        XacppResponse::Generic { name, data } => {
            assert_eq!(name, "action");
            assert!(matches!(data, JsonValue::Bool(true)));
        }
        other => panic!("unexpected: {other:?}"),
    }
}

#[test]
fn activity_event_wraps_its_activity() {
    let event = XacppActivityEvent::new(
        "act-1".into(),
        XacppEvent::new("think".into(), JsonValue::Str("hi".into())),
    );
    assert_eq!(event.activity, ActivityRef::new("act-1".into()));
    assert_eq!(event.event.name, "think");
}

#[test]
fn error_codes_and_messages() {
    let cases: Vec<(XacppError, &str, &str)> = vec![
        (XacppError::NotConnected, "not_connected", "not connected"),
        (XacppError::AlreadyConnected, "already_connected", "already connected"),
        (XacppError::Closed, "closed", "connection closed"),
        (XacppError::NoHandler, "no_handler", "no handler registered"),
        (XacppError::InvalidRequest("bad".into()), "invalid_request", "invalid request: bad"),
        (
            XacppError::EstablishReject { reason: "bad creds".into() },
            "establish_rejected",
            "establish rejected: bad creds",
        ),
        (
            XacppError::Internal("something went wrong".into()),
            "internal_error",
            "internal error: something went wrong",
        ),
        (
            XacppError::Application { code: "quota".into(), message: "too many".into() },
            "quota",
            "[quota] too many",
        ),
    ];
    for (error, code, message) in cases {
        assert_eq!(error.code(), code);
        assert_eq!(error.to_string(), message);
    }
}
