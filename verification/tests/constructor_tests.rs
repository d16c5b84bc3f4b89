use xacpp::activity_ref::ActivityRef;
use xacpp::commands::XacppCommand;
use xacpp::events::activity_event::XacppActivityEvent;
use xacpp::events::xacpp_event::XacppEvent;
use xacpp::json::JsonValue;
use xacpp::message::XacppResponse;

fn object(members: Vec<(&str, JsonValue)>) -> JsonValue {
    JsonValue::Object(members.into_iter().map(|(k, v)| (k.to_string(), v)).collect())
}

fn content(v: &JsonValue) -> &JsonValue {
    match v {
        JsonValue::Object(members) => {
            &members.iter().find(|(k, _)| k == "content").expect("content member").1
        }
        other => panic!("not an object: {other:?}"),
    }
}

#[test]
fn generic_with_activity_keeps_its_fields() {
    let cmd = XacppCommand::generic_with_activity(
        "report_to_user".into(),
        object(vec![("content", JsonValue::Array(vec![JsonValue::Str("hello".into())]))]),
        ActivityRef::new("act-1".into()),
    );
    match cmd {
        XacppCommand::Generic { name, arguments, activity } => {
            assert_eq!(name, "report_to_user");
            match content(&arguments) {
                JsonValue::Array(items) => {
                    assert_eq!(items.len(), 1);
                    assert!(matches!(&items[0], JsonValue::Str(s) if s == "hello"));
                }
                other => panic!("unexpected: {other:?}"),
            }
            assert_eq!(activity, Some(ActivityRef::new("act-1".into())));
        }
        other => panic!("unexpected: {other:?}"),
    }
}

#[test]
fn generic_without_activity_has_none() {
    let cmd = XacppCommand::generic(
        "new_activity".into(),
        object(vec![("title", JsonValue::Str("t".into()))]),
    );
    match cmd {
        XacppCommand::Generic { name, activity, .. } => {
            assert_eq!(name, "new_activity");
            assert_eq!(activity, None);
        }
        other => panic!("unexpected: {other:?}"),
    }
}

#[test]
fn acknowledge_is_generic_with_null_data() {
    match XacppResponse::acknowledge() {
        XacppResponse::Generic { name, data } => {
            assert_eq!(name, "acknowledge");
            assert!(matches!(data, JsonValue::Null));
        }
        other => panic!("unexpected: {other:?}"),
    }
}

#[test]
fn activity_event_keeps_activity_and_event() {
    let event = XacppActivityEvent::new(
        "act-1".into(),
        XacppEvent::new("think".into(), object(vec![("content", JsonValue::Str("hi".into()))])),
    );
    assert_eq!(event.activity, ActivityRef::new("act-1".into()));
    assert_eq!(event.activity.id, "act-1");
    assert_eq!(event.event.name, "think");
    assert!(matches!(content(&event.event.data), JsonValue::Str(s) if s == "hi"));

    let explicit = XacppActivityEvent {
        activity: ActivityRef::new("test-act".into()),
        event: XacppEvent::new("think".into(), object(vec![("content", JsonValue::Str("hi".into()))])),
    };
    assert_eq!(explicit.activity, ActivityRef::new("test-act".into()));
    assert_eq!(explicit.event.name, "think");
}
