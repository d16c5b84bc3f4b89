use xacpp::declaration::{
    CommandDeclaration, Dispatcher, EvaluationPolicy, ExtraScope, RequireToolCall,
};
use xacpp::json::JsonValue;

fn s(text: &str) -> JsonValue {
    JsonValue::Str(text.to_string())
}

fn obj(members: Vec<(&str, JsonValue)>) -> JsonValue {
    JsonValue::Object(members.into_iter().map(|(k, v)| (k.to_string(), v)).collect())
}

fn arr(items: Vec<JsonValue>) -> JsonValue {
    JsonValue::Array(items)
}

/// JSON equality, objects compared as maps.
fn json_eq(a: &JsonValue, b: &JsonValue) -> bool {
    match (a, b) {
        (JsonValue::Null, JsonValue::Null) => true,
        (JsonValue::Bool(x), JsonValue::Bool(y)) => x == y,
        (JsonValue::Number(x), JsonValue::Number(y)) => x == y,
        (JsonValue::Str(x), JsonValue::Str(y)) => x == y,
        (JsonValue::Array(x), JsonValue::Array(y)) => {
            x.len() == y.len() && x.iter().zip(y.iter()).all(|(p, q)| json_eq(p, q))
        }
        (JsonValue::Object(x), JsonValue::Object(y)) => {
            x.len() == y.len()
                && x.iter().all(|(k, v)| y.iter().any(|(k2, v2)| k == k2 && json_eq(v, v2)))
        }
        _ => false,
    }
}

fn dispatcher_eq(a: &Option<Dispatcher>, b: &Option<Dispatcher>) -> bool {
    match (a, b) {
        (None, None) => true,
        (Some(Dispatcher::Tool), Some(Dispatcher::Tool)) => true,
        (Some(Dispatcher::Bridge), Some(Dispatcher::Bridge)) => true,
        (Some(Dispatcher::Unknown(x)), Some(Dispatcher::Unknown(y))) => x == y,
        _ => false,
    }
}

fn scope_words(scopes: &[ExtraScope]) -> Vec<String> {
    scopes.iter().map(|s| s.to_wire()).collect()
}

fn is_compact(s: &ExtraScope) -> bool {
    matches!(s, ExtraScope::Compact)
}

fn declaration_eq(a: &CommandDeclaration, b: &CommandDeclaration) -> bool {
    a.name == b.name
        && a.description == b.description
        && match (&a.parameters, &b.parameters) {
            (None, None) => true,
            (Some(x), Some(y)) => json_eq(x, y),
            _ => false,
        }
        && dispatcher_eq(&a.dispatcher, &b.dispatcher)
        && match (&a.evaluation_policy, &b.evaluation_policy) {
            (None, None) => true,
            (Some(x), Some(y)) => match (&x.require_tool_call, &y.require_tool_call) {
                (None, None) => true,
                (Some(p), Some(q)) => p.require == q.require && p.on_failure == q.on_failure,
                _ => false,
            },
            _ => false,
        }
        && a.extra_scopes.len() == b.extra_scopes.len()
        && a.extra_scopes.iter().zip(b.extra_scopes.iter()).all(|(x, y)| {
            is_compact(x) == is_compact(y) && x.to_wire() == y.to_wire()
        })
}

fn parameters_schema() -> JsonValue {
    obj(vec![
        ("type", s("object")),
        ("properties", obj(vec![("title", obj(vec![("type", s("string"))]))])),
    ])
}

#[test]
fn test_command_declaration_full_roundtrip() {
    let json = obj(vec![
        ("name", s("new_activity")),
        ("description", s("Create a new activity")),
        ("parameters", parameters_schema()),
        ("dispatcher", s("tool")),
        (
            "evaluationPolicy",
            obj(vec![(
                "requireToolCall",
                obj(vec![
                    ("require", s("report_to_user")),
                    ("onFailure", s("You must reply via report_to_user.")),
                ]),
            )]),
        ),
        ("extraScopes", arr(vec![s("compact")])),
    ]);

    let decl = CommandDeclaration::from_value(&json).unwrap();
    assert_eq!(decl.name, "new_activity");
    assert_eq!(decl.description.as_deref(), Some("Create a new activity"));
    assert!(matches!(decl.parameters, Some(JsonValue::Object(_))));
    assert!(matches!(decl.dispatcher, Some(Dispatcher::Tool)));
    let rtc = decl.require_tool_call().unwrap();
    assert_eq!(rtc.require, "report_to_user");
    assert_eq!(rtc.on_failure, "You must reply via report_to_user.");
    assert_eq!(decl.extra_scopes.len(), 1);
    assert!(matches!(decl.extra_scopes[0], ExtraScope::Compact));

    // Wire keys stay camelCase; a fully-populated declaration round-trips losslessly.
    let back = decl.to_value().unwrap();
    assert!(json_eq(&back, &json), "back: {back:?}");

    let reparsed = CommandDeclaration::from_value(&back).unwrap();
    assert!(declaration_eq(&decl, &reparsed));
}

#[test]
fn test_command_declaration_optional_fields_omitted_on_serialize() {
    let decl = CommandDeclaration {
        name: "cmd".into(),
        description: None,
        parameters: None,
        dispatcher: None,
        evaluation_policy: None,
        extra_scopes: vec![],
    };
    let back = decl.to_value().unwrap();
    assert!(json_eq(&back, &obj(vec![("name", s("cmd"))])));
}

#[test]
fn test_command_declaration_unknown_fields_tolerated() {
    let json = obj(vec![
        ("name", s("cmd")),
        ("futureField", obj(vec![("anything", JsonValue::Bool(true))])),
    ]);
    let decl = CommandDeclaration::from_value(&json).unwrap();
    assert_eq!(decl.name, "cmd");
    assert!(decl.description.is_none());
}

#[test]
fn test_command_declaration_absent_fields_default_semantics() {
    let json = obj(vec![("name", s("cmd"))]);
    let decl = CommandDeclaration::from_value(&json).unwrap();
    // Absent dispatcher = bridge semantics (not tool-facing).
    assert!(!decl.is_tool_facing());
    assert!(decl.dispatcher.is_none());
    // Absent scopes = default conversation surface only.
    assert!(!decl.has_compact_scope());
    assert!(decl.extra_scopes.is_empty());
    assert!(decl.require_tool_call().is_none());
}

#[test]
fn test_command_declaration_unknown_values_fall_back() {
    let json = obj(vec![
        ("name", s("cmd")),
        ("dispatcher", s("turbo")),
        ("extraScopes", arr(vec![s("compact"), s("sidebar")])),
    ]);
    let decl = CommandDeclaration::from_value(&json).unwrap();
    assert!(matches!(&decl.dispatcher, Some(Dispatcher::Unknown(w)) if w == "turbo"));
    // Unknown dispatcher is conservatively not tool-facing.
    assert!(!decl.is_tool_facing());
    assert_eq!(decl.extra_scopes.len(), 2);
    assert!(matches!(decl.extra_scopes[0], ExtraScope::Compact));
    assert!(matches!(&decl.extra_scopes[1], ExtraScope::Unknown(w) if w == "sidebar"));
    // Unknown values serialize back verbatim (no data loss).
    let back = decl.to_value().unwrap();
    assert!(json_eq(back.get("dispatcher").unwrap(), &s("turbo")));
    assert!(json_eq(back.get("extraScopes").unwrap(), &arr(vec![s("compact"), s("sidebar")])));
}

#[test]
fn test_command_declaration_helpers() {
    let json = obj(vec![
        ("name", s("cmd")),
        ("dispatcher", s("tool")),
        (
            "evaluationPolicy",
            obj(vec![(
                "requireToolCall",
                obj(vec![("require", s("report_to_user")), ("onFailure", s("bounce"))]),
            )]),
        ),
        ("extraScopes", arr(vec![s("compact")])),
    ]);
    let decl = CommandDeclaration::from_value(&json).unwrap();
    assert!(decl.is_tool_facing());
    assert!(decl.has_compact_scope());
    assert_eq!(decl.require_tool_call().unwrap().require, "report_to_user");
    assert_eq!(decl.require_tool_call().unwrap().on_failure, "bounce");
}

#[test]
fn test_command_declaration_explicit_bridge_dispatcher() {
    let json = obj(vec![("name", s("cmd")), ("dispatcher", s("bridge"))]);
    let decl = CommandDeclaration::from_value(&json).unwrap();
    // Explicit bridge is a known wire value, distinct from Unknown.
    assert!(matches!(decl.dispatcher, Some(Dispatcher::Bridge)));
    // Bridge is not the model tool surface.
    assert!(!decl.is_tool_facing());
    // Serializes back verbatim as the wire value.
    let back = decl.to_value().unwrap();
    assert!(json_eq(&back, &json));
}

#[test]
fn declaration_rejects_bad_shapes() {
    // Missing name.
    assert!(CommandDeclaration::from_value(&obj(vec![("description", s("d"))])).is_err());
    // Name not a string.
    assert!(CommandDeclaration::from_value(&obj(vec![("name", JsonValue::Bool(true))])).is_err());
    // Not an object.
    assert!(CommandDeclaration::from_value(&s("cmd")).is_err());
    assert!(CommandDeclaration::from_value(&JsonValue::Null).is_err());
    // Dispatcher not a string.
    assert!(CommandDeclaration::from_value(&obj(vec![
        ("name", s("cmd")),
        ("dispatcher", JsonValue::Number("1".into())),
    ]))
    .is_err());
    // extraScopes present but null, or holding a non-string.
    assert!(CommandDeclaration::from_value(&obj(vec![
        ("name", s("cmd")),
        ("extraScopes", JsonValue::Null),
    ]))
    .is_err());
    assert!(CommandDeclaration::from_value(&obj(vec![
        ("name", s("cmd")),
        ("extraScopes", arr(vec![s("compact"), JsonValue::Null])),
    ]))
    .is_err());
    // requireToolCall without onFailure.
    assert!(CommandDeclaration::from_value(&obj(vec![
        ("name", s("cmd")),
        ("evaluationPolicy", obj(vec![("requireToolCall", obj(vec![("require", s("x"))]))])),
    ]))
    .is_err());
}

#[test]
fn declaration_nulls_mean_absent() {
    let json = obj(vec![
        ("name", s("cmd")),
        ("description", JsonValue::Null),
        ("parameters", JsonValue::Null),
        ("dispatcher", JsonValue::Null),
        ("evaluationPolicy", JsonValue::Null),
    ]);
    let decl = CommandDeclaration::from_value(&json).unwrap();
    assert!(decl.description.is_none());
    assert!(decl.parameters.is_none());
    assert!(decl.dispatcher.is_none());
    assert!(decl.evaluation_policy.is_none());
    // An empty policy object carries no requireToolCall.
    let json = obj(vec![("name", s("cmd")), ("evaluationPolicy", obj(vec![]))]);
    let decl = CommandDeclaration::from_value(&json).unwrap();
    assert!(decl.evaluation_policy.is_some());
    assert!(decl.require_tool_call().is_none());
}

#[test]
fn declaration_from_array_form() {
    // Fields in order; trailing ones may be left out.
    let decl = CommandDeclaration::from_value(&arr(vec![s("cmd"), s("desc")])).unwrap();
    assert_eq!(decl.name, "cmd");
    assert_eq!(decl.description.as_deref(), Some("desc"));
    assert!(decl.dispatcher.is_none());
    // The name is required; more than six elements are refused.
    assert!(CommandDeclaration::from_value(&arr(vec![])).is_err());
    let seven = arr(vec![
        s("cmd"),
        JsonValue::Null,
        JsonValue::Null,
        JsonValue::Null,
        JsonValue::Null,
        arr(vec![]),
        JsonValue::Null,
    ]);
    assert!(CommandDeclaration::from_value(&seven).is_err());
    // A requireToolCall entry as a two-element array.
    let policy = arr(vec![arr(vec![s("tool_a"), s("retry")])]);
    let decl = CommandDeclaration::from_value(&arr(vec![
        s("cmd"),
        JsonValue::Null,
        JsonValue::Null,
        s("tool"),
        policy,
    ]))
    .unwrap();
    assert!(decl.is_tool_facing());
    assert_eq!(decl.require_tool_call().unwrap().require, "tool_a");
    assert_eq!(decl.require_tool_call().unwrap().on_failure, "retry");
}

#[test]
fn declaration_roundtrip_from_value() {
    let decl = CommandDeclaration {
        name: "report".into(),
        description: Some("send a report".into()),
        parameters: Some(obj(vec![("type", s("object"))])),
        dispatcher: Some(Dispatcher::Unknown("later".into())),
        evaluation_policy: Some(EvaluationPolicy {
            require_tool_call: Some(RequireToolCall {
                require: "report_to_user".into(),
                on_failure: "retry".into(),
            }),
        }),
        extra_scopes: vec![ExtraScope::Unknown("sidebar".into()), ExtraScope::Compact],
    };
    let value = decl.to_value().unwrap();
    let back = CommandDeclaration::from_value(&value).unwrap();
    assert!(declaration_eq(&decl, &back));
    assert_eq!(scope_words(&back.extra_scopes), vec!["sidebar", "compact"]);
}

#[test]
fn wire_words_are_preserved() {
    for word in ["tool", "bridge", "turbo", ""] {
        assert_eq!(Dispatcher::from_wire(word.to_string()).to_wire(), word);
    }
    for word in ["compact", "sidebar", ""] {
        assert_eq!(ExtraScope::from_wire(word.to_string()).to_wire(), word);
    }
    assert!(matches!(Dispatcher::from_wire("tool".into()), Dispatcher::Tool));
    assert!(matches!(Dispatcher::from_wire("bridge".into()), Dispatcher::Bridge));
    assert!(matches!(ExtraScope::from_wire("compact".into()), ExtraScope::Compact));
    assert!(matches!(Dispatcher::from_wire("Tool".into()), Dispatcher::Unknown(_)));
}
