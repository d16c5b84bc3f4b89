//! Interaction command arguments and response data.
//!
//! These are the `arguments` of commands named "action_request", "question"
//! and "sensitive_info_operation", and the `data` of the matching responses.
//! The builders below produce the JSON arguments of those commands: the
//! payload's camelCase members plus the originating `activity`.

use vstd::prelude::*;
use vstd::string::*;

use super::payload::AlertLevel;
use crate::json::{
    item_docs, lemma_array_doc, lemma_member_first, lemma_object_doc, member, member_docs, Json,
    JsonValue,
};

verus! {

broadcast use vstd::seq_lib::group_seq_properties, vstd::seq::group_seq_axioms;

/// Answer to a tool call authorization request.
#[derive(Debug, Clone)]
pub enum ActionResponse {
    /// Approve execution.
    Approve,
    /// Approve execution and always allow the same request.
    ApproveAlways,
    /// Reject execution.
    Reject { reason: String },
}

/// Tool call authorization request (command arguments).
#[derive(Debug, Clone)]
pub struct ActionRequestPayload {
    pub request_id: String,
    pub tool_name: String,
    pub arguments: String,
    pub action_id: String,
    pub description: String,
    pub alert: AlertLevel,
    pub intent: String,
}

/// User notification (one-way, sent as an event).
#[derive(Debug, Clone)]
pub struct NotifyPayload {
    pub request_id: String,
    pub message: String,
}

/// Answer to a question.
#[derive(Debug, Clone)]
pub enum QuestionResponse {
    /// The user chose an answer.
    Answer { content: String },
    /// The user declined to answer.
    Skip { reason: Option<String> },
}

/// Question to the user (command arguments).
#[derive(Debug, Clone)]
pub struct QuestionPayload {
    pub request_id: String,
    pub question: String,
    pub options: Vec<String>,
}

/// Kind of sensitive information.
#[derive(Debug, Clone, PartialEq)]
pub enum SensitiveInfoType {
    Secret,
    EnvVar,
}

/// One piece of sensitive information (shown masked).
#[derive(Debug, Clone)]
pub struct SensitiveInfoItem {
    pub id: Option<String>,
    pub key: String,
    pub display_text: String,
    pub hint: String,
    pub si_type: SensitiveInfoType,
}

/// Operation on sensitive information.
#[derive(Debug, Clone)]
pub enum SensitiveInfoOperation {
    /// Ask the user to fill in the items.
    Collect { items: Vec<SensitiveInfoItem> },
    /// Ask the user to confirm deleting the items.
    Delete { items: Vec<SensitiveInfoItem> },
}

/// Outcome for one piece of sensitive information.
#[derive(Debug, Clone)]
pub enum SensitiveInfoResult {
    Provided { key: String, value: String },
    CollectSkipped { key: String, reason: Option<String> },
    Deleted { id: String },
    DeleteRejected { id: String, reason: Option<String> },
}

/// Answer to a sensitive information operation.
#[derive(Debug, Clone)]
pub struct SensitiveInfoOperationResponse {
    pub results: Vec<SensitiveInfoResult>,
}

/// Sensitive information operation request (command arguments).
#[derive(Debug, Clone)]
pub struct SensitiveInfoOperationPayload {
    pub request_id: String,
    pub operation: SensitiveInfoOperation,
}

// ---- Documents ----

/// The wire word of an alert level.
pub open spec fn alert_word(level: AlertLevel) -> Seq<char> {
    match level {
        AlertLevel::Info => "info"@,
        AlertLevel::Warn => "warn"@,
        AlertLevel::Critical => "critical"@,
    }
}

/// The wire word of a sensitive information kind.
pub open spec fn si_type_word(t: SensitiveInfoType) -> Seq<char> {
    match t {
        SensitiveInfoType::Secret => "secret"@,
        SensitiveInfoType::EnvVar => "env_var"@,
    }
}

/// The document of an authorization request.
pub open spec fn action_request_doc(p: ActionRequestPayload) -> Seq<(Seq<char>, Json)> {
    seq![
        ("requestId"@, Json::Str(p.request_id@)),
        ("toolName"@, Json::Str(p.tool_name@)),
        ("arguments"@, Json::Str(p.arguments@)),
        ("actionId"@, Json::Str(p.action_id@)),
        ("description"@, Json::Str(p.description@)),
        ("alert"@, Json::Str(alert_word(p.alert))),
        ("intent"@, Json::Str(p.intent@)),
    ]
}

/// The documents of a list of strings.
pub open spec fn text_docs(texts: Seq<String>) -> Seq<Json> {
    texts.map_values(|t: String| Json::Str(t@))
}

/// The members of a question.
pub open spec fn question_doc(p: QuestionPayload) -> Seq<(Seq<char>, Json)> {
    seq![
        ("requestId"@, Json::Str(p.request_id@)),
        ("question"@, Json::Str(p.question@)),
        ("options"@, Json::Array(text_docs(p.options@))),
    ]
}

/// The document of a sensitive information item; an absent id is omitted.
pub open spec fn item_doc(item: SensitiveInfoItem) -> Json {
    Json::Object(
        match item.id {
            Some(id) => seq![("id"@, Json::Str(id@))],
            None => Seq::empty(),
        } + seq![
            ("key"@, Json::Str(item.key@)),
            ("displayText"@, Json::Str(item.display_text@)),
            ("hint"@, Json::Str(item.hint@)),
            ("siType"@, Json::Str(si_type_word(item.si_type))),
        ],
    )
}

/// The documents of a list of items.
pub open spec fn items_doc(items: Seq<SensitiveInfoItem>) -> Seq<Json> {
    items.map_values(|i: SensitiveInfoItem| item_doc(i))
}

/// The document of an operation: its `type` tag, then its items.
pub open spec fn operation_doc(op: SensitiveInfoOperation) -> Json {
    match op {
        SensitiveInfoOperation::Collect { items } => Json::Object(
            seq![("type"@, Json::Str("collect"@)), ("items"@, Json::Array(items_doc(items@)))],
        ),
        SensitiveInfoOperation::Delete { items } => Json::Object(
            seq![("type"@, Json::Str("delete"@)), ("items"@, Json::Array(items_doc(items@)))],
        ),
    }
}

/// The members of a sensitive information operation request.
pub open spec fn sensitive_info_doc(p: SensitiveInfoOperationPayload) -> Seq<(Seq<char>, Json)> {
    seq![("requestId"@, Json::Str(p.request_id@)), ("operation"@, operation_doc(p.operation))]
}

/// Command arguments: the payload's members, then the originating activity.
pub open spec fn with_activity(members: Seq<(Seq<char>, Json)>, activity: Seq<char>) -> Json {
    Json::Object(members.push(("activity"@, Json::Str(activity))))
}

/// The alert member of an authorization request's arguments is the
/// snake_case name of its level: `info`, `warn` or `critical`.
pub proof fn lemma_action_request_alert(p: ActionRequestPayload, activity: Seq<char>)
    ensures
        with_activity(action_request_doc(p), activity).get("alert"@) == Some(
            Json::Str(
                match p.alert {
                    AlertLevel::Info => "info"@,
                    AlertLevel::Warn => "warn"@,
                    AlertLevel::Critical => "critical"@,
                },
            ),
        ),
{
    reveal_strlit("requestId");
    reveal_strlit("toolName");
    reveal_strlit("arguments");
    reveal_strlit("actionId");
    reveal_strlit("description");
    reveal_strlit("alert");
    let ms = action_request_doc(p).push(("activity"@, Json::Str(activity)));
    assert(ms[0].0 == "requestId"@ && ms[1].0 == "toolName"@ && ms[2].0 == "arguments"@);
    assert(ms[3].0 == "actionId"@ && ms[4].0 == "description"@);
    assert("alert"@.len() == 5 && "requestId"@.len() == 9 && "toolName"@.len() == 8);
    assert("arguments"@.len() == 9 && "actionId"@.len() == 8 && "description"@.len() == 11);
    assert(ms[5].0 == "alert"@);
    lemma_member_first(ms, "alert"@, 5);
}

/// Different alert levels have different wire words.
pub proof fn lemma_alert_words_distinct(x: AlertLevel, y: AlertLevel)
    requires
        x != y,
    ensures
        alert_word(x) != alert_word(y),
{
    reveal_strlit("info");
    reveal_strlit("warn");
    reveal_strlit("critical");
    assert("info"@[0] != "warn"@[0]);
}

/// A question's arguments always hold an `options` member: the array of the
/// options in order, empty when there are none.
pub proof fn lemma_question_options(p: QuestionPayload, activity: Seq<char>)
    ensures
        with_activity(question_doc(p), activity).get("options"@) matches Some(Json::Array(opts)) && opts.len()
            == p.options@.len() && forall|i: int| 0 <= i < opts.len() ==> opts[i] == Json::Str(p.options@[i]@),
{
    reveal_strlit("requestId");
    reveal_strlit("question");
    reveal_strlit("options");
    let ms = question_doc(p).push(("activity"@, Json::Str(activity)));
    assert(ms[0].0 == "requestId"@ && ms[1].0 == "question"@);
    assert("options"@.len() == 7 && "requestId"@.len() == 9 && "question"@.len() == 8);
    assert(ms[2] == ("options"@, Json::Array(text_docs(p.options@))));
    lemma_member_first(ms, "options"@, 2);
}

/// The `type` tag of a sensitive information operation's `operation` member
/// is `collect` for a collection and `delete` for a deletion.
pub proof fn lemma_sensitive_info_operation_tag(p: SensitiveInfoOperationPayload, activity: Seq<char>)
    ensures
        with_activity(sensitive_info_doc(p), activity).get("operation"@) matches Some(op) && op.get("type"@)
            == Some(
            Json::Str(
                match p.operation {
                    SensitiveInfoOperation::Collect { .. } => "collect"@,
                    SensitiveInfoOperation::Delete { .. } => "delete"@,
                },
            ),
        ),
{
    reveal_strlit("requestId");
    reveal_strlit("operation");
    let ms = sensitive_info_doc(p).push(("activity"@, Json::Str(activity)));
    assert(ms[0].0 == "requestId"@);
    assert("requestId"@[0] != "operation"@[0]);
    assert(ms[1] == ("operation"@, operation_doc(p.operation)));
    lemma_member_first(ms, "operation"@, 1);
    let om = operation_doc(p.operation)->Object_0;
    lemma_member_first(om, "type"@, 0);
}

/// A collection and a deletion carry different `type` tags.
pub proof fn lemma_operation_tags_differ(collect: SensitiveInfoOperation, delete: SensitiveInfoOperation)
    requires
        collect is Collect,
        delete is Delete,
    ensures
        operation_doc(collect).get("type"@) != operation_doc(delete).get("type"@),
{
    reveal_strlit("collect");
    reveal_strlit("delete");
    assert("collect"@[0] != "delete"@[0]);
    lemma_member_first(operation_doc(collect)->Object_0, "type"@, 0);
    lemma_member_first(operation_doc(delete)->Object_0, "type"@, 0);
}

fn text_member(key: &str, value: &String) -> (m: (String, JsonValue))
    ensures
        m.0@ == key@,
        m.1.doc() == Json::Str(value@),
{
    (key.to_string(), JsonValue::Str(value.clone()))
}

fn alert_value(level: AlertLevel) -> (v: JsonValue)
    ensures
        v.doc() == Json::Str(alert_word(level)),
{
    match level {
        AlertLevel::Info => JsonValue::Str(String::from_str("info")),
        AlertLevel::Warn => JsonValue::Str(String::from_str("warn")),
        AlertLevel::Critical => JsonValue::Str(String::from_str("critical")),
    }
}

fn item_value(item: &SensitiveInfoItem) -> (v: JsonValue)
    ensures
        v.doc() == item_doc(*item),
{
    let mut members: Vec<(String, JsonValue)> = Vec::new();
    match &item.id {
        Some(id) => members.push(text_member("id", id)),
        None => {},
    }
    let ghost head = member_docs(members@);
    members.push(text_member("key", &item.key));
    members.push(text_member("displayText", &item.display_text));
    members.push(text_member("hint", &item.hint));
    let word = match item.si_type {
        SensitiveInfoType::Secret => String::from_str("secret"),
        SensitiveInfoType::EnvVar => String::from_str("env_var"),
    };
    members.push((String::from_str("siType"), JsonValue::Str(word)));
    proof {
        lemma_object_doc(members);
        assert(member_docs(members@) =~= item_doc(*item)->Object_0);
    }
    JsonValue::Object(members)
}

fn items_value(items: &Vec<SensitiveInfoItem>) -> (v: JsonValue)
    ensures
        v.doc() == Json::Array(items_doc(items@)),
{
    let mut out: Vec<JsonValue> = Vec::new();
    let mut i: usize = 0;
    while i < items.len()
        invariant
            i <= items@.len(),
            out@.len() == i,
            item_docs(out@) == items_doc(items@).take(i as int),
        decreases items@.len() - i,
    {
        let ghost before = out@;
        out.push(item_value(&items[i]));
        assert(item_docs(out@) =~= item_docs(before).push(item_doc(items@[i as int])));
        assert(items_doc(items@).take(i + 1) =~= items_doc(items@).take(i as int).push(
            item_doc(items@[i as int]),
        ));
        i = i + 1;
    }
    assert(items_doc(items@).take(i as int) =~= items_doc(items@));
    proof {
        lemma_array_doc(out);
    }
    JsonValue::Array(out)
}

fn operation_value(op: &SensitiveInfoOperation) -> (v: JsonValue)
    ensures
        v.doc() == operation_doc(*op),
{
    let (tag, items) = match op {
        SensitiveInfoOperation::Collect { items } => (String::from_str("collect"), items),
        SensitiveInfoOperation::Delete { items } => (String::from_str("delete"), items),
    };
    let mut members: Vec<(String, JsonValue)> = Vec::new();
    members.push((String::from_str("type"), JsonValue::Str(tag)));
    members.push((String::from_str("items"), items_value(items)));
    proof {
        lemma_object_doc(members);
        assert(member_docs(members@) =~= operation_doc(*op)->Object_0);
    }
    JsonValue::Object(members)
}

fn finish_with_activity(mut members: Vec<(String, JsonValue)>, activity: &str) -> (v: JsonValue)
    ensures
        v.doc() == with_activity(member_docs(members@), activity@),
{
    let ghost before = member_docs(members@);
    members.push((String::from_str("activity"), JsonValue::Str(activity.to_string())));
    proof {
        lemma_object_doc(members);
        assert(member_docs(members@) =~= before.push(("activity"@, Json::Str(activity@))));
    }
    JsonValue::Object(members)
}

/// Arguments of an `action_request` command: the request's members plus `activity`.
pub fn action_request_command(activity: &str, payload: &ActionRequestPayload) -> (v: JsonValue)
    ensures
        v.doc() == with_activity(action_request_doc(*payload), activity@),
{
    let mut members: Vec<(String, JsonValue)> = Vec::new();
    members.push(text_member("requestId", &payload.request_id));
    members.push(text_member("toolName", &payload.tool_name));
    members.push(text_member("arguments", &payload.arguments));
    members.push(text_member("actionId", &payload.action_id));
    members.push(text_member("description", &payload.description));
    members.push((String::from_str("alert"), alert_value(payload.alert)));
    members.push(text_member("intent", &payload.intent));
    assert(member_docs(members@) =~= action_request_doc(*payload));
    finish_with_activity(members, activity)
}

/// Arguments of a `question` command: the question's members plus `activity`.
pub fn question_command(activity: &str, payload: &QuestionPayload) -> (v: JsonValue)
    ensures
        v.doc() == with_activity(question_doc(*payload), activity@),
{
    let mut options: Vec<JsonValue> = Vec::new();
    let mut i: usize = 0;
    while i < payload.options.len()
        invariant
            i <= payload.options@.len(),
            item_docs(options@) == text_docs(payload.options@).take(i as int),
        decreases payload.options@.len() - i,
    {
        let ghost before = options@;
        options.push(JsonValue::Str(payload.options[i].clone()));
        assert(item_docs(options@) =~= item_docs(before).push(Json::Str(payload.options@[i as int]@)));
        assert(text_docs(payload.options@).take(i + 1) =~= text_docs(payload.options@).take(
            i as int,
        ).push(Json::Str(payload.options@[i as int]@)));
        i = i + 1;
    }
    assert(text_docs(payload.options@).take(i as int) =~= text_docs(payload.options@));
    proof {
        lemma_array_doc(options);
    }
    let mut members: Vec<(String, JsonValue)> = Vec::new();
    members.push(text_member("requestId", &payload.request_id));
    members.push(text_member("question", &payload.question));
    members.push((String::from_str("options"), JsonValue::Array(options)));
    assert(member_docs(members@) =~= question_doc(*payload));
    finish_with_activity(members, activity)
}

/// Arguments of a `sensitive_info_operation` command: the request's members plus `activity`.
pub fn sensitive_info_command(activity: &str, payload: &SensitiveInfoOperationPayload) -> (v: JsonValue)
    ensures
        v.doc() == with_activity(sensitive_info_doc(*payload), activity@),
{
    let mut members: Vec<(String, JsonValue)> = Vec::new();
    members.push(text_member("requestId", &payload.request_id));
    members.push((String::from_str("operation"), operation_value(&payload.operation)));
    assert(member_docs(members@) =~= sensitive_info_doc(*payload));
    finish_with_activity(members, activity)
}

} // verus!
