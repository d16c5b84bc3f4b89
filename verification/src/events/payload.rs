//! Event payloads.

use vstd::prelude::*;

use super::content::ContentPart;

verus! {

/// `content_part` event payload.
#[derive(Debug, Clone)]
pub struct ContentPartEvent {
    /// Identifier of one engine run.
    pub round: String,
    /// Identifier of one loop iteration.
    pub pair: String,
    /// The content part.
    pub payload: ContentPart,
}

/// `content_delta` event payload.
#[derive(Debug, Clone)]
pub struct ContentDeltaEvent {
    /// Identifier of one engine run.
    pub round: String,
    /// Identifier of one loop iteration.
    pub pair: String,
    /// The content delta.
    pub payload: ContentPart,
}

/// Traceable event payload (shared by info / warn / error).
#[derive(Debug, Clone)]
pub struct TraceableEvent {
    /// Main sentence for the user (required).
    pub title: String,
    /// Extended details (empty when absent).
    pub content: String,
}

/// Alert level of an authorization request.
#[derive(Debug, Clone, Copy, Default, PartialEq, Eq)]
pub enum AlertLevel {
    #[default]
    Info,
    Warn,
    Critical,
}

/// `tool_use` event payload (a tool call started).
#[derive(Debug, Clone)]
pub struct ToolUseEvent {
    /// Tool request id.
    pub request_id: String,
    /// Tool name.
    pub tool_name: String,
    /// Tool call sequence number.
    pub index: u32,
    /// Readable summary of the arguments (may be truncated).
    pub arguments: String,
}

/// `tool_result` event payload (a tool call finished).
#[derive(Debug, Clone)]
pub struct ToolResultEvent {
    /// Tool request id.
    pub request_id: String,
    /// Tool name.
    pub tool_name: String,
    /// Tool call sequence number.
    pub index: u32,
    /// Result content (empty when absent).
    pub parts: Vec<ContentPart>,
}

/// `security_alert` event payload.
#[derive(Debug, Clone)]
pub struct SecurityAlertEvent {
    /// Event id.
    pub event_id: String,
    /// Associated tool name.
    pub tool_name: String,
    /// Alert level.
    pub alert_level: AlertLevel,
    /// Threat description.
    pub description: String,
    /// Threat type.
    pub threat_type: Option<String>,
    /// Matched attack pattern.
    pub matched_pattern: Option<String>,
    /// Context snippet.
    pub context_snippet: Option<String>,
}

/// `activity_start` event payload (a sub-activity started).
#[derive(Debug, Clone)]
pub struct ActivityStartEvent {
    /// Task goal summary.
    pub goal: String,
    /// Sub-activity id.
    pub activity: String,
    /// Additional metadata.
    pub metadata: Option<std::collections::HashMap<String, String>>,
}

/// Activity metadata shared by commands, responses and events.
#[derive(Debug, Clone)]
pub struct ActivityInfo {
    pub activity: String,
    pub agent: String,
    pub title: Option<String>,
}

} // verus!
