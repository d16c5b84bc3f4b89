//! Protocol events.
//!
//! `XacppEvent` is a generic `{ name, data }` structure; the payload types in
//! the submodules describe common `data` shapes.

pub mod activity_event;
pub mod content;
pub mod interaction;
pub mod payload;
pub mod upload;
pub mod xacpp_event;

pub use activity_event::XacppActivityEvent;
pub use content::{AudioPart, ContentPart, FileRef, ImagePart, TextPart, VideoPart};
pub use interaction::{
    ActionRequestPayload, ActionResponse, NotifyPayload, QuestionPayload, QuestionResponse,
    SensitiveInfoItem, SensitiveInfoOperation, SensitiveInfoOperationPayload,
    SensitiveInfoOperationResponse, SensitiveInfoResult, SensitiveInfoType,
};
pub use payload::{
    ActivityInfo, ActivityStartEvent, AlertLevel, ContentDeltaEvent, ContentPartEvent,
    SecurityAlertEvent, ToolResultEvent, ToolUseEvent, TraceableEvent,
};
pub use upload::{TokenUsage, UploadEvent};
pub use xacpp_event::XacppEvent;
