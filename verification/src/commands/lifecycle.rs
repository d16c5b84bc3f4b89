//! Lifecycle command and response payloads.
//!
//! | Command          | arguments                            | response                                          |
//! |------------------|--------------------------------------|---------------------------------------------------|
//! | new_activity     | `{title?}`                           | `activity_ready(ActivityInfo)`                     |
//! | last_activity    | `{}`                                 | `activity_ready(ActivityInfo)` or `activity_not_found` |
//! | switch_activity  | `{activity}`                         | `activity_ready(ActivityInfo)`                     |
//! | list_activity    | `{query?, pageNum?=1, pageSize?=20}` | `available_activities`                             |
//! | invoke_activity  | `{activity, messages}`               | `acknowledge`                                      |
//! | cancel_activity  | `{activity, reason?}`                | `acknowledge`                                      |
//! | compact_activity | `{activity}`                         | `acknowledge`                                      |
//!
//! `activity` in these payloads is the operation target, not the source of the
//! envelope (that is `XacppCommand::Generic::activity`).

use vstd::prelude::*;

use crate::events::content::ContentPart;
use crate::events::payload::ActivityInfo;

verus! {

/// `new_activity` arguments.
#[derive(Debug, Clone, Default)]
pub struct NewActivityPayload {
    /// Title for the new activity.
    pub title: Option<String>,
}

/// `last_activity` arguments (empty).
#[derive(Debug, Clone, Default)]
pub struct LastActivityPayload {}

/// `switch_activity` arguments.
#[derive(Debug, Clone)]
pub struct SwitchActivityPayload {
    /// Target activity.
    pub activity: String,
}

/// `list_activity` arguments.
#[derive(Debug, Clone, Default)]
pub struct ListActivityPayload {
    /// Filter query.
    pub query: Option<String>,
    /// Page number (1 when omitted).
    pub page_num: Option<u32>,
    /// Page size (20 when omitted).
    pub page_size: Option<u32>,
}

/// `invoke_activity` arguments.
#[derive(Debug, Clone)]
pub struct InvokeActivityPayload {
    /// Target activity.
    pub activity: String,
    /// Input messages.
    pub messages: Vec<ContentPart>,
}

/// `cancel_activity` arguments.
#[derive(Debug, Clone)]
pub struct CancelActivityPayload {
    /// Target activity.
    pub activity: String,
    /// Cancellation reason.
    pub reason: Option<String>,
}

/// `compact_activity` arguments.
#[derive(Debug, Clone)]
pub struct CompactActivityPayload {
    /// Target activity.
    pub activity: String,
}

/// `available_activities` response data (answer to `list_activity`).
#[derive(Debug, Clone)]
pub struct AvailableActivities {
    /// Number of activities matching the query.
    pub total: u64,
    /// One page of activities.
    pub activities: Vec<ActivityInfo>,
}

} // verus!
