//! The generic event.
//!
//! Events are one-way notifications: the transport acknowledges receipt, but
//! the sender does not wait for a meaningful answer. `name` identifies the
//! event type; `data` carries its payload.

use vstd::prelude::*;

use crate::json::JsonValue;

verus! {

/// Protocol event (generic).
#[derive(Debug)]
pub struct XacppEvent {
    /// Event type (e.g. "content_delta", "tool_use", "complete").
    pub name: String,
    /// Event payload.
    pub data: JsonValue,
}

impl XacppEvent {
    /// An event of type `name` carrying `data`.
    pub fn new(name: String, data: JsonValue) -> (r: Self)
        ensures
            r == (XacppEvent { name, data }),
    {
        XacppEvent { name, data }
    }
}

} // verus!
