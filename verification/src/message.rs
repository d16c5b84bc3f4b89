//! Protocol messages.
//!
//! Every wire message is an `XacppEnvelope`: a `type` (request or response),
//! an `id` that correlates a response with its request, an optional session id,
//! and a payload (`XacppRequest` or `XacppResponse`).
//!
//! Protocol responses (negotiated, established, establish prepare, establish
//! reject) are handled by the peer while a session is set up; business
//! responses use `Generic { name, data }`.

use vstd::prelude::*;
use vstd::string::*;

use crate::capability::Capabilities;
use crate::commands::XacppCommand;
use crate::events::activity_event::XacppActivityEvent;
use crate::json::{Json, JsonValue};

verus! {

/// Request payload.
#[derive(Debug)]
pub enum XacppRequest {
    /// Protocol or business command.
    Command(XacppCommand),
    /// Activity event (one-way notification).
    Event(XacppActivityEvent),
}

/// Response payload.
#[derive(Debug)]
pub enum XacppResponse {
    /// Capability negotiation response.
    Negotiated { capabilities: Capabilities },
    /// Handshake succeeded: session identifier and issued credentials.
    Established { session_id: String, credentials: String },
    /// Challenge issued during a first-time establishment.
    EstablishPrepare { challenge: String },
    /// Handshake rejected.
    EstablishReject { reason: String },
    /// Generic business response: `name` identifies it, `data` carries its payload.
    Generic { name: String, data: JsonValue },
    /// Processing failed.
    Error { code: String, message: String },
}

/// Wire message.
#[derive(Debug)]
pub enum XacppEnvelope {
    Request { id: String, session_id: Option<String>, payload: XacppRequest },
    Response { id: String, session_id: Option<String>, payload: XacppResponse },
}

impl XacppResponse {
    /// The generic acknowledge response: name `acknowledge`, `null` data.
    pub fn acknowledge() -> (r: Self)
        ensures
            r matches XacppResponse::Generic { name, data } && name@ == "acknowledge"@ && data.doc()
                == Json::Null,
    {
        XacppResponse::Generic { name: String::from_str("acknowledge"), data: JsonValue::Null }
    }

    /// The generic response that no activity was found: name
    /// `activity_not_found`, `null` data.
    pub fn activity_not_found() -> (r: Self)
        ensures
            r matches XacppResponse::Generic { name, data } && name@ == "activity_not_found"@
                && data.doc() == Json::Null,
    {
        XacppResponse::Generic { name: String::from_str("activity_not_found"), data: JsonValue::Null }
    }

    /// A generic response with a name and data.
    pub fn generic(name: String, data: JsonValue) -> (r: Self)
        ensures
            r == (XacppResponse::Generic { name, data }),
    {
        XacppResponse::Generic { name, data }
    }

    /// An error response.
    pub fn error(code: String, message: String) -> (r: Self)
        ensures
            r == (XacppResponse::Error { code, message }),
    {
        XacppResponse::Error { code, message }
    }
}

} // verus!
