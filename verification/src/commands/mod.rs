//! Protocol commands.
//!
//! Commands are request-response: the sender always expects a response.
//! Protocol commands (negotiate, establish, establish confirm) have their own
//! variants; business commands use `Generic`.

pub mod lifecycle;

pub use lifecycle::{
    AvailableActivities, CancelActivityPayload, CompactActivityPayload, InvokeActivityPayload,
    LastActivityPayload, ListActivityPayload, NewActivityPayload, SwitchActivityPayload,
};

use vstd::prelude::*;

use crate::activity_ref::ActivityRef;
use crate::capability::Capabilities;
use crate::json::JsonValue;

verus! {

/// Protocol command.
#[derive(Debug)]
pub enum XacppCommand {
    /// Negotiate capabilities (must precede Establish).
    Negotiate { capabilities: Capabilities },
    /// Establish a logical session.
    Establish { credentials: Option<String> },
    /// Confirm establishment after challenge verification.
    EstablishConfirm,
    /// Generic business command: `name` identifies it, `arguments` carries its payload.
    Generic {
        name: String,
        arguments: JsonValue,
        /// Activity the command originates from, if any.
        activity: Option<ActivityRef>,
    },
}

impl XacppCommand {
    /// The name of a command, for capability matching: the variant name of a
    /// protocol command, the `name` of a generic one.
    pub open spec fn spec_name(&self) -> Seq<char> {
        match self {
            XacppCommand::Negotiate { .. } => "negotiate"@,
            XacppCommand::Establish { .. } => "establish"@,
            XacppCommand::EstablishConfirm => "establish_confirm"@,
            XacppCommand::Generic { name, .. } => name@,
        }
    }

    /// A generic business command without an activity reference.
    pub fn generic(name: String, arguments: JsonValue) -> (r: Self)
        ensures
            r == (XacppCommand::Generic { name, arguments, activity: None }),
    {
        XacppCommand::Generic { name, arguments, activity: None }
    }

    /// A generic business command with an activity reference.
    pub fn generic_with_activity(name: String, arguments: JsonValue, activity: ActivityRef) -> (r: Self)
        ensures
            r == (XacppCommand::Generic { name, arguments, activity: Some(activity) }),
    {
        XacppCommand::Generic { name, arguments, activity: Some(activity) }
    }

    /// The command name used for capability matching.
    pub fn name(&self) -> (r: &str)
        ensures
            r@ == self.spec_name(),
    {
        match self {
            XacppCommand::Negotiate { .. } => "negotiate",
            XacppCommand::Establish { .. } => "establish",
            XacppCommand::EstablishConfirm => "establish_confirm",
            XacppCommand::Generic { name, .. } => name.as_str(),
        }
    }
}

} // verus!
