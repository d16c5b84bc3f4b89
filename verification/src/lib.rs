//! XACPP — Agent Control Plane Protocol, verified core.
//!
//! The protocol's types, its capability negotiation, the typed command
//! declaration, the peer's protocol state machine and the transport's
//! request bookkeeping. Byte streams, tasks and JSON text live outside.

pub mod activity_ref;
pub mod capability;
pub mod commands;
pub mod declaration;
pub mod error;
pub mod events;
pub mod json;
pub mod message;
pub mod peer;
pub mod table;
pub mod transport;
