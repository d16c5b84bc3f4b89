//! Error type shared by every layer of the protocol.
//!
//! On the wire an error travels as `XacppResponse::Error { code, message }`;
//! `code` and `to_string` give exactly those two strings.

use vstd::prelude::*;
use vstd::string::*;

verus! {

/// Protocol error.
#[derive(Debug, Clone)]
pub enum XacppError {
    /// No connection established when performing an operation.
    NotConnected,
    /// Duplicate connection.
    AlreadyConnected,
    /// Connection interrupted.
    Closed,
    /// No handler registered for the request type.
    NoHandler,
    /// Request payload cannot be processed.
    InvalidRequest(String),
    /// Handshake rejected.
    EstablishReject { reason: String },
    /// Internal handler error.
    Internal(String),
    /// Application-defined error.
    Application { code: String, message: String },
}

impl XacppError {
    /// The machine-readable code of an error.
    pub open spec fn spec_code(self) -> Seq<char> {
        match self {
            XacppError::NotConnected => "not_connected"@,
            XacppError::AlreadyConnected => "already_connected"@,
            XacppError::Closed => "closed"@,
            XacppError::NoHandler => "no_handler"@,
            XacppError::InvalidRequest(_) => "invalid_request"@,
            XacppError::EstablishReject { .. } => "establish_rejected"@,
            XacppError::Internal(_) => "internal_error"@,
            XacppError::Application { code, .. } => code@,
        }
    }

    /// The human-readable description of an error.
    pub open spec fn spec_message(self) -> Seq<char> {
        match self {
            XacppError::NotConnected => "not connected"@,
            XacppError::AlreadyConnected => "already connected"@,
            XacppError::Closed => "connection closed"@,
            XacppError::NoHandler => "no handler registered"@,
            XacppError::InvalidRequest(s) => "invalid request: "@ + s@,
            XacppError::EstablishReject { reason } => "establish rejected: "@ + reason@,
            XacppError::Internal(s) => "internal error: "@ + s@,
            XacppError::Application { code, message } => "["@ + code@ + "] "@ + message@,
        }
    }

    /// Machine-readable error code.
    pub fn code(&self) -> (c: &str)
        ensures
            c@ == self.spec_code(),
    {
        match self {
            XacppError::NotConnected => "not_connected",
            XacppError::AlreadyConnected => "already_connected",
            XacppError::Closed => "closed",
            XacppError::NoHandler => "no_handler",
            XacppError::InvalidRequest(_) => "invalid_request",
            XacppError::EstablishReject { .. } => "establish_rejected",
            XacppError::Internal(_) => "internal_error",
            XacppError::Application { code, .. } => code.as_str(),
        }
    }

    /// Human-readable description, as carried in the `message` of an error response.
    pub fn to_string(&self) -> (s: String)
        ensures
            s@ == self.spec_message(),
    {
        match self {
            XacppError::NotConnected => String::from_str("not connected"),
            XacppError::AlreadyConnected => String::from_str("already connected"),
            XacppError::Closed => String::from_str("connection closed"),
            XacppError::NoHandler => String::from_str("no handler registered"),
            XacppError::InvalidRequest(s) => String::from_str("invalid request: ").concat(s.as_str()),
            XacppError::EstablishReject { reason } => String::from_str("establish rejected: ").concat(
                reason.as_str(),
            ),
            XacppError::Internal(s) => String::from_str("internal error: ").concat(s.as_str()),
            XacppError::Application { code, message } => {
                let head = String::from_str("[").concat(code.as_str()).concat("] ");
                head.concat(message.as_str())
            },
        }
    }
}

} // verus!
