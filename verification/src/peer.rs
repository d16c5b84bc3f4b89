//! The peer's protocol state machine.
//!
//! A peer moves from `Disconnected` to `Connected` when its transport
//! connects, to `Negotiated` when capability negotiation succeeds, and back to
//! `Disconnected` when it disconnects. Logical sessions can be established
//! only once negotiated. The decisions of every step stand here; sending,
//! awaiting and calling the application's handlers are left to the caller.

use vstd::prelude::*;
use vstd::string::*;

use crate::capability::{
    docs, emit_names, lemma_emit_names_intersection, schema_names, texts, Capabilities,
    EffectiveCapabilities,
};
use crate::commands::XacppCommand;
use crate::error::XacppError;
use crate::events::activity_event::XacppActivityEvent;
use crate::message::{XacppRequest, XacppResponse};
use crate::table::{lemma_stored_in_turn, stored_in_turn, KeyedTable};

verus! {

broadcast use vstd::seq_lib::group_seq_properties, vstd::seq::group_seq_axioms;

/// Protocol state of a peer.
#[derive(Debug, Clone, Copy, PartialEq, Eq, Structural)]
pub enum PeerState {
    /// Not connected, or connection closed.
    Disconnected,
    /// Channel established, negotiation pending.
    Connected,
    /// Capabilities negotiated; logical sessions can be created.
    Negotiated,
}

impl PeerState {
    /// The name of a state, as diagnostics print it.
    pub open spec fn spec_label(self) -> Seq<char> {
        match self {
            PeerState::Disconnected => "Disconnected"@,
            PeerState::Connected => "Connected"@,
            PeerState::Negotiated => "Negotiated"@,
        }
    }

    /// The name of a state, as diagnostics print it.
    pub fn label(&self) -> (r: &'static str)
        ensures
            r@ == self.spec_label(),
    {
        match self {
            PeerState::Disconnected => "Disconnected",
            PeerState::Connected => "Connected",
            PeerState::Negotiated => "Negotiated",
        }
    }
}

/// The text of the error for an operation attempted in the wrong state.
pub open spec fn wrong_state_text(operation: Seq<char>, wanted: PeerState, current: PeerState) -> Seq<char> {
    operation + " requires "@ + wanted.spec_label() + " state, current: "@ + current.spec_label()
}

/// The text of the error for an event that negotiation does not allow.
pub open spec fn emit_refused_text(name: Seq<char>) -> Seq<char> {
    "event '"@ + name + "' not in negotiated emit_events capability"@
}

/// Rendering of a response in diagnostics (its `Debug` text).
pub uninterp spec fn response_debug_text(response: XacppResponse) -> Seq<char>;

/// The `Debug` rendering of a response.
///
/// Calls `format!` with the response's derived `Debug`; the contract names
/// the text it gives rather than stating it.
#[verifier::external_body]
fn response_debug(response: &XacppResponse) -> (s: String)
    ensures
        s@ == response_debug_text(*response),
{
    format!("{:?}", response)
}

/// The error for a response that does not fit the step awaiting it.
///
/// The text ends in the response's `Debug` rendering, in which JSON payloads
/// show in the library's own `JsonValue` form (for example
/// `Object([("a", Number("1"))])`).
fn unexpected_response(context: &str, response: &XacppResponse) -> (e: XacppError)
    ensures
        e matches XacppError::Internal(text) && text@ == "unexpected response to "@ + context@ + ": "@
            + response_debug_text(*response),
{
    let text = String::from_str("unexpected response to ").concat(context).concat(": ").concat(
        response_debug(response).as_str(),
    );
    XacppError::Internal(text)
}

fn wrong_state(operation: &str, wanted: PeerState, current: PeerState) -> (e: XacppError)
    ensures
        e matches XacppError::Internal(text) && text@ == wrong_state_text(operation@, wanted, current),
{
    let text = operation.to_string().concat(" requires ").concat(wanted.label()).concat(
        " state, current: ",
    ).concat(current.label());
    XacppError::Internal(text)
}

/// What an Establish exchange led to.
#[derive(Debug)]
pub enum EstablishStep {
    /// The session exists: its id and the issued credentials.
    Established { session_id: String, credentials: String },
    /// The responder asks the initiator to answer a challenge first.
    Challenge { challenge: String },
    /// The handshake failed.
    Failed(XacppError),
}

/// Where an inbound request goes, on the responding side.
#[derive(Debug)]
pub enum InboundRoute {
    /// A pre-session Negotiate with the remote capabilities.
    Negotiate(Capabilities),
    /// A pre-session Establish with the offered credentials.
    Establish(Option<String>),
    /// A pre-session Establish confirmation.
    EstablishConfirm,
    /// A command for the handler of a session.
    Command { session_id: String, command: XacppCommand },
    /// An event for the handler of a session.
    Event { session_id: String, event: XacppActivityEvent },
    /// The request is refused with this error.
    Refuse(XacppError),
}

/// The route of an inbound request: requests without a session id are
/// protocol commands (anything else is refused), requests with one go to
/// that session's handler.
pub fn route_inbound(session_id: Option<String>, payload: XacppRequest) -> (r: InboundRoute)
    ensures
        match (session_id, payload) {
            (None, XacppRequest::Command(XacppCommand::Negotiate { capabilities })) => r == InboundRoute::Negotiate(capabilities),
            (None, XacppRequest::Command(XacppCommand::Establish { credentials })) => r == InboundRoute::Establish(credentials),
            (None, XacppRequest::Command(XacppCommand::EstablishConfirm)) => r == InboundRoute::EstablishConfirm,
            (None, _) => r matches InboundRoute::Refuse(XacppError::InvalidRequest(text)) && text@ == "missing session_id"@,
            (Some(sid), XacppRequest::Command(command)) => r == (InboundRoute::Command { session_id: sid, command }),
            (Some(sid), XacppRequest::Event(event)) => r == (InboundRoute::Event { session_id: sid, event }),
        },
{
    match (session_id, payload) {
        (None, XacppRequest::Command(XacppCommand::Negotiate { capabilities })) => InboundRoute::Negotiate(capabilities),
        (None, XacppRequest::Command(XacppCommand::Establish { credentials })) => InboundRoute::Establish(credentials),
        (None, XacppRequest::Command(XacppCommand::EstablishConfirm)) => InboundRoute::EstablishConfirm,
        (None, _) => InboundRoute::Refuse(XacppError::InvalidRequest(String::from_str("missing session_id"))),
        (Some(sid), XacppRequest::Command(command)) => InboundRoute::Command { session_id: sid, command },
        (Some(sid), XacppRequest::Event(event)) => InboundRoute::Event { session_id: sid, event },
    }
}

/// The responder's side of Negotiate: the effective capabilities of `local`
/// towards the initiator, and the answer, which carries `local`'s capabilities.
pub fn answer_negotiate(local: &Capabilities, remote: &Capabilities) -> (r: (EffectiveCapabilities, XacppResponse))
    ensures
        docs(r.0.remote_commands@) == docs(remote.commands@),
        texts(r.0.emit_events@) == emit_names(local, remote),
        r.1 matches XacppResponse::Negotiated { capabilities } && docs(capabilities.commands@) == docs(
            local.commands@,
        ) && docs(capabilities.produce_events@) == docs(local.produce_events@) && docs(
            capabilities.accept_events@,
        ) == docs(local.accept_events@),
{
    let effective = EffectiveCapabilities::from_capabilities(local, remote);
    (effective, XacppResponse::Negotiated { capabilities: local.copy() })
}

/// The handler routed to a session, or the error for an unknown session.
pub fn session_route<'a, H>(sessions: &'a KeyedTable<H>, session_id: &String) -> (r: Result<&'a H, XacppError>)
    ensures
        match r {
            Ok(h) => sessions@.contains_key(session_id@) && sessions@[session_id@] == *h,
            Err(e) => !sessions@.contains_key(session_id@) && (e matches XacppError::Internal(text)
                && text@ == "unknown session: "@ + session_id@),
        },
{
    match sessions.get(session_id) {
        Some(h) => Ok(h),
        None => Err(XacppError::Internal(String::from_str("unknown session: ").concat(session_id.as_str()))),
    }
}

/// What the responder's application decides about an Establish request.
pub enum EstablishDecision<H> {
    /// Ask the initiator to answer a challenge first.
    ChallengeRequired { challenge: String },
    /// The session exists: its id, the handler of its requests and the
    /// credentials issued to the initiator.
    Established { session_id: String, handler: H, credentials: String },
}

/// Registers `handler` for the session `session_id` and answers that the
/// session is established with `credentials`.
pub fn register_session<H>(sessions: &mut KeyedTable<H>, session_id: String, handler: H, credentials: String) -> (r: XacppResponse)
    ensures
        final(sessions)@ == old(sessions)@.insert(session_id@, handler),
        r matches XacppResponse::Established { session_id: sid, credentials: c } && sid@ == session_id@
            && c == credentials,
{
    let sid = session_id.clone();
    sessions.insert(session_id, handler);
    XacppResponse::Established { session_id: sid, credentials }
}

/// The responder's answer to an Establish request, from its application's
/// decision: a challenge is passed on and registers nothing; an established
/// session is registered under its id and answered with its credentials.
pub fn apply_establish_decision<H>(sessions: &mut KeyedTable<H>, decision: EstablishDecision<H>) -> (r: XacppResponse)
    ensures
        match decision {
            EstablishDecision::ChallengeRequired { challenge } => r == (XacppResponse::EstablishPrepare { challenge })
                && final(sessions)@ == old(sessions)@,
            EstablishDecision::Established { session_id, handler, credentials } => (r matches XacppResponse::Established {
                session_id: sid,
                credentials: c,
            } && sid@ == session_id@ && c == credentials) && final(sessions)@ == old(sessions)@.insert(
                session_id@,
                handler,
            ),
        },
{
    match decision {
        EstablishDecision::ChallengeRequired { challenge } => XacppResponse::EstablishPrepare { challenge },
        EstablishDecision::Established { session_id, handler, credentials } => register_session(
            sessions,
            session_id,
            handler,
            credentials,
        ),
    }
}

/// Sessions established one after another under distinct ids each route to
/// their own handler, and closing one leaves the others routed as before.
pub proof fn lemma_sessions_route_to_own_handler<H>(
    before: Map<Seq<char>, H>,
    established: Seq<(Seq<char>, H)>,
    i: int,
    j: int,
)
    requires
        forall|a: int, b: int|
            0 <= a < established.len() && 0 <= b < established.len() && a != b ==> established[a].0
                != established[b].0,
        0 <= i < established.len(),
        0 <= j < established.len(),
    ensures
        stored_in_turn(before, established).contains_key(established[i].0),
        stored_in_turn(before, established)[established[i].0] == established[i].1,
        i != j ==> stored_in_turn(before, established).remove(established[j].0).contains_key(established[i].0),
        i != j ==> stored_in_turn(before, established).remove(established[j].0)[established[i].0] == established[i].1,
{
    lemma_stored_in_turn(before, established, i, j);
}

/// After negotiation, an event passes the emission check exactly when the
/// local side produces it and the remote side accepts it.
pub proof fn lemma_emit_check_after_negotiation(
    core: &PeerCore,
    local: &Capabilities,
    remote: &Capabilities,
    name: Seq<char>,
)
    requires
        core.state == PeerState::Negotiated,
        texts(core.emit_events@) == emit_names(local, remote),
    ensures
        core.may_emit(name) <==> (schema_names(docs(local.produce_events@)).contains(name)
            && schema_names(docs(remote.accept_events@)).contains(name)),
{
    lemma_emit_names_intersection(local, remote, name);
}

/// The protocol state of a peer: its state, the capabilities the remote side
/// declared, and the names of the events it may send.
#[derive(Debug)]
pub struct PeerCore {
    pub state: PeerState,
    pub remote_capabilities: Capabilities,
    /// Negotiated `local.produce_events ∩ remote.accept_events`.
    pub emit_events: Vec<String>,
}

impl PeerCore {
    /// Until it has negotiated, a peer holds no remote capabilities and no
    /// events to emit; every operation below keeps this.
    pub open spec fn consistent(&self) -> bool {
        self.state != PeerState::Negotiated ==> {
            &&& self.remote_capabilities.commands@.len() == 0
            &&& self.remote_capabilities.produce_events@.len() == 0
            &&& self.remote_capabilities.accept_events@.len() == 0
            &&& self.emit_events@.len() == 0
        }
    }

    /// Whether an event named `name` may be sent: once negotiated, only the
    /// negotiated events may; before, nothing restricts emission.
    pub open spec fn may_emit(&self, name: Seq<char>) -> bool {
        self.state != PeerState::Negotiated || texts(self.emit_events@).contains(name)
    }

    /// A disconnected peer that has negotiated nothing.
    pub fn new() -> (p: Self)
        ensures
            p.consistent(),
            p.state == PeerState::Disconnected,
            p.remote_capabilities.commands@.len() == 0,
            p.remote_capabilities.produce_events@.len() == 0,
            p.remote_capabilities.accept_events@.len() == 0,
            p.emit_events@.len() == 0,
    {
        PeerCore { state: PeerState::Disconnected, remote_capabilities: Capabilities::empty(), emit_events: Vec::new() }
    }

    /// The transport connected: a disconnected peer becomes connected; any
    /// other state stays.
    pub fn mark_connected(&mut self)
        ensures
            final(self).state == (if old(self).state == PeerState::Disconnected {
                PeerState::Connected
            } else {
                old(self).state
            }),
            final(self).remote_capabilities == old(self).remote_capabilities,
            final(self).emit_events == old(self).emit_events,
            old(self).consistent() ==> final(self).consistent(),
    {
        if self.state == PeerState::Disconnected {
            self.state = PeerState::Connected;
        }
    }

    /// Negotiate may start only from `Connected`.
    pub fn begin_negotiate(&self) -> (r: Result<(), XacppError>)
        ensures
            r is Ok <==> self.state == PeerState::Connected,
            r matches Err(e) ==> e matches XacppError::Internal(text) && text@ == wrong_state_text(
                "negotiate"@,
                PeerState::Connected,
                self.state,
            ),
    {
        if self.state == PeerState::Connected {
            Ok(())
        } else {
            Err(wrong_state("negotiate", PeerState::Connected, self.state))
        }
    }

    /// The outcome of the answer to our Negotiate: the remote capabilities and
    /// the effective capabilities towards them, or the error the answer carries.
    pub fn negotiate_outcome(local: &Capabilities, response: XacppResponse) -> (r: Result<
        (Capabilities, EffectiveCapabilities),
        XacppError,
    >)
        ensures
            match response {
                XacppResponse::Negotiated { capabilities } => r matches Ok((remote, effective))
                    && remote == capabilities && docs(effective.remote_commands@) == docs(
                    capabilities.commands@,
                ) && texts(effective.emit_events@) == emit_names(local, &capabilities),
                XacppResponse::Error { code, message } => r == Err::<(Capabilities, EffectiveCapabilities), XacppError>(
                    XacppError::Application { code, message },
                ),
                _ => r matches Err(XacppError::Internal(text)) && text@ == "unexpected response to "@
                    + "negotiate"@ + ": "@ + response_debug_text(response),
            },
    {
        match response {
            XacppResponse::Negotiated { capabilities } => {
                let effective = EffectiveCapabilities::from_capabilities(local, &capabilities);
                Ok((capabilities, effective))
            },
            XacppResponse::Error { code, message } => Err(XacppError::Application { code, message }),
            other => Err(unexpected_response("negotiate", &other)),
        }
    }

    /// Negotiation succeeded: keep the remote capabilities and the events we
    /// may send, and become `Negotiated`.
    pub fn complete_negotiate(&mut self, remote: Capabilities, emit_events: Vec<String>)
        ensures
            final(self).consistent(),
            final(self).state == PeerState::Negotiated,
            final(self).remote_capabilities == remote,
            final(self).emit_events == emit_events,
    {
        self.remote_capabilities = remote;
        self.emit_events = emit_events;
        self.state = PeerState::Negotiated;
    }

    /// Establish may start only from `Negotiated`.
    pub fn begin_establish(&self) -> (r: Result<(), XacppError>)
        ensures
            r is Ok <==> self.state == PeerState::Negotiated,
            r matches Err(e) ==> e matches XacppError::Internal(text) && text@ == wrong_state_text(
                "establish"@,
                PeerState::Negotiated,
                self.state,
            ),
    {
        if self.state == PeerState::Negotiated {
            Ok(())
        } else {
            Err(wrong_state("establish", PeerState::Negotiated, self.state))
        }
    }

    /// The next step after the answer to our Establish.
    pub fn establish_outcome(response: XacppResponse) -> (r: EstablishStep)
        ensures
            match response {
                XacppResponse::Established { session_id, credentials } => r == (EstablishStep::Established { session_id, credentials }),
                XacppResponse::EstablishPrepare { challenge } => r == (EstablishStep::Challenge { challenge }),
                XacppResponse::EstablishReject { reason } => r == EstablishStep::Failed(XacppError::EstablishReject { reason }),
                XacppResponse::Error { code, message } => r == EstablishStep::Failed(XacppError::Application { code, message }),
                _ => r matches EstablishStep::Failed(XacppError::Internal(text)) && text@ == "unexpected response to "@
                    + "establish"@ + ": "@ + response_debug_text(response),
            },
    {
        match response {
            XacppResponse::Established { session_id, credentials } => EstablishStep::Established { session_id, credentials },
            XacppResponse::EstablishPrepare { challenge } => EstablishStep::Challenge { challenge },
            XacppResponse::EstablishReject { reason } => EstablishStep::Failed(XacppError::EstablishReject { reason }),
            XacppResponse::Error { code, message } => EstablishStep::Failed(XacppError::Application { code, message }),
            other => EstablishStep::Failed(unexpected_response("establish", &other)),
        }
    }

    /// The session after the answer to our Establish confirmation.
    pub fn confirm_outcome(response: XacppResponse) -> (r: Result<(String, String), XacppError>)
        ensures
            match response {
                XacppResponse::Established { session_id, credentials } => r == Ok::<(String, String), XacppError>((session_id, credentials)),
                XacppResponse::EstablishReject { reason } => r == Err::<(String, String), XacppError>(XacppError::EstablishReject { reason }),
                XacppResponse::Error { code, message } => r == Err::<(String, String), XacppError>(XacppError::Application { code, message }),
                _ => r matches Err(XacppError::Internal(text)) && text@ == "unexpected response to "@
                    + "establish_confirm"@ + ": "@ + response_debug_text(response),
            },
    {
        match response {
            XacppResponse::Established { session_id, credentials } => Ok((session_id, credentials)),
            XacppResponse::EstablishReject { reason } => Err(XacppError::EstablishReject { reason }),
            XacppResponse::Error { code, message } => Err(XacppError::Application { code, message }),
            other => Err(unexpected_response("establish_confirm", &other)),
        }
    }

    /// The peer disconnected: it forgets the remote capabilities and the
    /// events it may send, and becomes `Disconnected`.
    pub fn reset(&mut self)
        ensures
            final(self).consistent(),
            final(self).state == PeerState::Disconnected,
            final(self).remote_capabilities.commands@.len() == 0,
            final(self).remote_capabilities.produce_events@.len() == 0,
            final(self).remote_capabilities.accept_events@.len() == 0,
            final(self).emit_events@.len() == 0,
    {
        self.state = PeerState::Disconnected;
        self.remote_capabilities = Capabilities::empty();
        self.emit_events = Vec::new();
    }

    /// An event may be sent when its name is among the negotiated events; a
    /// peer that has not negotiated is not restricted.
    pub fn check_emit(&self, name: &String) -> (r: Result<(), XacppError>)
        ensures
            r is Ok <==> self.may_emit(name@),
            r matches Err(e) ==> e matches XacppError::Internal(text) && text@ == emit_refused_text(name@),
    {
        if self.state != PeerState::Negotiated {
            return Ok(());
        }
        let mut i: usize = 0;
        while i < self.emit_events.len()
            invariant
                i <= self.emit_events@.len(),
                forall|j: int| 0 <= j < i ==> self.emit_events@[j]@ != name@,
            decreases self.emit_events@.len() - i,
        {
            if self.emit_events[i] == *name {
                assert(texts(self.emit_events@)[i as int] == name@);
                return Ok(());
            }
            i = i + 1;
        }
        assert forall|j: int| 0 <= j < texts(self.emit_events@).len() implies texts(self.emit_events@)[j] != name@ by {
            assert(texts(self.emit_events@)[j] == self.emit_events@[j]@);
        }
        let text = String::from_str("event '").concat(name.as_str()).concat("' not in negotiated emit_events capability");
        Err(XacppError::Internal(text))
    }
}

} // verus!
