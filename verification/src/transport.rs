//! The transport's bookkeeping: request ids, the envelope of a request, the
//! answer to an inbound request, the route of an inbound envelope, and the
//! connection life cycle.
//!
//! Reading and writing frames, spawning tasks and waiting on channels are
//! left to the caller; every decision they need stands here.

use vstd::prelude::*;
use vstd::string::*;

use crate::error::XacppError;
use crate::message::{XacppEnvelope, XacppRequest, XacppResponse};
use crate::table::{lemma_stored_in_turn, stored_in_turn};

verus! {

broadcast use vstd::seq_lib::group_seq_properties, vstd::seq::group_seq_axioms;

/// The character of a decimal digit.
pub open spec fn digit_char(d: nat) -> char {
    if d == 0 { '0' }
    else if d == 1 { '1' }
    else if d == 2 { '2' }
    else if d == 3 { '3' }
    else if d == 4 { '4' }
    else if d == 5 { '5' }
    else if d == 6 { '6' }
    else if d == 7 { '7' }
    else if d == 8 { '8' }
    else { '9' }
}

/// The decimal notation of a natural number, without leading zeros.
pub open spec fn decimal(n: nat) -> Seq<char>
    decreases n,
{
    if n < 10 {
        seq![digit_char(n)]
    } else {
        decimal(n / 10).push(digit_char(n % 10))
    }
}

/// The id of the `n`-th request of a transport: `r` followed by `n` in decimal.
pub open spec fn spec_request_id(n: u64) -> Seq<char> {
    "r"@ + decimal(n as nat)
}

fn digit_text(d: u64) -> (s: &'static str)
    requires
        d < 10,
    ensures
        s@ == seq![digit_char(d as nat)],
{
    match d {
        0 => {
            proof { reveal_strlit("0"); }
            "0"
        },
        1 => {
            proof { reveal_strlit("1"); }
            "1"
        },
        2 => {
            proof { reveal_strlit("2"); }
            "2"
        },
        3 => {
            proof { reveal_strlit("3"); }
            "3"
        },
        4 => {
            proof { reveal_strlit("4"); }
            "4"
        },
        5 => {
            proof { reveal_strlit("5"); }
            "5"
        },
        6 => {
            proof { reveal_strlit("6"); }
            "6"
        },
        7 => {
            proof { reveal_strlit("7"); }
            "7"
        },
        8 => {
            proof { reveal_strlit("8"); }
            "8"
        },
        _ => {
            proof { reveal_strlit("9"); }
            "9"
        },
    }
}

/// The decimal notation of `n`.
pub fn decimal_text(n: u64) -> (s: String)
    ensures
        s@ == decimal(n as nat),
    decreases n,
{
    if n < 10 {
        digit_text(n).to_string()
    } else {
        let head = decimal_text(n / 10);
        head.concat(digit_text(n % 10))
    }
}

/// The id of the `n`-th request of a transport.
pub fn request_id(n: u64) -> (id: String)
    ensures
        id@ == spec_request_id(n),
{
    String::from_str("r").concat(decimal_text(n).as_str())
}

/// A decimal notation has at least one digit, and two from ten on.
pub proof fn lemma_decimal_len(n: nat)
    ensures
        decimal(n).len() >= 1,
        n >= 10 ==> decimal(n).len() >= 2,
    decreases n,
{
    if n >= 10 {
        lemma_decimal_len(n / 10);
    }
}

proof fn lemma_digit_injective(x: nat, y: nat)
    requires
        x < 10,
        y < 10,
        digit_char(x) == digit_char(y),
    ensures
        x == y,
{
}

/// Different numbers have different decimal notations.
pub proof fn lemma_decimal_injective(a: nat, b: nat)
    requires
        decimal(a) == decimal(b),
    ensures
        a == b,
    decreases a,
{
    lemma_decimal_len(a);
    lemma_decimal_len(b);
    if a >= 10 && b >= 10 {
        assert(decimal(a).last() == digit_char(a % 10));
        assert(decimal(b).last() == digit_char(b % 10));
        assert(decimal(a / 10) =~= decimal(a).drop_last());
        assert(decimal(b / 10) =~= decimal(b).drop_last());
        lemma_decimal_injective(a / 10, b / 10);
        lemma_digit_injective(a % 10, b % 10);
        assert(a == (a / 10) * 10 + a % 10);
        assert(b == (b / 10) * 10 + b % 10);
    } else if a < 10 && b < 10 {
        assert(decimal(a)[0] == digit_char(a));
        assert(decimal(b)[0] == digit_char(b));
        lemma_digit_injective(a, b);
    }
}

/// Requests numbered differently get different ids, so a response is matched
/// to one request only.
pub proof fn lemma_request_ids_distinct(a: u64, b: u64)
    requires
        a != b,
    ensures
        spec_request_id(a) != spec_request_id(b),
{
    reveal_strlit("r");
    if spec_request_id(a) == spec_request_id(b) {
        assert(decimal(a as nat) =~= spec_request_id(a).drop_first());
        assert(decimal(b as nat) =~= spec_request_id(b).drop_first());
        lemma_decimal_injective(a as nat, b as nat);
    }
}

/// The pending table once each of several requests in flight at once has
/// registered its waiter under the id of its number.
pub open spec fn waiting_for<V>(pending: Map<Seq<char>, V>, sends: Seq<(u64, V)>) -> Map<Seq<char>, V> {
    stored_in_turn(pending, sends.map_values(|s: (u64, V)| (spec_request_id(s.0), s.1)))
}

/// Requests in flight at once, numbered differently, each get the response
/// sent under their own id: the response to request `i` reaches `i`'s waiter,
/// and delivering the response to another request `j` leaves `i`'s waiter in
/// place, so no response is lost, duplicated or swapped between callers.
pub proof fn lemma_each_reply_reaches_its_request<V>(pending: Map<Seq<char>, V>, sends: Seq<(u64, V)>, i: int, j: int)
    requires
        forall|a: int, b: int| 0 <= a < sends.len() && 0 <= b < sends.len() && a != b ==> sends[a].0 != sends[b].0,
        0 <= i < sends.len(),
        0 <= j < sends.len(),
    ensures
        waiting_for(pending, sends).contains_key(spec_request_id(sends[i].0)),
        waiting_for(pending, sends)[spec_request_id(sends[i].0)] == sends[i].1,
        i != j ==> spec_request_id(sends[i].0) != spec_request_id(sends[j].0),
        i != j ==> waiting_for(pending, sends).remove(spec_request_id(sends[j].0)).contains_key(
            spec_request_id(sends[i].0),
        ),
        i != j ==> waiting_for(pending, sends).remove(spec_request_id(sends[j].0))[spec_request_id(sends[i].0)]
            == sends[i].1,
{
    let entries = sends.map_values(|s: (u64, V)| (spec_request_id(s.0), s.1));
    assert forall|a: int, b: int|
        0 <= a < entries.len() && 0 <= b < entries.len() && a != b implies entries[a].0 != entries[b].0 by {
        lemma_request_ids_distinct(sends[a].0, sends[b].0);
    }
    assert(entries[i] == (spec_request_id(sends[i].0), sends[i].1));
    assert(entries[j] == (spec_request_id(sends[j].0), sends[j].1));
    lemma_stored_in_turn(pending, entries, i, j);
    if i != j {
        lemma_request_ids_distinct(sends[i].0, sends[j].0);
    }
}

/// The number of the `k`-th request that a counter starting at `start` hands
/// out: numbers count up and wrap round after `u64::MAX`.
pub open spec fn issued_number(start: u64, k: nat) -> u64 {
    ((start + k) % 0x1_0000_0000_0000_0000) as u64
}

/// Hands out the numbers of a transport's requests in turn, from 1.
pub struct RequestCounter {
    next: u64,
}

impl RequestCounter {
    /// The number the next request gets.
    pub closed spec fn upcoming(&self) -> u64 {
        self.next
    }

    /// A counter whose first request is number 1.
    pub fn new() -> (c: Self)
        ensures
            c.upcoming() == 1,
    {
        RequestCounter { next: 1 }
    }

    /// The id of the next request; the counter moves on by one.
    pub fn issue(&mut self) -> (id: String)
        ensures
            id@ == spec_request_id(old(self).upcoming()),
            final(self).upcoming() == issued_number(old(self).upcoming(), 1),
    {
        let n = self.next;
        if n == u64::MAX {
            self.next = 0;
        } else {
            self.next = n + 1;
        }
        proof {
            if n == u64::MAX {
                assert((n + 1) % 0x1_0000_0000_0000_0000 == 0) by (nonlinear_arith)
                    requires n == 0xffff_ffff_ffff_ffff;
            } else {
                assert((n + 1) % 0x1_0000_0000_0000_0000 == n + 1) by (nonlinear_arith)
                    requires n < 0xffff_ffff_ffff_ffff;
            }
        }
        request_id(n)
    }
}

/// The numbers a counter hands out before it has gone all the way round are
/// distinct.
pub proof fn lemma_issued_numbers_distinct(start: u64, k: nat, l: nat)
    requires
        k != l,
        k < 0x1_0000_0000_0000_0000,
        l < 0x1_0000_0000_0000_0000,
    ensures
        issued_number(start, k) != issued_number(start, l),
{
    let m: int = 0x1_0000_0000_0000_0000;
    assert(((start + k) % m) != ((start + l) % m)) by (nonlinear_arith)
        requires
            m == 0x1_0000_0000_0000_0000,
            k != l,
            0 <= k < m,
            0 <= l < m,
            0 <= start < m,
    {
        let a: int = start + k;
        let b: int = start + l;
        assert(a % m == (if a < m { a } else { a - m }));
        assert(b % m == (if b < m { b } else { b - m }));
    }
}

/// The sends of several requests in flight at once, as one counter numbers
/// them: the `k`-th send waits with `waiters[k]` under the `k`-th number.
pub open spec fn counted_sends<V>(start: u64, waiters: Seq<V>) -> Seq<(u64, V)> {
    Seq::new(waiters.len(), |k: int| (issued_number(start, k as nat), waiters[k]))
}

/// Requests numbered by one counter and in flight at once each get the
/// response sent under their own id: no reply is lost, duplicated or swapped
/// between callers, for fewer than 2^64 requests.
pub proof fn lemma_concurrent_sends_get_own_replies<V>(
    pending: Map<Seq<char>, V>,
    start: u64,
    waiters: Seq<V>,
    i: int,
    j: int,
)
    requires
        waiters.len() <= 0x1_0000_0000_0000_0000,
        0 <= i < waiters.len(),
        0 <= j < waiters.len(),
    ensures
        waiting_for(pending, counted_sends(start, waiters)).contains_key(
            spec_request_id(issued_number(start, i as nat)),
        ),
        waiting_for(pending, counted_sends(start, waiters))[spec_request_id(issued_number(start, i as nat))]
            == waiters[i],
        i != j ==> spec_request_id(issued_number(start, i as nat)) != spec_request_id(
            issued_number(start, j as nat),
        ),
        i != j ==> waiting_for(pending, counted_sends(start, waiters)).remove(
            spec_request_id(issued_number(start, j as nat)),
        )[spec_request_id(issued_number(start, i as nat))] == waiters[i],
{
    let sends = counted_sends(start, waiters);
    assert forall|a: int, b: int| 0 <= a < sends.len() && 0 <= b < sends.len() && a != b implies sends[a].0
        != sends[b].0 by {
        lemma_issued_numbers_distinct(start, a as nat, b as nat);
    }
    lemma_each_reply_reaches_its_request(pending, sends, i, j);
}

/// The envelope of an outgoing request.
pub fn request_envelope(id: String, session_id: Option<&str>, payload: XacppRequest) -> (env: XacppEnvelope)
    ensures
        env matches XacppEnvelope::Request { id: i, session_id: s, payload: p } && i == id && p == payload
            && match session_id {
            Some(t) => (s matches Some(u) && u@ == t@),
            None => s is None,
        },
{
    let sid = match session_id {
        Some(t) => Some(t.to_string()),
        None => None,
    };
    XacppEnvelope::Request { id, session_id: sid, payload }
}

/// The outcome of waiting for the response to a request: the response, or
/// `Closed` when the wait ended without one (the peer went away).
pub fn awaited_response(response: Option<XacppResponse>) -> (r: Result<XacppResponse, XacppError>)
    ensures
        match response {
            Some(p) => r == Ok::<XacppResponse, XacppError>(p),
            None => r == Err::<XacppResponse, XacppError>(XacppError::Closed),
        },
{
    match response {
        Some(p) => Ok(p),
        None => Err(XacppError::Closed),
    }
}

/// The error response that carries an error: its code and its text.
pub fn error_response(error: &XacppError) -> (r: XacppResponse)
    ensures
        r matches XacppResponse::Error { code, message } && code@ == error.spec_code() && message@
            == error.spec_message(),
{
    XacppResponse::Error { code: error.code().to_string(), message: error.to_string() }
}

/// The answer for an inbound request when no handler is registered.
pub fn no_handler_response() -> (r: XacppResponse)
    ensures
        r matches XacppResponse::Error { code, message } && code@ == "no_handler"@ && message@
            == "no handler registered"@,
        r matches XacppResponse::Error { code, message } && code@ == XacppError::NoHandler.spec_code()
            && message@ == XacppError::NoHandler.spec_message(),
{
    error_response(&XacppError::NoHandler)
}

/// The answer to an inbound request, from what its handler returned: the
/// response itself, or the error response that carries the error.
pub fn handler_response(result: Result<XacppResponse, XacppError>) -> (r: XacppResponse)
    ensures
        match result {
            Ok(p) => r == p,
            Err(e) => r matches XacppResponse::Error { code, message } && code@ == e.spec_code()
                && message@ == e.spec_message(),
        },
{
    match result {
        Ok(p) => p,
        Err(e) => error_response(&e),
    }
}

/// The response envelope to an inbound request: same id, same session id,
/// and the answer built from what the handler returned.
pub fn answer_envelope(id: String, session_id: Option<String>, result: Result<XacppResponse, XacppError>) -> (env: XacppEnvelope)
    ensures
        env matches XacppEnvelope::Response { id: i, session_id: s, payload: p } && i == id && s
            == session_id && match result {
            Ok(q) => p == q,
            Err(e) => (p matches XacppResponse::Error { code, message } && code@ == e.spec_code()
                && message@ == e.spec_message()),
        },
{
    XacppEnvelope::Response { id, session_id, payload: handler_response(result) }
}

/// What to do with an inbound envelope.
#[derive(Debug)]
pub enum EnvelopeRoute {
    /// Hand a request to the registered handler, then answer it under the same id.
    Handle { id: String, session_id: Option<String>, payload: XacppRequest },
    /// Answer a request at once with this envelope.
    Reply(XacppEnvelope),
    /// Deliver a response to whoever waits on the request `id`.
    Deliver { id: String, payload: XacppResponse },
}

/// The route of an inbound envelope. A request goes to the handler when one
/// is registered, and is otherwise answered at once, under its own id and
/// session id, with the no-handler error; a response goes to the request it answers.
pub fn route_envelope(envelope: XacppEnvelope, handler_registered: bool) -> (r: EnvelopeRoute)
    ensures
        match envelope {
            XacppEnvelope::Request { id, session_id, payload } => if handler_registered {
                r == (EnvelopeRoute::Handle { id, session_id, payload })
            } else {
                r matches EnvelopeRoute::Reply(XacppEnvelope::Response { id: i, session_id: s, payload: p })
                    && i == id && s == session_id && (p matches XacppResponse::Error { code, message }
                    && code@ == "no_handler"@ && message@ == "no handler registered"@)
            },
            XacppEnvelope::Response { id, payload, .. } => r == (EnvelopeRoute::Deliver { id, payload }),
        },
{
    match envelope {
        XacppEnvelope::Request { id, session_id, payload } => {
            if handler_registered {
                EnvelopeRoute::Handle { id, session_id, payload }
            } else {
                EnvelopeRoute::Reply(XacppEnvelope::Response { id, session_id, payload: no_handler_response() })
            }
        },
        XacppEnvelope::Response { id, payload, .. } => EnvelopeRoute::Deliver { id, payload },
    }
}

/// Where a transport's byte stream comes from.
#[derive(Debug, Clone, Copy, PartialEq, Eq, Structural)]
pub enum StreamSource {
    /// A new stream is opened at each connect (client mode).
    Dial,
    /// The transport was given one stream, not yet used.
    Fresh,
    /// The one given stream has been used.
    Spent,
}

/// Connection life cycle of a transport.
#[derive(Debug)]
pub struct LinkState {
    pub connected: bool,
    pub source: StreamSource,
}

impl LinkState {
    /// A transport that dials a new stream at each connect.
    pub fn dialing() -> (s: Self)
        ensures
            !s.connected,
            s.source == StreamSource::Dial,
    {
        LinkState { connected: false, source: StreamSource::Dial }
    }

    /// A transport over one given stream.
    pub fn over_stream() -> (s: Self)
        ensures
            !s.connected,
            s.source == StreamSource::Fresh,
    {
        LinkState { connected: false, source: StreamSource::Fresh }
    }

    /// Starting to connect: refused while connected, and for a transport
    /// whose one stream was used already; otherwise its stream is taken.
    pub fn begin_connect(&mut self) -> (r: Result<(), XacppError>)
        ensures
            r is Ok <==> (!old(self).connected && old(self).source != StreamSource::Spent),
            r matches Err(e) ==> e == XacppError::AlreadyConnected,
            final(self).connected == old(self).connected,
            final(self).source == (if r is Ok && old(self).source == StreamSource::Fresh {
                StreamSource::Spent
            } else {
                old(self).source
            }),
    {
        if self.connected {
            return Err(XacppError::AlreadyConnected);
        }
        match self.source {
            StreamSource::Dial => Ok(()),
            StreamSource::Fresh => {
                self.source = StreamSource::Spent;
                Ok(())
            },
            StreamSource::Spent => Err(XacppError::AlreadyConnected),
        }
    }

    /// The channel is up.
    pub fn finish_connect(&mut self)
        ensures
            final(self).connected,
            final(self).source == old(self).source,
    {
        self.connected = true;
    }

    /// The channel is down (disconnected, or the peer closed it).
    pub fn mark_closed(&mut self)
        ensures
            !final(self).connected,
            final(self).source == old(self).source,
    {
        self.connected = false;
    }

    /// A request handler may be registered only before connecting.
    pub fn check_register(&self) -> (r: Result<(), XacppError>)
        ensures
            r is Ok <==> !self.connected,
            r matches Err(e) ==> e == XacppError::AlreadyConnected,
    {
        if self.connected {
            Err(XacppError::AlreadyConnected)
        } else {
            Ok(())
        }
    }
}

} // verus!
