# xacpp

XACPP (Agent Control Plane Protocol): typed commands, events and responses
exchanged between two peers over a JSONL stream, with capability
negotiation and logical sessions.

Layout:

- `src/` — the verified library (Verus). The protocol's data types and the
  decisions of every protocol step: error codes and texts, the JSON model of
  payloads and the decoding/encoding of command declarations, capability
  intersection, the peer's state machine (`PeerCore`) and the routing of
  inbound requests, the transport's request ids, envelope routing and link
  life cycle, and a string-keyed table for sessions and pending requests.
  Laws are public proof functions next to the functions they relate.
- `app/` — ordinary Rust around the library: the serde forms of the types
  (`wire.rs`), the asynchronous peer, session and the stdio/TCP transports on
  tokio, and the application-facing handler traits.
- `tests/` — tests of the library through its public API.
