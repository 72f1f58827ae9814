# ruggine

The client side of the Ruggine chat: a verified library that keeps the state of a
chat session (conversations, message caches, per-user and per-conversation sequence
numbers, reorder buffers, DM and group stubs, pending confirmations, toasts and forms)
and decides what to do with every event, plus a small terminal program around it.

- `src/` — the library, written in Verus. Every operation states its effect on a
  mathematical view of the state (`view.rs`), and `laws.rs` and `sequence.rs` prove
  properties that span operations. `inbound.rs` reads the server's WebSocket frames into
  events; `link.rs` decides the WebSocket link's keep-alive and failure policy;
  `frames.rs` and `outbound.rs` decide what each outgoing request carries and the JSON
  object that carries it; `rest.rs` reads the HTTP API's message pages. `external.rs`,
  `json.rs` and `text.rs` hold the few calls into `uuid`, `chrono`, `serde_json` and
  `str` that the proofs take on trust.
- `app/` — the terminal client: REST calls, the WebSocket connection and the main loop
  that feeds events to the library and performs the actions it returns.
- `tests/` — tests of the library on concrete values.
