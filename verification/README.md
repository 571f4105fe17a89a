# agent_gateway

The decisions of an agent gateway, in verified Rust: who may open a stream or a chat, how messages
are encrypted end to end, what a chat session says and does, how telemetry is distributed to a
limited number of subscribers, and what is announced of the agent's activity.

- `src/` is the library. Verus proves every function there against its contract, except for those
  that call other crates (marked `#[verifier::external_body]` or given an `assume_specification`):
  their contracts are believed, and each says in its comment what it claims.
  - `json`: JSON values, and what they hold.
  - `payload`: encryption and decryption of texts on the wire.
  - `access`: credentials and refusals.
  - `channel`: the broadcast channel that events go through.
  - `telemetry`: the telemetry server and its limit.
  - `stream`: opening server-sent event streams, and what is sent on them.
  - `chat`: the chat session as a state machine.
  - `observer`: observers of the agent, and their announcements.
- `tests/` runs the library with the crates that it calls.
- `app/` holds the HTTP handlers: they receive and send, and leave the decisions to the library.
