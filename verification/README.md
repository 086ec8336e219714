# csswitch_gateway

The logic of a local gateway that stands between a client of the Anthropic messages
interface and the provider it is configured for. It is written in Rust and verified with
Verus: every public function of `src/` carries a contract that says what it returns, and the
properties that span functions are stated as public proof functions whose names begin with
`law_`.

## Layout

- `src/provider_failure.rs` decides what becomes of a refused request: retry, repair, fail
  or cancel. `src/api_key_attempt.rs` runs such a request against any transport.
- `src/provider_contracts.rs` checks the catalogue of providers and picks a contract.
- `src/messages.rs`, `src/redaction.rs` and `src/failure_json.rs` read what providers reply,
  and keep secrets out of what is said of it. `src/codex_transport.rs` does so for Codex.
- `src/codex_auth/` holds sign-in, refresh and sign-out, and the command line around them.
- `src/server/` holds the gateway's own HTTP: request heads, routes, replies, streams, the
  course of a request to Codex (`codex_intake`, `codex_attempt`, `codex_pump`) and to the other
  providers (`inference`), and the directory through which skills are installed.
- `src/text.rs`, `src/json.rs`, `src/json_text.rs`, `src/http.rs`, `src/web.rs`,
  `src/crypto.rs`, `src/name_map.rs`, `src/lists.rs` and `src/duration.rs` are what the others are built on.
  The calls into other crates stand in `text`, `json`, `json_text`, `web` and `crypto`, and
  next to their only use in `codex_transport` and `server/reply`.
- `app/` is ordinary Rust around the library: sockets, HTTP clients, files, processes,
  threads. It performs what the library decides and hands back what happened. What a host
  has to bring along is in `app/components.rs`.
- `tests/` runs the library.

State machines have one shape throughout: a function takes what happened and returns what to
do next. Nothing in `src/` reads a clock, a socket or a file.
