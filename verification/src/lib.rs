//! Decision core of a local model gateway.
//!
//! Every rule that the gateway applies to a request, a provider reply or a login
//! is a function here, with a contract that Verus proves. Sockets, files, clocks
//! and HTTP clients stay outside and hand plain values in.

use vstd::prelude::*;

pub mod api_key_attempt;
pub mod api_key_attempt_laws;
pub mod codex_auth;
pub mod codex_transport;
pub mod codex_transport_laws;
pub mod config;
pub mod crypto;
pub mod duration;
pub mod failure_json;
pub mod failure_json_laws;
pub mod http;
pub mod json;
pub mod json_laws;
pub mod json_text;
pub mod json_text_laws;
mod lists;
pub mod messages;
pub mod messages_laws;
pub mod name_map;
pub mod provider_contracts;
pub mod provider_contracts_laws;
pub mod provider_failure;
pub mod redaction;
pub mod redaction_laws;
pub mod server;
pub mod text;
pub mod text_laws;
pub mod web;

verus! {

} // verus!
