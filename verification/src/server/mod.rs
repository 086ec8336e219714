//! What the gateway does with the requests of its clients.

use vstd::prelude::*;

pub mod attempt_laws;
pub mod bridge;
pub mod bridge_laws;
pub mod codex_attempt;
pub mod codex_intake;
pub mod codex_pump;
pub mod flow_laws;
pub mod head;
pub mod inference;
pub mod log;
pub mod nonce;
pub mod reply;
pub mod reply_laws;
pub mod routing;
pub mod routing_laws;
pub mod stream;

verus! {

} // verus!
