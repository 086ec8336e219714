//! How a gateway was launched.

use vstd::prelude::*;

use crate::provider_contracts::{CodexRuntimeContract, ProviderRuntimeContract};

verus! {

/// What the gateway is for.
#[derive(Clone, Copy, Debug, PartialEq, Eq, Structural)]
pub enum GatewayIntent {
    Formal,
    ScratchModels,
}

pub struct GatewayConfig {
    pub provider: String,
    pub port: u16,
    pub auth_secret: Option<String>,
    pub api_key: Option<String>,
    pub upstream_url: String,
    pub models_url: Option<String>,
    /// How a relayed request is to think.
    pub relay_thinking: Option<String>,
    pub provider_contract: Option<ProviderRuntimeContract>,
    pub intent: GatewayIntent,
    pub shim_mode: String,
    /// The directory of the Codex credentials, where it is not the usual one.
    pub codex_state_root: Option<Vec<u8>>,
    pub codex_contract: Option<CodexRuntimeContract>,
    pub launch_id: String,
    pub skill_data_dir: Option<Vec<u8>>,
    pub skill_bridge_dir: Option<Vec<u8>>,
    pub skill_bridge_token: Option<String>,
}

impl GatewayConfig {
    /// Whether skills can be installed: only where the directory of the bridge, the
    /// directory of the data and the token are all given.
    pub fn has_skill_bridge(&self) -> (yes: bool)
        ensures
            yes == (self.skill_bridge_dir is Some && self.skill_data_dir is Some
                && self.skill_bridge_token is Some),
    {
        self.skill_bridge_dir.is_some() && self.skill_data_dir.is_some()
            && self.skill_bridge_token.is_some()
    }
}

} // verus!
