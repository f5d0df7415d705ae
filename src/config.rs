//! Routing configuration values, as handed over by the configuration loader.
use vstd::prelude::*;

use crate::text::opt_view;

verus! {

/// How inbound messages are assigned to agents.
#[derive(Debug, Clone, Copy, PartialEq, Eq, Structural)]
pub enum RoutingMode {
    /// One agent serves every message.
    Single,
    /// Binding rules select among named agents.
    Named,
}

/// One rule mapping a channel and sender pattern to an agent.
/// An absent field, or the wildcard `*`, matches any value.
#[derive(Debug, Clone)]
pub struct BindingConfig {
    pub channel: Option<String>,
    pub account: Option<String>,
    pub agent: String,
}

/// The mathematical value of a binding rule.
pub struct BindingSpec {
    pub channel: Option<Seq<char>>,
    pub account: Option<Seq<char>>,
    pub agent: Seq<char>,
}

impl View for BindingConfig {
    type V = BindingSpec;

    open spec fn view(&self) -> BindingSpec {
        BindingSpec {
            channel: opt_view(self.channel),
            account: opt_view(self.account),
            agent: self.agent@,
        }
    }
}

/// A declared agent. Only its name takes part in routing.
#[derive(Debug, Clone)]
pub struct NamedAgentConfig {
    pub name: String,
    pub provider: String,
    pub model: String,
    pub system_prompt: Option<String>,
    pub api_key: Option<String>,
    pub api_key_env: Option<String>,
    pub workspace_dir: Option<String>,
    pub session_store: Option<String>,
}

/// The routing section of the gateway configuration.
#[derive(Debug, Clone)]
pub struct RoutingConfig {
    pub mode: RoutingMode,
    pub agents: Vec<NamedAgentConfig>,
    pub bindings: Vec<BindingConfig>,
    pub default_agent: Option<String>,
}

/// The values of a sequence of binding rules.
pub open spec fn bindings_view(bs: Seq<BindingConfig>) -> Seq<BindingSpec> {
    bs.map_values(|b: BindingConfig| b@)
}

/// The default agent of a configuration: the explicit one, else the first
/// declared agent's name, else `default`.
pub open spec fn default_agent_of(cfg: RoutingConfig) -> Seq<char> {
    match cfg.default_agent {
        Some(d) => d@,
        None => if cfg.agents@.len() > 0 {
            cfg.agents@[0].name@
        } else {
            "default"@
        },
    }
}

} // verus!
