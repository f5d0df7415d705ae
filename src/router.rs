//! The routing table: resolves `(channel, sender)` to an agent name.
use vstd::prelude::*;

use crate::config::{
    bindings_view, default_agent_of, BindingConfig, BindingSpec, RoutingConfig, RoutingMode,
};
use crate::text::{clone_opt, is_wildcard, str_eq, wildcard};

verus! {

/// The mathematical value of a routing table.
pub struct RouterView {
    pub mode: RoutingMode,
    pub bindings: Seq<BindingSpec>,
    pub default_agent: Seq<char>,
}

/// Whether one side of a binding (its channel or its account) admits `value`.
pub open spec fn field_matches(pattern: Option<Seq<char>>, value: Seq<char>) -> bool {
    match pattern {
        None => true,
        Some(p) => p == wildcard() || p == value,
    }
}

/// Whether a binding admits a message from `sender` on `channel`.
pub open spec fn binding_matches(b: BindingSpec, channel: Seq<char>, sender: Seq<char>) -> bool {
    field_matches(b.channel, channel) && field_matches(b.account, sender)
}

/// The agent of the first binding at index `i` or later that admits the
/// message, or `fallback` when none does.
pub open spec fn first_match_from(
    bs: Seq<BindingSpec>,
    i: int,
    channel: Seq<char>,
    sender: Seq<char>,
    fallback: Seq<char>,
) -> Seq<char>
    decreases bs.len() - i,
{
    if i < 0 || i >= bs.len() {
        fallback
    } else if binding_matches(bs[i], channel, sender) {
        bs[i].agent
    } else {
        first_match_from(bs, i + 1, channel, sender, fallback)
    }
}

/// The agent a table assigns to a message from `sender` on `channel`.
pub open spec fn resolve(t: RouterView, channel: Seq<char>, sender: Seq<char>) -> Seq<char> {
    match t.mode {
        RoutingMode::Single => t.default_agent,
        RoutingMode::Named => first_match_from(t.bindings, 0, channel, sender, t.default_agent),
    }
}

/// A read-only routing table, built once from configuration.
#[derive(Debug, Clone)]
pub struct AgentRouter {
    mode: RoutingMode,
    bindings: Vec<BindingConfig>,
    default_agent: String,
}

impl View for AgentRouter {
    type V = RouterView;

    closed spec fn view(&self) -> RouterView {
        RouterView {
            mode: self.mode,
            bindings: bindings_view(self.bindings@),
            default_agent: self.default_agent@,
        }
    }
}

fn clone_binding(b: &BindingConfig) -> (r: BindingConfig)
    ensures
        r@ == b@,
{
    BindingConfig {
        channel: clone_opt(&b.channel),
        account: clone_opt(&b.account),
        agent: b.agent.clone(),
    }
}

fn clone_bindings(bs: &Vec<BindingConfig>) -> (r: Vec<BindingConfig>)
    ensures
        bindings_view(r@) == bindings_view(bs@),
{
    let mut r: Vec<BindingConfig> = Vec::new();
    let mut i: usize = 0;
    while i < bs.len()
        invariant
            i <= bs@.len(),
            r@.len() == i,
            forall|j: int| 0 <= j < i ==> #[trigger] r@[j]@ == bs@[j]@,
        decreases bs@.len() - i,
    {
        r.push(clone_binding(&bs[i]));
        i = i + 1;
    }
    assert(bindings_view(r@) =~= bindings_view(bs@));
    r
}

fn optional_field_matches(pattern: &Option<String>, value: &str) -> (r: bool)
    ensures
        r == field_matches(crate::text::opt_view(*pattern), value@),
{
    match pattern {
        None => true,
        Some(p) => is_wildcard(p.as_str()) || str_eq(p.as_str(), value),
    }
}

impl AgentRouter {
    /// Builds a table from configuration. The default agent is the explicit
    /// one if given, else the first declared agent's name, else `default`.
    pub fn from_routing_config(cfg: &RoutingConfig) -> (r: Self)
        ensures
            r@.mode == cfg.mode,
            r@.bindings == bindings_view(cfg.bindings@),
            r@.default_agent == default_agent_of(*cfg),
    {
        let default_agent = match &cfg.default_agent {
            Some(d) => d.clone(),
            None => if cfg.agents.len() > 0 {
                cfg.agents[0].name.clone()
            } else {
                String::from_str("default")
            },
        };
        AgentRouter { mode: cfg.mode, bindings: clone_bindings(&cfg.bindings), default_agent }
    }

    /// Resolves the agent for a message from `sender` on `channel`.
    /// Single mode always gives the default agent; named mode gives the
    /// agent of the first matching binding, else the default agent.
    pub fn resolve_agent<'a>(&'a self, channel: &str, sender: &str) -> (r: &'a str)
        ensures
            r@ == resolve(self@, channel@, sender@),
    {
        if self.mode == RoutingMode::Single {
            return self.default_agent.as_str();
        }
        let ghost bs = self@.bindings;
        let mut i: usize = 0;
        while i < self.bindings.len()
            invariant
                i <= self.bindings@.len(),
                bs == bindings_view(self.bindings@),
                self@.mode == RoutingMode::Named,
                first_match_from(bs, 0, channel@, sender@, self@.default_agent)
                    == first_match_from(bs, i as int, channel@, sender@, self@.default_agent),
            decreases self.bindings@.len() - i,
        {
            let b = &self.bindings[i];
            if optional_field_matches(&b.channel, channel) && optional_field_matches(
                &b.account,
                sender,
            ) {
                return b.agent.as_str();
            }
            i = i + 1;
        }
        self.default_agent.as_str()
    }
}

/// In single mode every message, whatever its channel and sender (wildcard
/// or empty text included), goes to the default agent.
pub proof fn lemma_single_mode_always_default(t: RouterView, channel: Seq<char>, sender: Seq<char>)
    requires
        t.mode == RoutingMode::Single,
    ensures
        resolve(t, channel, sender) == t.default_agent,
{
}

/// In named mode, when the binding at index `i` matches and none before it
/// does, the message goes to that binding's agent.
pub proof fn lemma_first_matching_binding_wins(
    t: RouterView,
    i: int,
    channel: Seq<char>,
    sender: Seq<char>,
)
    requires
        t.mode == RoutingMode::Named,
        0 <= i < t.bindings.len(),
        binding_matches(t.bindings[i], channel, sender),
        forall|j: int| 0 <= j < i ==> !binding_matches(#[trigger] t.bindings[j], channel, sender),
    ensures
        resolve(t, channel, sender) == t.bindings[i].agent,
{
    lemma_first_match_from(t.bindings, 0, i, channel, sender, t.default_agent);
}

proof fn lemma_first_match_from(
    bs: Seq<BindingSpec>,
    k: int,
    i: int,
    channel: Seq<char>,
    sender: Seq<char>,
    fallback: Seq<char>,
)
    requires
        0 <= k <= i < bs.len(),
        binding_matches(bs[i], channel, sender),
        forall|j: int| k <= j < i ==> !binding_matches(#[trigger] bs[j], channel, sender),
    ensures
        first_match_from(bs, k, channel, sender, fallback) == bs[i].agent,
    decreases i - k,
{
    if k < i {
        lemma_first_match_from(bs, k + 1, i, channel, sender, fallback);
    }
}

/// Without an explicit default, a table takes the first declared agent's
/// name when agents are declared, and `default` when none are.
pub proof fn lemma_default_agent_fallback(cfg: RoutingConfig)
    requires
        cfg.default_agent is None,
    ensures
        cfg.agents@.len() > 0 ==> default_agent_of(cfg) == cfg.agents@[0].name@,
        cfg.agents@.len() == 0 ==> default_agent_of(cfg) == "default"@,
{
}

} // verus!
