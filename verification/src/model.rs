//! The configuration model: what a valid configuration holds.

use crate::number::{is_real_text, Real};
use crate::text::same_text;
use vstd::prelude::*;

verus! {

/// The downstream execution environment that a runtime entry targets.
#[derive(Clone, Copy, Debug, PartialEq, Eq)]
pub enum RuntimeKind {
    Python,
    Rust,
    Node,
}

impl RuntimeKind {
    /// The name of this kind in a document: lower case.
    pub open spec fn name_of(self) -> Seq<char> {
        match self {
            RuntimeKind::Python => "python"@,
            RuntimeKind::Rust => "rust"@,
            RuntimeKind::Node => "node"@,
        }
    }

    /// The kind that `name` stands for, if it stands for one.
    pub open spec fn named(name: Seq<char>) -> Option<RuntimeKind> {
        if name == "python"@ {
            Some(RuntimeKind::Python)
        } else if name == "rust"@ {
            Some(RuntimeKind::Rust)
        } else if name == "node"@ {
            Some(RuntimeKind::Node)
        } else {
            None
        }
    }

    /// The name of this kind in a document.
    pub fn name(&self) -> (text: &'static str)
        ensures
            text@ == self.name_of(),
    {
        match self {
            RuntimeKind::Python => "python",
            RuntimeKind::Rust => "rust",
            RuntimeKind::Node => "node",
        }
    }

    /// Reads a kind from its name. Any other text is rejected: the
    /// enumeration is closed.
    pub fn from_name(name: &str) -> (kind: Option<RuntimeKind>)
        ensures
            kind == RuntimeKind::named(name@),
    {
        if same_text(name, "python") {
            Some(RuntimeKind::Python)
        } else if same_text(name, "rust") {
            Some(RuntimeKind::Rust)
        } else if same_text(name, "node") {
            Some(RuntimeKind::Node)
        } else {
            None
        }
    }
}

/// Reading the name of a kind gives that kind back, and a text that is read
/// as a kind is that kind's name.
pub proof fn lemma_runtime_names_round_trip(kind: RuntimeKind, name: Seq<char>)
    ensures
        RuntimeKind::named(kind.name_of()) == Some(kind),
        RuntimeKind::named(name) == Some(kind) ==> name == kind.name_of(),
{
    reveal_strlit("python");
    reveal_strlit("rust");
    reveal_strlit("node");
    assert("python"@.len() == 6 && "rust"@.len() == 4 && "node"@.len() == 4);
    assert("rust"@[0] == 'r' && "node"@[0] == 'n');
}

/// The trading account: total tradable capital, and the fraction of it that
/// one trade may risk. Both are required.
#[derive(Clone, Debug, PartialEq, Eq)]
pub struct AccountConfig {
    pub size: Real,
    pub risk_per_trade: Real,
}

/// The control-plane port, and the simulated latency where there is one.
#[derive(Clone, Copy, Debug, PartialEq, Eq)]
pub struct NetworkConfig {
    pub master_port: u16,
    pub sim_latency_ms: Option<u64>,
}

/// A whole configuration. `network.sim_latency_ms` and `vix_gate` may be
/// absent; everything else is required.
#[derive(Clone, Debug, PartialEq, Eq)]
pub struct AppConfig {
    pub account: AccountConfig,
    pub network: NetworkConfig,
    pub runtimes: Vec<RuntimeKind>,
    pub vix_gate: Option<Real>,
}

/// What an [`AccountConfig`] holds.
pub struct AccountModel {
    pub size: Seq<char>,
    pub risk_per_trade: Seq<char>,
}

/// What an [`AppConfig`] holds.
pub struct ConfigModel {
    pub account: AccountModel,
    pub network: NetworkConfig,
    pub runtimes: Seq<RuntimeKind>,
    pub vix_gate: Option<Seq<char>>,
}

impl ConfigModel {
    /// Whether every real number of this configuration is the notation of one.
    pub open spec fn well_formed(self) -> bool {
        &&& is_real_text(self.account.size)
        &&& is_real_text(self.account.risk_per_trade)
        &&& self.vix_gate matches Some(gate) ==> is_real_text(gate)
    }
}

impl View for AccountConfig {
    type V = AccountModel;

    open spec fn view(&self) -> AccountModel {
        AccountModel { size: self.size@, risk_per_trade: self.risk_per_trade@ }
    }
}

impl View for AppConfig {
    type V = ConfigModel;

    open spec fn view(&self) -> ConfigModel {
        ConfigModel {
            account: self.account@,
            network: self.network,
            runtimes: self.runtimes@,
            vix_gate: match self.vix_gate {
                Some(gate) => Some(gate@),
                None => None,
            },
        }
    }
}

} // verus!
