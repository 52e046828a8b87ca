//! What `klasp init --adopt` found: the existing gates of a repository and
//! the klasp checks that would mirror them.

use vstd::prelude::*;

use crate::model::opt_view;

verus! {

/// The git hook a gate runs on.
#[derive(Clone, Copy, Debug, PartialEq, Eq, Structural)]
pub enum HookStage {
    PreCommit,
    PrePush,
}

pub open spec fn spec_hook_stage_str(h: HookStage) -> Seq<char> {
    match h {
        HookStage::PreCommit => "pre-commit"@,
        HookStage::PrePush => "pre-push"@,
    }
}

impl HookStage {
    /// `pre-commit` / `pre-push`.
    pub fn as_str(self) -> (r: &'static str)
        ensures
            r@ == spec_hook_stage_str(self),
    {
        match self {
            HookStage::PreCommit => "pre-commit",
            HookStage::PrePush => "pre-push",
        }
    }
}

/// The git operation a proposed check fires on.
#[derive(Clone, Copy, Debug, PartialEq, Eq, Structural)]
pub enum TriggerKind {
    Commit,
    Push,
}

pub open spec fn spec_trigger_kind_str(t: TriggerKind) -> Seq<char> {
    match t {
        TriggerKind::Commit => "commit"@,
        TriggerKind::Push => "push"@,
    }
}

impl TriggerKind {
    /// `commit` / `push`.
    pub fn as_str(self) -> (r: &'static str)
        ensures
            r@ == spec_trigger_kind_str(self),
    {
        match self {
            TriggerKind::Commit => "commit",
            TriggerKind::Push => "push",
        }
    }
}

/// The kind of an existing gate.
#[derive(Clone, Debug, PartialEq, Eq)]
pub enum GateType {
    PreCommitFramework,
    Husky { hook: HookStage },
    Lefthook,
    PlainGitHook { hook: HookStage },
    LintStaged,
    Tooling(String),
}

pub enum GateTypeView {
    PreCommitFramework,
    Husky { hook: HookStage },
    Lefthook,
    PlainGitHook { hook: HookStage },
    LintStaged,
    Tooling(Seq<char>),
}

impl View for GateType {
    type V = GateTypeView;

    open spec fn view(&self) -> GateTypeView {
        match self {
            GateType::PreCommitFramework => GateTypeView::PreCommitFramework,
            GateType::Husky { hook } => GateTypeView::Husky { hook: *hook },
            GateType::Lefthook => GateTypeView::Lefthook,
            GateType::PlainGitHook { hook } => GateTypeView::PlainGitHook { hook: *hook },
            GateType::LintStaged => GateTypeView::LintStaged,
            GateType::Tooling(s) => GateTypeView::Tooling(s@),
        }
    }
}

/// Whether klasp can chain behind a gate.
#[derive(Clone, Copy, Debug, PartialEq, Eq, Structural)]
pub enum ChainSupport {
    /// Only manually, following the instructions that come with it.
    ManualOnly,
    /// Chaining would be unsafe.
    Unsafe,
}

/// How a proposed check runs.
#[derive(Clone, Debug, PartialEq, Eq)]
pub enum ProposedCheckSource {
    PreCommit { hook_stage: Option<String>, config_path: Option<String> },
    Shell { command: String },
}

pub enum ProposedCheckSourceView {
    PreCommit { hook_stage: Option<Seq<char>>, config_path: Option<Seq<char>> },
    Shell { command: Seq<char> },
}

impl View for ProposedCheckSource {
    type V = ProposedCheckSourceView;

    open spec fn view(&self) -> ProposedCheckSourceView {
        match self {
            ProposedCheckSource::PreCommit { hook_stage, config_path } => {
                ProposedCheckSourceView::PreCommit {
                    hook_stage: opt_view(*hook_stage),
                    config_path: opt_view(*config_path),
                }
            },
            ProposedCheckSource::Shell { command } => ProposedCheckSourceView::Shell {
                command: command@,
            },
        }
    }
}

/// A klasp check that mirrors part of an existing gate.
#[derive(Clone, Debug, PartialEq, Eq)]
pub struct ProposedCheck {
    pub name: String,
    pub triggers: Vec<TriggerKind>,
    pub timeout_secs: u64,
    pub source: ProposedCheckSource,
}

pub struct ProposedCheckView {
    pub name: Seq<char>,
    pub triggers: Seq<TriggerKind>,
    pub timeout_secs: u64,
    pub source: ProposedCheckSourceView,
}

impl View for ProposedCheck {
    type V = ProposedCheckView;

    open spec fn view(&self) -> ProposedCheckView {
        ProposedCheckView {
            name: self.name@,
            triggers: self.triggers@,
            timeout_secs: self.timeout_secs,
            source: self.source@,
        }
    }
}

pub open spec fn checks_view(v: Seq<ProposedCheck>) -> Seq<ProposedCheckView> {
    v.map_values(|c: ProposedCheck| c@)
}

pub open spec fn strings_view(v: Seq<String>) -> Seq<Seq<char>> {
    v.map_values(|s: String| s@)
}

/// One existing gate.
#[derive(Clone, Debug, PartialEq, Eq)]
pub struct DetectedGate {
    pub gate_type: GateType,
    /// The file that holds it.
    pub source_path: String,
    pub proposed_checks: Vec<ProposedCheck>,
    pub chain_support: ChainSupport,
    pub manual_chain_instructions: Option<String>,
    pub warnings: Vec<String>,
}

pub struct DetectedGateView {
    pub gate_type: GateTypeView,
    pub source_path: Seq<char>,
    pub proposed_checks: Seq<ProposedCheckView>,
    pub chain_support: ChainSupport,
    pub manual_chain_instructions: Option<Seq<char>>,
    pub warnings: Seq<Seq<char>>,
}

impl View for DetectedGate {
    type V = DetectedGateView;

    open spec fn view(&self) -> DetectedGateView {
        DetectedGateView {
            gate_type: self.gate_type@,
            source_path: self.source_path@,
            proposed_checks: checks_view(self.proposed_checks@),
            chain_support: self.chain_support,
            manual_chain_instructions: opt_view(self.manual_chain_instructions),
            warnings: strings_view(self.warnings@),
        }
    }
}

pub open spec fn gates_view(v: Seq<DetectedGate>) -> Seq<DetectedGateView> {
    v.map_values(|g: DetectedGate| g@)
}

/// Everything detected, in detection order.
#[derive(Clone, Debug, PartialEq, Eq)]
pub struct AdoptionPlan {
    pub findings: Vec<DetectedGate>,
}

impl Default for AdoptionPlan {
    fn default() -> (r: AdoptionPlan)
        ensures
            r.findings@.len() == 0,
    {
        AdoptionPlan { findings: Vec::new() }
    }
}

/// What `klasp init --adopt` does with a plan.
#[derive(Clone, Copy, Debug, PartialEq, Eq, Structural)]
pub enum AdoptMode {
    /// Report only.
    Inspect,
    /// Write a `klasp.toml` that runs alongside the existing gates.
    Mirror,
    /// Chain into the existing gates (not supported).
    Chain,
}

} // verus!
