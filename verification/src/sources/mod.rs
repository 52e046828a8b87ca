//! Check sources: command construction and verdict mapping for every
//! built-in recipe. Running the command is the caller's part: a source
//! says what to spawn ([`SourceStep::Spawn`]) and turns the finished
//! command's [`ShellOutcome`](crate::model::ShellOutcome) into a
//! [`CheckResult`](crate::model::CheckResult).

pub mod cargo;
pub mod fallow;
pub mod plugin;
pub mod pre_commit;
pub mod pytest;
pub mod recipe_util;
pub mod shell;

use vstd::prelude::*;

use crate::model::{CheckConfig, CheckResult, CheckSourceConfig};
use crate::sources::cargo::CargoSource;
use crate::sources::fallow::FallowSource;
use crate::sources::plugin::PluginSource;
use crate::sources::pre_commit::PreCommitSource;
use crate::sources::pytest::PytestSource;
use crate::sources::shell::ShellSource;

verus! {

/// Per-check timeout when `klasp.toml` omits `timeout_secs`.
pub const DEFAULT_TIMEOUT_SECS: u64 = 120;

/// Why a source could not produce a result.
#[derive(Clone, Debug, PartialEq, Eq)]
pub enum CheckSourceError {
    /// The command could not be spawned.
    Spawn { message: String },
    /// The command overran its timeout and was killed.
    Timeout { secs: u64 },
    /// The command's output could not be read.
    Output(String),
    /// Anything else (a source handed a config it does not run).
    Other(String),
}

/// What a source wants next.
#[derive(Clone, Debug, PartialEq, Eq)]
pub enum SourceStep {
    /// The result is known without running anything.
    Done(CheckResult),
    /// Run `sh -c <command>` in the repository root, killing it after
    /// `timeout_secs`, and hand the outcome back.
    Spawn { command: String, timeout_secs: u64 },
}

pub open spec fn spec_timeout_secs(config: CheckConfig) -> u64 {
    match config.timeout_secs {
        Some(t) => t,
        None => DEFAULT_TIMEOUT_SECS,
    }
}

/// The check's timeout, or [`DEFAULT_TIMEOUT_SECS`].
pub fn timeout_secs(config: &CheckConfig) -> (r: u64)
    ensures
        r == spec_timeout_secs(*config),
{
    match config.timeout_secs {
        Some(t) => t,
        None => DEFAULT_TIMEOUT_SECS,
    }
}

pub open spec fn spec_source_kind(source: CheckSourceConfig) -> Seq<char> {
    match source {
        CheckSourceConfig::Shell { .. } => "shell"@,
        CheckSourceConfig::PreCommit { .. } => "pre_commit"@,
        CheckSourceConfig::Fallow { .. } => "fallow"@,
        CheckSourceConfig::Pytest { .. } => "pytest"@,
        CheckSourceConfig::Cargo { .. } => "cargo"@,
        CheckSourceConfig::Plugin { .. } => "plugin"@,
    }
}

/// The `type = "..."` tag of a source block.
pub fn source_kind(source: &CheckSourceConfig) -> (r: &'static str)
    ensures
        r@ == spec_source_kind(*source),
{
    match source {
        CheckSourceConfig::Shell { .. } => "shell",
        CheckSourceConfig::PreCommit { .. } => "pre_commit",
        CheckSourceConfig::Fallow { .. } => "fallow",
        CheckSourceConfig::Pytest { .. } => "pytest",
        CheckSourceConfig::Cargo { .. } => "cargo",
        CheckSourceConfig::Plugin { .. } => "plugin",
    }
}

/// The source that runs a check.
#[derive(Debug)]
pub enum SourceForCheck {
    PreCommit(PreCommitSource),
    Fallow(FallowSource),
    Pytest(PytestSource),
    Cargo(CargoSource),
    Shell(ShellSource),
    Plugin(PluginSource),
}

/// The id a check's results carry: the built-in recipe's name, or
/// `plugin:<name>`.
impl SourceForCheck {
    /// The id of the source.
    pub fn source_id(&self) -> (r: &str)
        ensures
            match self {
                SourceForCheck::PreCommit(_) => r@ == "pre_commit"@,
                SourceForCheck::Fallow(_) => r@ == "fallow"@,
                SourceForCheck::Pytest(_) => r@ == "pytest"@,
                SourceForCheck::Cargo(_) => r@ == "cargo"@,
                SourceForCheck::Shell(_) => r@ == "shell"@,
                SourceForCheck::Plugin(p) => r@ == "plugin:"@ + p.spec_plugin_name(),
            },
    {
        match self {
            SourceForCheck::PreCommit(s) => s.source_id(),
            SourceForCheck::Fallow(s) => s.source_id(),
            SourceForCheck::Pytest(s) => s.source_id(),
            SourceForCheck::Cargo(s) => s.source_id(),
            SourceForCheck::Shell(s) => s.source_id(),
            SourceForCheck::Plugin(s) => s.source_id(),
        }
    }
}

/// The built-in sources, asked in order (pre-commit, fallow, pytest,
/// cargo, shell); a `type = "plugin"` check gets a plugin source of its
/// own.
#[derive(Clone, Copy, Debug, Default)]
pub struct SourceRegistry {}

impl SourceRegistry {
    pub fn default_v1() -> (r: SourceRegistry) {
        SourceRegistry {  }
    }

    /// The source for a check. Every check type has one.
    pub fn find_for(&self, check: &CheckConfig) -> (r: Option<SourceForCheck>)
        ensures
            r matches Some(s) && match s {
                SourceForCheck::PreCommit(_) => check.source is PreCommit,
                SourceForCheck::Fallow(_) => check.source is Fallow,
                SourceForCheck::Pytest(_) => check.source is Pytest,
                SourceForCheck::Cargo(_) => check.source is Cargo,
                SourceForCheck::Shell(_) => check.source is Shell,
                SourceForCheck::Plugin(p) => check.source is Plugin && p.spec_plugin_name()
                    == check.source->Plugin_name@,
            },
    {
        let pre = PreCommitSource::new();
        if pre.supports_config(check) {
            return Some(SourceForCheck::PreCommit(pre));
        }
        let fallow = FallowSource::new();
        if fallow.supports_config(check) {
            return Some(SourceForCheck::Fallow(fallow));
        }
        let pytest = PytestSource::new();
        if pytest.supports_config(check) {
            return Some(SourceForCheck::Pytest(pytest));
        }
        let cargo = CargoSource::new();
        if cargo.supports_config(check) {
            return Some(SourceForCheck::Cargo(cargo));
        }
        let shell = ShellSource::new();
        if shell.supports_config(check) {
            return Some(SourceForCheck::Shell(shell));
        }
        match &check.source {
            CheckSourceConfig::Plugin { name, .. } => Some(
                SourceForCheck::Plugin(PluginSource::new(name.as_str())),
            ),
            _ => None,
        }
    }
}

} // verus!
