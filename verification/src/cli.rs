//! The command line: what each subcommand is asked to do.

use vstd::prelude::*;

verus! {

/// The parsed command line.
#[derive(Clone, Debug, PartialEq, Eq)]
pub struct Cli {
    pub command: Cmd,
}

#[derive(Clone, Debug, PartialEq, Eq)]
pub enum Cmd {
    /// Scaffold a klasp.toml in the current repo.
    Init(InitArgs),
    /// Install klasp's gate hook into the detected agent surfaces.
    Install(InstallArgs),
    /// Remove klasp's gate hook from the detected agent surfaces.
    Uninstall(UninstallArgs),
    /// Gate runtime, invoked by the hook script with tool-call JSON on stdin.
    Gate(GateArgs),
    /// Diagnose the local install (config, hook script, schema version).
    Doctor(DoctorArgs),
    /// Manage klasp plugins.
    Plugins(PluginsArgs),
}

#[derive(Clone, Debug, PartialEq, Eq)]
pub struct InitArgs {
    /// Overwrite an existing klasp.toml without prompting.
    pub force: bool,
}

#[derive(Clone, Debug, PartialEq, Eq)]
pub struct InstallArgs {
    /// One agent (`claude_code`, `codex`), `all` for every agent listed in
    /// `[gate].agents`, or none for every detected surface.
    pub agent: Option<String>,
    /// Print what would be written without touching the filesystem.
    pub dry_run: bool,
    /// Install even when the surface is not detected, or overwrite a
    /// hook file klasp does not manage.
    pub force: bool,
    /// Override the repo root (defaults to `git rev-parse --show-toplevel`).
    pub repo_root: Option<String>,
}

#[derive(Clone, Debug, PartialEq, Eq)]
pub struct UninstallArgs {
    /// One agent, `all`, or none for every registered surface.
    pub agent: Option<String>,
    /// Print what would be removed without touching the filesystem.
    pub dry_run: bool,
    /// Override the repo root.
    pub repo_root: Option<String>,
}

/// Output format for `klasp gate`.
#[derive(Clone, Copy, Debug, PartialEq, Eq, Structural)]
pub enum OutputFormat {
    /// Human-readable text on stderr (the default).
    Terminal,
    /// JUnit XML on stdout or `--output`.
    Junit,
    /// SARIF 2.1.0 on stdout or `--output`.
    Sarif,
    /// The stable JSON document on stdout or `--output`.
    Json,
}

impl Default for OutputFormat {
    fn default() -> (r: OutputFormat)
        ensures
            r == OutputFormat::Terminal,
    {
        OutputFormat::Terminal
    }
}

#[derive(Clone, Debug, PartialEq, Eq)]
pub struct GateArgs {
    /// Output format.
    pub format: OutputFormat,
    /// Where machine-readable output goes; stdout when absent.
    pub output: Option<String>,
}

#[derive(Clone, Debug, PartialEq, Eq)]
pub struct DoctorArgs {}

#[derive(Clone, Debug, PartialEq, Eq)]
pub struct PluginsArgs {
    pub action: PluginsAction,
}

#[derive(Clone, Debug, PartialEq, Eq)]
pub enum PluginsAction {
    /// List `klasp-plugin-*` binaries found on `$PATH`.
    List,
    /// Print the plugin's `--describe` output.
    Info { name: String },
    /// Add a plugin to the per-user disable list.
    Disable { name: String },
}

} // verus!
