//! Data model: findings, verdicts, check configuration and the
//! outcome of a finished check command.

use vstd::prelude::*;

use crate::text::{join_lines, join_lines_exec};

verus! {

/// How serious a finding is.
#[derive(Clone, Copy, Debug, PartialEq, Eq, Structural)]
pub enum Severity {
    Error,
    Warn,
    Info,
}

/// One structured problem reported by a check.
#[derive(Clone, Debug, PartialEq, Eq)]
pub struct Finding {
    pub rule: String,
    pub message: String,
    pub file: Option<String>,
    pub line: Option<u32>,
    pub severity: Severity,
}

/// Mathematical view of a [`Finding`].
pub struct FindingView {
    pub rule: Seq<char>,
    pub message: Seq<char>,
    pub file: Option<Seq<char>>,
    pub line: Option<u32>,
    pub severity: Severity,
}

pub open spec fn opt_view(o: Option<String>) -> Option<Seq<char>> {
    match o {
        Some(s) => Some(s@),
        None => None,
    }
}

impl View for Finding {
    type V = FindingView;

    open spec fn view(&self) -> FindingView {
        FindingView {
            rule: self.rule@,
            message: self.message@,
            file: opt_view(self.file),
            line: self.line,
            severity: self.severity,
        }
    }
}

pub open spec fn findings_view(v: Seq<Finding>) -> Seq<FindingView> {
    v.map_values(|f: Finding| f@)
}

/// Outcome of one check, or of several merged checks.
#[derive(Clone, Debug, PartialEq, Eq)]
pub enum Verdict {
    Pass,
    Warn { findings: Vec<Finding>, message: Option<String> },
    Fail { findings: Vec<Finding>, message: String },
}

/// Mathematical view of a [`Verdict`].
pub enum VerdictView {
    Pass,
    Warn { findings: Seq<FindingView>, message: Option<Seq<char>> },
    Fail { findings: Seq<FindingView>, message: Seq<char> },
}

impl View for Verdict {
    type V = VerdictView;

    open spec fn view(&self) -> VerdictView {
        match self {
            Verdict::Pass => VerdictView::Pass,
            Verdict::Warn { findings, message } => VerdictView::Warn {
                findings: findings_view(findings@),
                message: opt_view(*message),
            },
            Verdict::Fail { findings, message } => VerdictView::Fail {
                findings: findings_view(findings@),
                message: message@,
            },
        }
    }
}

impl VerdictView {
    /// Findings carried by the verdict (none for `Pass`).
    pub open spec fn findings(self) -> Seq<FindingView> {
        match self {
            VerdictView::Pass => Seq::empty(),
            VerdictView::Warn { findings, .. } => findings,
            VerdictView::Fail { findings, .. } => findings,
        }
    }

    /// Only a `Fail` blocks the agent's tool call.
    pub open spec fn is_blocking(self) -> bool {
        self is Fail
    }
}

impl Verdict {
    /// Only a `Fail` blocks the agent's tool call.
    pub fn is_blocking(&self) -> (r: bool)
        ensures
            r == self@.is_blocking(),
    {
        matches!(self, Verdict::Fail { .. })
    }
}

/// The git operation an agent's command would perform.
#[derive(Clone, Copy, Debug, PartialEq, Eq, Structural)]
pub enum GitEvent {
    Commit,
    Push,
}

/// How per-check verdicts combine into one gate verdict.
#[derive(Clone, Copy, Debug, PartialEq, Eq, Structural)]
pub enum VerdictPolicy {
    /// One failing check fails the whole.
    AnyFail,
}

/// `triggers = [{ on = [...] }]` entry of a check.
#[derive(Clone, Debug, PartialEq, Eq)]
pub struct TriggerConfig {
    pub on: Vec<String>,
}

/// `[checks.source]` block of a check.
#[derive(Clone, Debug, PartialEq, Eq)]
pub enum CheckSourceConfig {
    Shell { command: String },
    PreCommit { hook_stage: Option<String>, config_path: Option<String> },
    Fallow { config_path: Option<String>, base: Option<String> },
    Pytest { extra_args: Option<String>, config_path: Option<String>, junit_xml: Option<bool> },
    Cargo { subcommand: String, extra_args: Option<String>, package: Option<String> },
    /// `settings` is the check's free-form settings table as JSON text,
    /// handed to the plugin as it stands.
    Plugin { name: String, args: Vec<String>, settings: Option<String> },
}

/// One `[[checks]]` entry of `klasp.toml`.
#[derive(Clone, Debug, PartialEq, Eq)]
pub struct CheckConfig {
    pub name: String,
    pub triggers: Vec<TriggerConfig>,
    pub source: CheckSourceConfig,
    pub timeout_secs: Option<u64>,
}

/// Version of the hook protocol between the installed hook script and
/// `klasp gate`.
pub const GATE_SCHEMA_VERSION: u32 = 1;

/// Version of the `--format json` document.
pub const KLASP_OUTPUT_SCHEMA: u32 = 1;

/// Result of running one check.
#[derive(Clone, Debug, PartialEq, Eq)]
pub struct CheckResult {
    pub source_id: String,
    pub check_name: String,
    pub verdict: Verdict,
    pub raw_stdout: Option<String>,
    pub raw_stderr: Option<String>,
}

/// Buffered stdio and exit code of a finished check command. `status_code`
/// is `None` when the command was killed before exiting.
#[derive(Clone, Debug, PartialEq, Eq)]
pub struct ShellOutcome {
    pub status_code: Option<i32>,
    pub stdout: String,
    pub stderr: String,
}

pub open spec fn verdicts_view(v: Seq<Verdict>) -> Seq<VerdictView> {
    v.map_values(|x: Verdict| x@)
}

/// Every finding of `vs`, in order.
pub open spec fn all_findings(vs: Seq<VerdictView>) -> Seq<FindingView>
    decreases vs.len(),
{
    if vs.len() == 0 {
        Seq::empty()
    } else {
        all_findings(vs.drop_last()) + vs.last().findings()
    }
}

/// The messages of the failing verdicts of `vs`.
pub open spec fn fail_messages(vs: Seq<VerdictView>) -> Seq<Seq<char>>
    decreases vs.len(),
{
    if vs.len() == 0 {
        Seq::empty()
    } else {
        fail_messages(vs.drop_last()) + match vs.last() {
            VerdictView::Fail { message, .. } => seq![message],
            _ => Seq::empty(),
        }
    }
}

/// The messages the warning verdicts of `vs` carry.
pub open spec fn warn_messages(vs: Seq<VerdictView>) -> Seq<Seq<char>>
    decreases vs.len(),
{
    if vs.len() == 0 {
        Seq::empty()
    } else {
        warn_messages(vs.drop_last()) + match vs.last() {
            VerdictView::Warn { message: Some(m), .. } => seq![m],
            _ => Seq::empty(),
        }
    }
}

pub open spec fn any_fail(vs: Seq<VerdictView>) -> bool {
    exists|i: int| 0 <= i < vs.len() && #[trigger] vs[i] is Fail
}

pub open spec fn any_warn(vs: Seq<VerdictView>) -> bool {
    exists|i: int| 0 <= i < vs.len() && #[trigger] vs[i] is Warn
}

pub open spec fn spec_merge(vs: Seq<VerdictView>, policy: VerdictPolicy) -> VerdictView {
    if any_fail(vs) {
        VerdictView::Fail { findings: all_findings(vs), message: join_lines(fail_messages(vs)) }
    } else if any_warn(vs) {
        VerdictView::Warn {
            findings: all_findings(vs),
            message: if warn_messages(vs).len() == 0 {
                None
            } else {
                Some(join_lines(warn_messages(vs)))
            },
        }
    } else {
        VerdictView::Pass
    }
}

impl Verdict {
    /// Combine verdicts under `AnyFail`: one failure fails the whole, with
    /// the failures' messages one per line; else one warning warns; else
    /// it passes. Every finding is kept, in order.
    pub fn merge(verdicts: Vec<Verdict>, policy: VerdictPolicy) -> (r: Verdict)
        ensures
            r@ == spec_merge(verdicts_view(verdicts@), policy),
    {
        let ghost vs = verdicts_view(verdicts@);
        let mut findings: Vec<Finding> = Vec::new();
        let mut fails: Vec<String> = Vec::new();
        let mut warns: Vec<String> = Vec::new();
        let mut saw_fail = false;
        let mut saw_warn = false;
        let mut rest = verdicts;
        let ghost orig = rest@;
        let mut k: usize = 0;
        assert(rest@.len() == rest.len());
        while rest.len() > 0
            invariant
                k + rest@.len() == orig.len(),
                orig.len() <= usize::MAX,
                rest@ == orig.skip(k as int),
                vs == verdicts_view(orig),
                findings_view(findings@) == all_findings(vs.take(k as int)),
                fails@.map_values(|s: String| s@) == fail_messages(vs.take(k as int)),
                warns@.map_values(|s: String| s@) == warn_messages(vs.take(k as int)),
                saw_fail == any_fail(vs.take(k as int)),
                saw_warn == any_warn(vs.take(k as int)),
            decreases rest@.len(),
        {
            let v = rest.remove(0);
            assert(v == orig[k as int]);
            assert(rest@ =~= orig.skip(k + 1));
            let ghost pre = vs.take(k as int);
            let ghost now = vs.take(k + 1);
            assert(now.drop_last() =~= pre);
            assert(now.last() == v@);
            let ghost f0 = findings@;
            let ghost fa0 = fails@;
            let ghost wa0 = warns@;
            match v {
                Verdict::Pass => {
                    assert(findings_view(findings@) =~= all_findings(now));
                    assert(fails@.map_values(|s: String| s@) =~= fail_messages(now));
                    assert(warns@.map_values(|s: String| s@) =~= warn_messages(now));
                },
                Verdict::Warn { findings: fs, message } => {
                    let mut fs = fs;
                    let ghost fsv = findings_view(fs@);
                    findings.append(&mut fs);
                    assert(findings_view(findings@) =~= findings_view(f0) + fsv);
                    match message {
                        Some(m) => {
                            warns.push(m);
                        },
                        None => {},
                    }
                    assert(warns@.map_values(|s: String| s@) =~= warn_messages(now));
                    assert(fails@.map_values(|s: String| s@) =~= fail_messages(now));
                    saw_warn = true;
                },
                Verdict::Fail { findings: fs, message } => {
                    let mut fs = fs;
                    let ghost fsv = findings_view(fs@);
                    findings.append(&mut fs);
                    assert(findings_view(findings@) =~= findings_view(f0) + fsv);
                    fails.push(message);
                    assert(fails@.map_values(|s: String| s@) =~= fail_messages(now));
                    assert(warns@.map_values(|s: String| s@) =~= warn_messages(now));
                    saw_fail = true;
                },
            }
            assert(saw_fail == any_fail(now)) by {
                if any_fail(now) && !(now.last() is Fail) {
                    let i = choose|i: int| 0 <= i < now.len() && #[trigger] now[i] is Fail;
                    assert(pre[i] is Fail);
                }
                if any_fail(pre) {
                    let i = choose|i: int| 0 <= i < pre.len() && #[trigger] pre[i] is Fail;
                    assert(now[i] is Fail);
                }
            }
            assert(saw_warn == any_warn(now)) by {
                if any_warn(now) && !(now.last() is Warn) {
                    let i = choose|i: int| 0 <= i < now.len() && #[trigger] now[i] is Warn;
                    assert(pre[i] is Warn);
                }
                if any_warn(pre) {
                    let i = choose|i: int| 0 <= i < pre.len() && #[trigger] pre[i] is Warn;
                    assert(now[i] is Warn);
                }
            }
            k += 1;
        }
        assert(vs.take(k as int) =~= vs);
        if saw_fail {
            Verdict::Fail { findings, message: join_lines_exec(&fails) }
        } else if saw_warn {
            let message = if warns.len() == 0 {
                None
            } else {
                Some(join_lines_exec(&warns))
            };
            Verdict::Warn { findings, message }
        } else {
            Verdict::Pass
        }
    }
}

/// Merging blocks exactly when one of the merged verdicts blocks.
pub proof fn lemma_merge_blocks_iff_any_blocks(vs: Seq<VerdictView>, policy: VerdictPolicy)
    ensures
        spec_merge(vs, policy).is_blocking() <==> exists|i: int|
            0 <= i < vs.len() && #[trigger] vs[i].is_blocking(),
{
    if any_fail(vs) {
        let i = choose|i: int| 0 <= i < vs.len() && #[trigger] vs[i] is Fail;
        assert(vs[i].is_blocking());
    }
}

/// Merging verdicts that all pass (none at all, too) passes.
pub proof fn lemma_merge_all_pass(vs: Seq<VerdictView>, policy: VerdictPolicy)
    requires
        forall|i: int| 0 <= i < vs.len() ==> #[trigger] vs[i] is Pass,
    ensures
        spec_merge(vs, policy) is Pass,
{
}

} // verus!
