//! `type = "pre_commit"`: runs `pre-commit run --hook-stage <stage>` on the
//! staged index (for a commit) or on the pushed range (for a push), and
//! reads the per-hook `<hook>....Failed` summary lines into findings.

use vstd::prelude::*;

use crate::model::{
    findings_view, opt_view, CheckConfig, CheckResult, CheckSourceConfig, Finding, FindingView,
    GitEvent, Severity, ShellOutcome, Verdict, VerdictView,
};
use crate::sources::recipe_util::{
    count_exec, count_severity, fail_with_optional_warning, note, opt_str_view, plural,
    push_plural, shell_quote_chars, spec_fail_with_warning, spec_note, spec_shell_quote,
    warning_rows,
};
use crate::sources::{source_kind, spec_timeout_secs, timeout_secs, CheckSourceError, SourceStep};
use crate::text::{
    decimal, ends_with, ends_with_str, extend, extend_str, from_chars, is_ws, lines,
    push_decimal, push_signed_decimal, signed_decimal, slice, split_lines, to_chars, trim,
    trim_end, trim_end_exec, trim_exec, views,
};

verus! {

/// Lowest pre-commit release whose per-hook summary lines the recipe reads.
pub const MIN_SUPPORTED_VERSION: (u32, u32) = (3, 0);

pub open spec fn spec_build_command(
    event: GitEvent,
    hook_stage: Seq<char>,
    config_path: Option<Seq<char>>,
) -> Seq<char> {
    let range = match event {
        GitEvent::Commit => Seq::empty(),
        GitEvent::Push => " --from-ref ${KLASP_BASE_REF} --to-ref HEAD"@,
    };
    let config = match config_path {
        Some(p) => " -c "@ + spec_shell_quote(p),
        None => Seq::empty(),
    };
    "pre-commit run --hook-stage "@ + spec_shell_quote(hook_stage) + range + config
}

/// `pre-commit run --hook-stage <stage>`: on a commit the staged index is
/// what pre-commit checks by default; on a push the new commits are in
/// `HEAD`, so the run is scoped `--from-ref ${KLASP_BASE_REF} --to-ref
/// HEAD`. `-c <config>` last when given.
pub fn build_command(event: GitEvent, hook_stage: &str, config_path: Option<&str>) -> (r: String)
    ensures
        r@ == spec_build_command(event, hook_stage@, opt_str_view(config_path)),
{
    let mut out = to_chars("pre-commit run --hook-stage ");
    extend(&mut out, &shell_quote_chars(&to_chars(hook_stage)));
    let ghost s0 = out@;
    match event {
        GitEvent::Commit => {},
        GitEvent::Push => {
            extend_str(&mut out, " --from-ref ${KLASP_BASE_REF} --to-ref HEAD");
        },
    }
    let ghost s1 = out@;
    match config_path {
        Some(p) => {
            extend_str(&mut out, " -c ");
            extend(&mut out, &shell_quote_chars(&to_chars(p)));
        },
        None => {},
    }
    proof {
        let range = match event {
            GitEvent::Commit => Seq::<char>::empty(),
            GitEvent::Push => " --from-ref ${KLASP_BASE_REF} --to-ref HEAD"@,
        };
        assert(s1 =~= s0 + range);
        assert(out@ =~= spec_build_command(event, hook_stage@, opt_str_view(config_path)));
    }
    from_chars(&out)
}

/// `s` without trailing dots and whitespace.
pub open spec fn strip_padding(s: Seq<char>) -> Seq<char>
    decreases s.len(),
{
    if s.len() > 0 && (s.last() == '.' || is_ws(s.last())) {
        strip_padding(s.drop_last())
    } else {
        s
    }
}

/// The hook named by a `<hook>....Failed` line.
pub open spec fn failed_hook(line: Seq<char>) -> Option<Seq<char>> {
    let t = trim_end(line);
    if ends_with(t, "Failed"@) {
        let head = strip_padding(t.take(t.len() - "Failed"@.len()));
        if head.len() > 0 {
            Some(head)
        } else {
            None
        }
    } else {
        None
    }
}

pub open spec fn hook_findings(check: Seq<char>, ls: Seq<Seq<char>>) -> Seq<FindingView>
    decreases ls.len(),
{
    if ls.len() == 0 {
        Seq::empty()
    } else {
        match failed_hook(ls[0]) {
            Some(h) => seq![
                spec_note("pre_commit"@, check, "hook `"@ + h + "` failed"@, Severity::Error),
            ] + hook_findings(check, ls.drop_first()),
            None => hook_findings(check, ls.drop_first()),
        }
    }
}

pub open spec fn spec_parse_failed_hooks(check: Seq<char>, stdout: Seq<char>) -> Seq<FindingView> {
    hook_findings(check, lines(stdout))
}

fn failed_hook_exec(line: &Vec<char>) -> (r: Option<Vec<char>>)
    ensures
        match r {
            Some(h) => failed_hook(line@) == Some(h@),
            None => failed_hook(line@) is None,
        },
{
    proof {
        reveal_strlit("Failed");
    }
    let t = trim_end_exec(line);
    if !ends_with_str(&t, "Failed") {
        return None;
    }
    let mut j = t.len() - 6;
    assert(t@.subrange(0, j as int) =~= t@.take(t@.len() - "Failed"@.len()));
    while j > 0 && (t[j - 1] == '.' || crate::text::char_is_ws(t[j - 1]))
        invariant
            j <= t@.len(),
            strip_padding(t@.take(t@.len() - "Failed"@.len())) == strip_padding(
                t@.subrange(0, j as int),
            ),
        decreases j,
    {
        assert(t@.subrange(0, j as int).drop_last() =~= t@.subrange(0, j - 1));
        j -= 1;
    }
    if j == 0 {
        return None;
    }
    Some(slice(&t, 0, j))
}

/// One `pre_commit:<check>` error per `<hook>....Failed` line of
/// pre-commit's stdout, ``hook `<hook>` failed``, in order.
pub fn parse_failed_hooks(check_name: &str, stdout: &str) -> (r: Vec<Finding>)
    ensures
        findings_view(r@) == spec_parse_failed_hooks(check_name@, stdout@),
{
    let ls = split_lines(&to_chars(stdout));
    let n = ls.len();
    let mut out: Vec<Finding> = Vec::new();
    let mut i: usize = 0;
    assert(views(ls@).skip(0) =~= views(ls@));
    while i < n
        invariant
            n == ls@.len(),
            i <= n,
            views(ls@) == lines(stdout@),
            findings_view(out@) + hook_findings(check_name@, views(ls@).skip(i as int))
                == spec_parse_failed_hooks(check_name@, stdout@),
        decreases n - i,
    {
        let ghost rest = views(ls@).skip(i as int);
        let ghost old_out = out@;
        assert(rest[0] == ls@[i as int]@);
        assert(rest.drop_first() =~= views(ls@).skip(i + 1));
        match failed_hook_exec(&ls[i]) {
            Some(h) => {
                let mut m = to_chars("hook `");
                extend(&mut m, &h);
                extend_str(&mut m, "` failed");
                let m = from_chars(&m);
                let f = note("pre_commit", check_name, m.as_str(), Severity::Error);
                out.push(f);
                assert(findings_view(out@) =~= findings_view(old_out) + seq![f@]);
            },
            None => {},
        }
        i += 1;
    }
    assert(views(ls@).skip(n as int) =~= Seq::<Seq<char>>::empty());
    assert(findings_view(out@) + Seq::<FindingView>::empty() =~= findings_view(out@));
    out
}

pub open spec fn spec_hooks_message(n: nat) -> Seq<char> {
    "pre-commit failed ("@ + decimal(n) + " hook"@ + plural(n) + ")"@
}

pub open spec fn spec_outcome_to_verdict(
    check: Seq<char>,
    status_code: Option<i32>,
    stdout: Seq<char>,
    stderr: Seq<char>,
    warning: Option<Seq<char>>,
) -> VerdictView {
    match status_code {
        Some(code) => if code == 0 {
            match warning {
                Some(w) => VerdictView::Warn {
                    findings: seq![spec_note("pre_commit"@, check, w, Severity::Warn)],
                    message: Some(w),
                },
                None => VerdictView::Pass,
            }
        } else if code == 1 {
            let hooks = spec_parse_failed_hooks(check, stdout);
            let rows = if hooks.len() == 0 {
                let detail = if trim(stderr).len() == 0 {
                    "pre-commit reported failures for check `"@ + check + "`"@
                } else {
                    "pre-commit reported failures for check `"@ + check + "`"@ + ": "@ + trim(
                        stderr,
                    )
                };
                seq![spec_note("pre_commit"@, check, detail, Severity::Error)]
            } else {
                hooks
            };
            let findings = warning_rows("pre_commit"@, check, warning) + rows;
            VerdictView::Fail {
                findings,
                message: spec_hooks_message(count_severity(findings, Severity::Error)),
            }
        } else {
            let head = "pre-commit `"@ + check + "` exited with unexpected status "@
                + signed_decimal(code as int);
            let detail = if trim(stderr).len() == 0 {
                head + "; this usually means a tooling error inside pre-commit itself"@
            } else {
                head + ": "@ + trim(stderr)
            };
            spec_fail_with_warning("pre_commit"@, check, detail, warning)
        },
        None => spec_fail_with_warning(
            "pre_commit"@,
            check,
            "pre-commit `"@ + check + "` was terminated before producing an exit code"@,
            warning,
        ),
    }
}

/// Exit 0 passes (a `Warn` with the version warning when there is one).
/// Exit 1 fails with one finding per failed hook, or a generic finding
/// when none could be read, and counts the failed hooks in the message.
/// Other exit codes, and a command killed before exiting, fail with a
/// detail. The version warning is the first finding of a failure.
pub fn outcome_to_verdict(
    check_name: &str,
    outcome: &ShellOutcome,
    version_warning: Option<&str>,
) -> (r: Verdict)
    ensures
        r@ == spec_outcome_to_verdict(
            check_name@,
            outcome.status_code,
            outcome.stdout@,
            outcome.stderr@,
            opt_str_view(version_warning),
        ),
{
    match outcome.status_code {
        Some(code) => {
            if code == 0 {
                return match version_warning {
                    Some(w) => {
                        let findings = vec![note("pre_commit", check_name, w, Severity::Warn)];
                        assert(findings_view(findings@) =~= seq![
                            spec_note("pre_commit"@, check_name@, w@, Severity::Warn),
                        ]);
                        Verdict::Warn { findings, message: Some(from_chars(&to_chars(w))) }
                    },
                    None => Verdict::Pass,
                };
            }
            let t = trim_exec(&to_chars(outcome.stderr.as_str()));
            if code == 1 {
                let mut rows = parse_failed_hooks(check_name, outcome.stdout.as_str());
                if rows.len() == 0 {
                    let mut d = to_chars("pre-commit reported failures for check `");
                    extend_str(&mut d, check_name);
                    extend_str(&mut d, "`");
                    if t.len() > 0 {
                        extend_str(&mut d, ": ");
                        extend(&mut d, &t);
                    }
                    let d = from_chars(&d);
                    let f = note("pre_commit", check_name, d.as_str(), Severity::Error);
                    rows.push(f);
                    assert(findings_view(rows@) =~= seq![f@]);
                }
                let mut findings: Vec<Finding> = Vec::new();
                match version_warning {
                    Some(w) => {
                        findings.push(note("pre_commit", check_name, w, Severity::Warn));
                    },
                    None => {},
                }
                let ghost warn_rows = findings_view(findings@);
                assert(warn_rows =~= warning_rows(
                    "pre_commit"@,
                    check_name@,
                    opt_str_view(version_warning),
                ));
                let ghost rows_v = findings_view(rows@);
                findings.append(&mut rows);
                assert(findings_view(findings@) =~= warn_rows + rows_v);
                let n = count_exec(&findings, Severity::Error);
                let mut m = to_chars("pre-commit failed (");
                push_decimal(&mut m, n);
                extend_str(&mut m, " hook");
                push_plural(&mut m, n);
                extend_str(&mut m, ")");
                Verdict::Fail { findings, message: from_chars(&m) }
            } else {
                let mut d = to_chars("pre-commit `");
                extend_str(&mut d, check_name);
                extend_str(&mut d, "` exited with unexpected status ");
                push_signed_decimal(&mut d, code);
                if t.len() == 0 {
                    extend_str(&mut d, "; this usually means a tooling error inside pre-commit itself");
                } else {
                    extend_str(&mut d, ": ");
                    extend(&mut d, &t);
                }
                fail_with_optional_warning("pre_commit", check_name, from_chars(&d), version_warning)
            }
        },
        None => {
            let mut d = to_chars("pre-commit `");
            extend_str(&mut d, check_name);
            extend_str(&mut d, "` was terminated before producing an exit code");
            fail_with_optional_warning("pre_commit", check_name, from_chars(&d), version_warning)
        },
    }
}

/// Source for `type = "pre_commit"` checks. Stateless.
#[derive(Clone, Copy, Debug, Default)]
pub struct PreCommitSource {}

impl PreCommitSource {
    pub fn new() -> (r: PreCommitSource) {
        PreCommitSource {  }
    }

    /// `"pre_commit"`.
    pub fn source_id(&self) -> (r: &'static str)
        ensures
            r@ == "pre_commit"@,
    {
        "pre_commit"
    }

    /// Claims exactly the `type = "pre_commit"` checks.
    pub fn supports_config(&self, config: &CheckConfig) -> (r: bool)
        ensures
            r == config.source is PreCommit,
    {
        matches!(config.source, CheckSourceConfig::PreCommit { .. })
    }

    /// The command to spawn for the firing git event; the hook stage
    /// defaults to `pre-commit`. A check of another type is an error.
    pub fn start(&self, config: &CheckConfig, event: GitEvent) -> (r: Result<
        SourceStep,
        CheckSourceError,
    >)
        ensures
            !(config.source is PreCommit) <==> r is Err,
            config.source is PreCommit ==> match r {
                Ok(SourceStep::Spawn { command, timeout_secs }) => timeout_secs == spec_timeout_secs(
                    *config,
                ) && command@ == spec_build_command(
                    event,
                    match config.source->PreCommit_hook_stage {
                        Some(h) => h@,
                        None => "pre-commit"@,
                    },
                    opt_view(config.source->PreCommit_config_path),
                ),
                _ => false,
            },
    {
        match &config.source {
            CheckSourceConfig::PreCommit { hook_stage, config_path } => {
                let stage = match hook_stage {
                    Some(h) => h.as_str(),
                    None => "pre-commit",
                };
                let cp = match config_path {
                    Some(p) => Some(p.as_str()),
                    None => None,
                };
                let command = build_command(event, stage, cp);
                Ok(SourceStep::Spawn { command, timeout_secs: timeout_secs(config) })
            },
            other => {
                let mut msg = to_chars("PreCommitSource cannot run a `");
                extend_str(&mut msg, source_kind(other));
                extend_str(&mut msg, "` check");
                Err(CheckSourceError::Other(from_chars(&msg)))
            },
        }
    }

    /// The result for the finished command.
    pub fn finish(
        &self,
        config: &CheckConfig,
        outcome: ShellOutcome,
        version_warning: Option<&str>,
    ) -> (r: CheckResult)
        ensures
            r.source_id@ == "pre_commit"@,
            r.check_name@ == config.name@,
            r.verdict@ == spec_outcome_to_verdict(
                config.name@,
                outcome.status_code,
                outcome.stdout@,
                outcome.stderr@,
                opt_str_view(version_warning),
            ),
            opt_view(r.raw_stdout) == Some(outcome.stdout@),
            opt_view(r.raw_stderr) == Some(outcome.stderr@),
    {
        let verdict = outcome_to_verdict(config.name.as_str(), &outcome, version_warning);
        CheckResult {
            source_id: from_chars(&to_chars("pre_commit")),
            check_name: from_chars(&to_chars(config.name.as_str())),
            verdict,
            raw_stdout: Some(outcome.stdout),
            raw_stderr: Some(outcome.stderr),
        }
    }
}

} // verus!
