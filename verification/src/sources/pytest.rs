//! `type = "pytest"`: runs `pytest [-c <config>] [--junitxml=<report>]
//! [<extra_args>]` and maps pytest's exit codes to a verdict, with one
//! finding per failed test when a JUnit report was written.

pub mod junit;

use vstd::prelude::*;

use crate::model::{
    findings_view, opt_view, CheckConfig, CheckResult, CheckSourceConfig, Finding, Severity,
    ShellOutcome, Verdict, VerdictView,
};
use crate::sources::pytest::junit::{
    collect_failures, spec_collect_failures, spec_summarise_failures, summarise_failures,
};
use crate::sources::recipe_util::{
    fail_with_optional_warning, note, opt_str_view, shell_quote_chars, spec_fail_with_warning,
    spec_note, spec_shell_quote, warning_rows,
};
use crate::sources::{source_kind, spec_timeout_secs, timeout_secs, CheckSourceError, SourceStep};
use crate::text::{
    extend, extend_str, from_chars, push_signed_decimal, signed_decimal, to_chars, trim, trim_exec,
};

verus! {

/// Lowest pytest release whose JUnit report and exit codes the recipe
/// reads.
pub const MIN_SUPPORTED_VERSION: (u32, u32) = (7, 0);

/// Where the JUnit report is written, relative to the repository root,
/// when a check asks for one.
pub const JUNIT_REPORT_PATH: &'static str = ".klasp-pytest-junit.xml";

pub open spec fn spec_build_command(
    extra_args: Option<Seq<char>>,
    config_path: Option<Seq<char>>,
    junit_path: Option<Seq<char>>,
) -> Seq<char> {
    let config = match config_path {
        Some(p) => " -c "@ + spec_shell_quote(p),
        None => Seq::empty(),
    };
    let junit = match junit_path {
        Some(p) => " --junitxml="@ + spec_shell_quote(p),
        None => Seq::empty(),
    };
    let extra = match extra_args {
        Some(e) => if trim(e).len() > 0 {
            " "@ + trim(e)
        } else {
            Seq::empty()
        },
        None => Seq::empty(),
    };
    "pytest"@ + config + junit + extra
}

/// `pytest`, then `-c <config>` and `--junitxml=<report>` (both quoted)
/// when given, then the trimmed `extra_args` unless blank.
pub fn build_command(
    extra_args: Option<&str>,
    config_path: Option<&str>,
    junit_path: Option<&str>,
) -> (r: String)
    ensures
        r@ == spec_build_command(
            opt_str_view(extra_args),
            opt_str_view(config_path),
            opt_str_view(junit_path),
        ),
{
    let mut out = to_chars("pytest");
    let ghost s0 = out@;
    match config_path {
        Some(p) => {
            extend_str(&mut out, " -c ");
            extend(&mut out, &shell_quote_chars(&to_chars(p)));
        },
        None => {},
    }
    let ghost s1 = out@;
    match junit_path {
        Some(p) => {
            extend_str(&mut out, " --junitxml=");
            extend(&mut out, &shell_quote_chars(&to_chars(p)));
        },
        None => {},
    }
    let ghost s2 = out@;
    match extra_args {
        Some(e) => {
            let t = trim_exec(&to_chars(e));
            if t.len() > 0 {
                extend_str(&mut out, " ");
                extend(&mut out, &t);
            }
        },
        None => {},
    }
    proof {
        let cfg = match opt_str_view(config_path) {
            Some(p) => " -c "@ + spec_shell_quote(p),
            None => Seq::<char>::empty(),
        };
        let jn = match opt_str_view(junit_path) {
            Some(p) => " --junitxml="@ + spec_shell_quote(p),
            None => Seq::<char>::empty(),
        };
        assert(s1 =~= s0 + cfg);
        assert(s2 =~= s0 + cfg + jn);
        assert(out@ =~= spec_build_command(
            opt_str_view(extra_args),
            opt_str_view(config_path),
            opt_str_view(junit_path),
        ));
    }
    from_chars(&out)
}

pub open spec fn exit_cause(code: i32) -> Seq<char> {
    if code == 2 {
        "test run was interrupted by the user (KeyboardInterrupt)"@
    } else if code == 3 {
        "internal error happened while executing tests"@
    } else if code == 4 {
        "pytest command line usage error"@
    } else {
        "pytest exited with an unexpected status"@
    }
}

pub open spec fn spec_exit_code_detail(check: Seq<char>, code: i32, stderr_trimmed: Seq<char>) -> Seq<
    char,
> {
    let head = "pytest `"@ + check + "` exit "@ + signed_decimal(code as int) + ": "@ + exit_cause(
        code,
    );
    if stderr_trimmed.len() == 0 {
        head
    } else {
        head + ": "@ + stderr_trimmed
    }
}

/// Detail for an exit code pytest documents (2 interrupted, 3 internal
/// error, 4 usage error) or any other unexpected one, followed by the
/// trimmed stderr when there is some.
pub fn exit_code_detail(check_name: &str, code: i32, stderr_trimmed: &str) -> (r: String)
    ensures
        r@ == spec_exit_code_detail(check_name@, code, stderr_trimmed@),
{
    let cause = if code == 2 {
        "test run was interrupted by the user (KeyboardInterrupt)"
    } else if code == 3 {
        "internal error happened while executing tests"
    } else if code == 4 {
        "pytest command line usage error"
    } else {
        "pytest exited with an unexpected status"
    };
    let mut out = to_chars("pytest `");
    extend_str(&mut out, check_name);
    extend_str(&mut out, "` exit ");
    push_signed_decimal(&mut out, code);
    extend_str(&mut out, ": ");
    extend_str(&mut out, cause);
    let st = to_chars(stderr_trimmed);
    if st.len() > 0 {
        extend_str(&mut out, ": ");
        extend(&mut out, &st);
    }
    from_chars(&out)
}

pub open spec fn spec_failures_detail(check: Seq<char>, stderr: Seq<char>) -> Seq<char> {
    if trim(stderr).len() == 0 {
        "pytest `"@ + check + "` reported test failures"@
    } else {
        "pytest `"@ + check + "` reported test failures"@ + ": "@ + trim(stderr)
    }
}

pub open spec fn spec_outcome_to_verdict(
    check: Seq<char>,
    status_code: Option<i32>,
    stderr: Seq<char>,
    junit_xml: Option<Seq<char>>,
    warning: Option<Seq<char>>,
) -> VerdictView {
    match status_code {
        Some(code) => if code == 0 || code == 5 {
            match warning {
                Some(w) => VerdictView::Warn {
                    findings: seq![spec_note("pytest"@, check, w, Severity::Warn)],
                    message: Some(w),
                },
                None => VerdictView::Pass,
            }
        } else if code == 1 {
            let fs = match junit_xml {
                Some(x) => spec_collect_failures(check, x),
                None => Seq::empty(),
            };
            if fs.len() == 0 {
                let detail = spec_failures_detail(check, stderr);
                VerdictView::Fail {
                    findings: warning_rows("pytest"@, check, warning) + seq![
                        spec_note("pytest"@, check, detail, Severity::Error),
                    ],
                    message: detail,
                }
            } else {
                VerdictView::Fail {
                    findings: warning_rows("pytest"@, check, warning) + fs,
                    message: spec_summarise_failures(fs.len()),
                }
            }
        } else {
            spec_fail_with_warning(
                "pytest"@,
                check,
                spec_exit_code_detail(check, code, trim(stderr)),
                warning,
            )
        },
        None => spec_fail_with_warning(
            "pytest"@,
            check,
            "pytest `"@ + check + "` was terminated before producing an exit code"@,
            warning,
        ),
    }
}

/// Exit 0 and exit 5 (no tests collected, the usual case of a commit that
/// staged no Python) pass, as a `Warn` when there is a version warning.
/// Exit 1 fails with one finding per failed test of the JUnit report, or
/// a generic finding when there are none. Other codes, and a command
/// killed before exiting, fail with a detail. The version warning is the
/// first finding of a failure.
pub fn outcome_to_verdict(
    check_name: &str,
    outcome: &ShellOutcome,
    junit_xml: Option<&str>,
    version_warning: Option<&str>,
) -> (r: Verdict)
    ensures
        r@ == spec_outcome_to_verdict(
            check_name@,
            outcome.status_code,
            outcome.stderr@,
            opt_str_view(junit_xml),
            opt_str_view(version_warning),
        ),
{
    match outcome.status_code {
        Some(code) => {
            if code == 0 || code == 5 {
                return match version_warning {
                    Some(w) => {
                        let findings = vec![note("pytest", check_name, w, Severity::Warn)];
                        assert(findings_view(findings@) =~= seq![
                            spec_note("pytest"@, check_name@, w@, Severity::Warn),
                        ]);
                        Verdict::Warn { findings, message: Some(from_chars(&to_chars(w))) }
                    },
                    None => Verdict::Pass,
                };
            }
            if code == 1 {
                let mut findings: Vec<Finding> = Vec::new();
                match version_warning {
                    Some(w) => {
                        findings.push(note("pytest", check_name, w, Severity::Warn));
                    },
                    None => {},
                }
                let ghost warn_rows = findings_view(findings@);
                assert(warn_rows =~= warning_rows(
                    "pytest"@,
                    check_name@,
                    opt_str_view(version_warning),
                ));
                let fs = match junit_xml {
                    Some(x) => collect_failures(check_name, x),
                    None => Vec::new(),
                };
                assert(findings_view(fs@) == match opt_str_view(junit_xml) {
                    Some(x) => spec_collect_failures(check_name@, x),
                    None => Seq::empty(),
                });
                if fs.len() == 0 {
                    let mut d = to_chars("pytest `");
                    extend_str(&mut d, check_name);
                    extend_str(&mut d, "` reported test failures");
                    let t = trim_exec(&to_chars(outcome.stderr.as_str()));
                    if t.len() > 0 {
                        extend_str(&mut d, ": ");
                        extend(&mut d, &t);
                    }
                    let detail = from_chars(&d);
                    findings.push(note("pytest", check_name, detail.as_str(), Severity::Error));
                    assert(findings_view(findings@) =~= warn_rows + seq![
                        spec_note("pytest"@, check_name@, detail@, Severity::Error),
                    ]);
                    Verdict::Fail { findings, message: detail }
                } else {
                    let message = summarise_failures(&fs);
                    let mut fs = fs;
                    findings.append(&mut fs);
                    assert(findings_view(findings@) =~= warn_rows + match opt_str_view(junit_xml) {
                        Some(x) => spec_collect_failures(check_name@, x),
                        None => Seq::empty(),
                    });
                    Verdict::Fail { findings, message }
                }
            } else {
                let t = from_chars(&trim_exec(&to_chars(outcome.stderr.as_str())));
                let detail = exit_code_detail(check_name, code, t.as_str());
                fail_with_optional_warning("pytest", check_name, detail, version_warning)
            }
        },
        None => {
            let mut d = to_chars("pytest `");
            extend_str(&mut d, check_name);
            extend_str(&mut d, "` was terminated before producing an exit code");
            fail_with_optional_warning("pytest", check_name, from_chars(&d), version_warning)
        },
    }
}

/// Source for `type = "pytest"` checks. Stateless.
#[derive(Clone, Copy, Debug, Default)]
pub struct PytestSource {}

/// Whether a check asks for a JUnit report.
pub open spec fn spec_wants_junit(config: CheckConfig) -> bool {
    match config.source {
        CheckSourceConfig::Pytest { junit_xml, .. } => junit_xml == Some(true),
        _ => false,
    }
}

impl PytestSource {
    pub fn new() -> (r: PytestSource) {
        PytestSource {  }
    }

    /// `"pytest"`.
    pub fn source_id(&self) -> (r: &'static str)
        ensures
            r@ == "pytest"@,
    {
        "pytest"
    }

    /// Claims exactly the `type = "pytest"` checks.
    pub fn supports_config(&self, config: &CheckConfig) -> (r: bool)
        ensures
            r == config.source is Pytest,
    {
        matches!(config.source, CheckSourceConfig::Pytest { .. })
    }

    /// Whether the run writes a JUnit report (`junit_xml = true`) that the
    /// caller reads back for [`PytestSource::finish`].
    pub fn wants_junit(&self, config: &CheckConfig) -> (r: bool)
        ensures
            r == spec_wants_junit(*config),
    {
        match &config.source {
            CheckSourceConfig::Pytest { junit_xml, .. } => match junit_xml {
                Some(b) => *b,
                None => false,
            },
            _ => false,
        }
    }

    /// The command to spawn; `report_path` is where the JUnit report goes
    /// when the check asks for one. A check of another type is an error.
    pub fn start(&self, config: &CheckConfig, report_path: &str) -> (r: Result<
        SourceStep,
        CheckSourceError,
    >)
        ensures
            !(config.source is Pytest) <==> r is Err,
            config.source is Pytest ==> match r {
                Ok(SourceStep::Spawn { command, timeout_secs }) => timeout_secs == spec_timeout_secs(
                    *config,
                ) && command@ == spec_build_command(
                    opt_view(config.source->Pytest_extra_args),
                    opt_view(config.source->Pytest_config_path),
                    if spec_wants_junit(*config) {
                        Some(report_path@)
                    } else {
                        None
                    },
                ),
                _ => false,
            },
    {
        match &config.source {
            CheckSourceConfig::Pytest { extra_args, config_path, .. } => {
                let junit = if self.wants_junit(config) {
                    Some(report_path)
                } else {
                    None
                };
                let extra = match extra_args {
                    Some(e) => Some(e.as_str()),
                    None => None,
                };
                let cp = match config_path {
                    Some(p) => Some(p.as_str()),
                    None => None,
                };
                let command = build_command(extra, cp, junit);
                Ok(SourceStep::Spawn { command, timeout_secs: timeout_secs(config) })
            },
            other => {
                let mut msg = to_chars("PytestSource cannot run a `");
                extend_str(&mut msg, source_kind(other));
                extend_str(&mut msg, "` check");
                Err(CheckSourceError::Other(from_chars(&msg)))
            },
        }
    }

    /// The result for the finished command, given the report's text when
    /// one was asked for and could be read.
    pub fn finish(
        &self,
        config: &CheckConfig,
        outcome: ShellOutcome,
        junit_xml: Option<&str>,
        version_warning: Option<&str>,
    ) -> (r: CheckResult)
        ensures
            r.source_id@ == "pytest"@,
            r.check_name@ == config.name@,
            r.verdict@ == spec_outcome_to_verdict(
                config.name@,
                outcome.status_code,
                outcome.stderr@,
                opt_str_view(junit_xml),
                opt_str_view(version_warning),
            ),
            opt_view(r.raw_stdout) == Some(outcome.stdout@),
            opt_view(r.raw_stderr) == Some(outcome.stderr@),
    {
        let verdict = outcome_to_verdict(config.name.as_str(), &outcome, junit_xml, version_warning);
        CheckResult {
            source_id: from_chars(&to_chars("pytest")),
            check_name: from_chars(&to_chars(config.name.as_str())),
            verdict,
            raw_stdout: Some(outcome.stdout),
            raw_stderr: Some(outcome.stderr),
        }
    }
}

/// Only a clean run lets the commit through: exit 0 (all passed) and
/// exit 5 (nothing collected) give `Pass` or `Warn`; every other exit
/// status (test failures, an interrupted run, an internal error, a
/// command line usage error, ...) and a run killed before exiting give a
/// blocking `Fail`, whatever the report and the version warning say.
pub proof fn lemma_pytest_blocks_unless_clean_exit(
    check: Seq<char>,
    status_code: Option<i32>,
    stderr: Seq<char>,
    junit_xml: Option<Seq<char>>,
    warning: Option<Seq<char>>,
)
    ensures
        spec_outcome_to_verdict(check, status_code, stderr, junit_xml, warning).is_blocking() <==> !(
        status_code == Some(0i32) || status_code == Some(5i32)),
        spec_outcome_to_verdict(check, status_code, stderr, junit_xml, warning) is Fail <==> !(
        status_code == Some(0i32) || status_code == Some(5i32)),
{
}

} // verus!
