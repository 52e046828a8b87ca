//! `type = "shell"`: runs the configured command with `sh -c` in the
//! repository root (with `KLASP_BASE_REF` exported) and maps its exit
//! code: 0 passes, anything else fails with the trimmed stderr.

use vstd::prelude::*;

use crate::json::{json_get, JsonValue};
use crate::model::{
    findings_view, opt_view, CheckConfig, CheckResult, CheckSourceConfig, Finding, FindingView,
    Severity, ShellOutcome, Verdict, VerdictView,
};
use crate::sources::{source_kind, spec_timeout_secs, timeout_secs, CheckSourceError, SourceStep};
use crate::text::{
    extend, extend_str, from_chars, push_signed_decimal, signed_decimal, split_char, split_on_char,
    strip_leading, strip_leading_exec, to_chars, trim, trim_exec, views,
};

verus! {

pub open spec fn shell_failure(check: Seq<char>, detail: Seq<char>) -> VerdictView {
    VerdictView::Fail {
        findings: seq![
            FindingView {
                rule: "shell:"@ + check,
                message: detail,
                file: None,
                line: None,
                severity: Severity::Error,
            },
        ],
        message: detail,
    }
}

pub open spec fn spec_exit_status_to_verdict(
    check: Seq<char>,
    code: Option<i32>,
    stderr: Seq<char>,
) -> VerdictView {
    match code {
        Some(c) => if c == 0 {
            VerdictView::Pass
        } else {
            let head = "check `"@ + check + "` exited with status "@ + signed_decimal(c as int);
            shell_failure(
                check,
                if trim(stderr).len() == 0 {
                    head
                } else {
                    head + ": "@ + trim(stderr)
                },
            )
        },
        None => shell_failure(
            check,
            "check `"@ + check + "` was terminated before producing an exit code"@,
        ),
    }
}

fn shell_failure_exec(check_name: &str, detail: String) -> (r: Verdict)
    ensures
        r@ == shell_failure(check_name@, detail@),
{
    let mut rule = to_chars("shell:");
    extend_str(&mut rule, check_name);
    let f = Finding {
        rule: from_chars(&rule),
        message: from_chars(&to_chars(detail.as_str())),
        file: None,
        line: None,
        severity: Severity::Error,
    };
    let findings = vec![f];
    assert(findings_view(findings@) =~= seq![f@]);
    Verdict::Fail { findings, message: detail }
}

/// Exit 0 passes; any other code fails with ``check `<name>` exited with
/// status N: <stderr>``; a command killed before exiting fails too. The
/// one finding has rule `shell:<name>`.
pub fn exit_status_to_verdict(check_name: &str, code: Option<i32>, stderr: &str) -> (r: Verdict)
    ensures
        r@ == spec_exit_status_to_verdict(check_name@, code, stderr@),
{
    match code {
        Some(c) => {
            if c == 0 {
                return Verdict::Pass;
            }
            let mut d = to_chars("check `");
            extend_str(&mut d, check_name);
            extend_str(&mut d, "` exited with status ");
            push_signed_decimal(&mut d, c);
            let t = trim_exec(&to_chars(stderr));
            if t.len() > 0 {
                extend_str(&mut d, ": ");
                extend(&mut d, &t);
            }
            shell_failure_exec(check_name, from_chars(&d))
        },
        None => {
            let mut d = to_chars("check `");
            extend_str(&mut d, check_name);
            extend_str(&mut d, "` was terminated before producing an exit code");
            shell_failure_exec(check_name, from_chars(&d))
        },
    }
}

/// Follow `get` through each segment in turn.
pub open spec fn walk(v: JsonValue, segs: Seq<Seq<char>>) -> Option<JsonValue>
    decreases segs.len(),
{
    if segs.len() == 0 {
        Some(v)
    } else {
        match json_get(v, segs[0]) {
            Some(next) => walk(next, segs.drop_first()),
            None => None,
        }
    }
}

pub open spec fn spec_extract_verdict_path(v: JsonValue, path: Seq<char>) -> Option<JsonValue> {
    let trimmed = strip_leading(path, '.');
    if trimmed.len() == 0 {
        Some(v)
    } else {
        walk(v, split_char(trimmed, '.'))
    }
}

/// The value at a dot-notation path (`.verdict`, `.results.summary.verdict`)
/// of a JSON document: leading dots are ignored, an empty path is the whole
/// document, and each segment is an object member.
pub fn extract_verdict_path<'a>(value: &'a JsonValue, path: &str) -> (r: Option<&'a JsonValue>)
    ensures
        match r {
            Some(x) => spec_extract_verdict_path(*value, path@) == Some(*x),
            None => spec_extract_verdict_path(*value, path@) is None,
        },
{
    let trimmed = strip_leading_exec(&to_chars(path), '.');
    if trimmed.len() == 0 {
        return Some(value);
    }
    let segs = split_on_char(&trimmed, '.');
    let n = segs.len();
    let mut cursor = value;
    let mut i: usize = 0;
    assert(views(segs@).skip(0) =~= views(segs@));
    while i < n
        invariant
            n == segs@.len(),
            i <= n,
            views(segs@) == split_char(trimmed@, '.'),
            trimmed@ == strip_leading(path@, '.'),
            trimmed@.len() > 0,
            spec_extract_verdict_path(*value, path@) == walk(*cursor, views(segs@).skip(i as int)),
        decreases n - i,
    {
        let ghost rest = views(segs@).skip(i as int);
        assert(rest[0] == segs@[i as int]@);
        assert(rest.drop_first() =~= views(segs@).skip(i + 1));
        let seg = from_chars(&segs[i]);
        match cursor.get(seg.as_str()) {
            Some(next) => {
                cursor = next;
            },
            None => return None,
        }
        i += 1;
    }
    Some(cursor)
}

/// Source for `type = "shell"` checks. Stateless.
#[derive(Clone, Copy, Debug, Default)]
pub struct ShellSource {}

impl ShellSource {
    pub fn new() -> (r: ShellSource) {
        ShellSource {  }
    }

    /// `"shell"`.
    pub fn source_id(&self) -> (r: &'static str)
        ensures
            r@ == "shell"@,
    {
        "shell"
    }

    /// Claims exactly the `type = "shell"` checks.
    pub fn supports_config(&self, config: &CheckConfig) -> (r: bool)
        ensures
            r == config.source is Shell,
    {
        matches!(config.source, CheckSourceConfig::Shell { .. })
    }

    /// The configured command and timeout. A check of another type is an
    /// error.
    pub fn start(&self, config: &CheckConfig) -> (r: Result<SourceStep, CheckSourceError>)
        ensures
            !(config.source is Shell) <==> r is Err,
            config.source is Shell ==> match r {
                Ok(SourceStep::Spawn { command, timeout_secs }) => timeout_secs == spec_timeout_secs(
                    *config,
                ) && command@ == config.source->Shell_command@,
                _ => false,
            },
    {
        match &config.source {
            CheckSourceConfig::Shell { command } => Ok(
                SourceStep::Spawn {
                    command: from_chars(&to_chars(command.as_str())),
                    timeout_secs: timeout_secs(config),
                },
            ),
            other => {
                let mut msg = to_chars("ShellSource cannot run a `");
                extend_str(&mut msg, source_kind(other));
                extend_str(&mut msg, "` check");
                Err(CheckSourceError::Other(from_chars(&msg)))
            },
        }
    }

    /// The result for the finished command.
    pub fn finish(&self, config: &CheckConfig, outcome: ShellOutcome) -> (r: CheckResult)
        ensures
            r.source_id@ == "shell"@,
            r.check_name@ == config.name@,
            r.verdict@ == spec_exit_status_to_verdict(
                config.name@,
                outcome.status_code,
                outcome.stderr@,
            ),
            opt_view(r.raw_stdout) == Some(outcome.stdout@),
            opt_view(r.raw_stderr) == Some(outcome.stderr@),
    {
        let verdict = exit_status_to_verdict(
            config.name.as_str(),
            outcome.status_code,
            outcome.stderr.as_str(),
        );
        CheckResult {
            source_id: from_chars(&to_chars("shell")),
            check_name: from_chars(&to_chars(config.name.as_str())),
            verdict,
            raw_stdout: Some(outcome.stdout),
            raw_stderr: Some(outcome.stderr),
        }
    }
}

} // verus!
