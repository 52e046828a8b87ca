//! `type = "cargo"`: runs `cargo <subcommand> [-p <package> | --workspace]
//! [--message-format=json] [<extra_args>]` and maps the outcome to a
//! verdict. `check` / `clippy` / `build` failures are read from cargo's
//! `compiler-message` JSON stream, one finding per diagnostic; `cargo test`
//! failures from the trailing `test result:` summary line.

use vstd::prelude::*;

use crate::json::{
    array_of, bool_of, get_in, json_get, parse_json, parsed_json, str_of, u64_of, JsonValue,
};
use crate::model::{
    findings_view, opt_view, CheckConfig, CheckResult, CheckSourceConfig, Finding, FindingView,
    Severity, ShellOutcome, Verdict, VerdictView,
};
pub use crate::sources::recipe_util::shell_quote;
use crate::sources::recipe_util::{
    fail_with_optional_warning, finding, note, opt_str_view, shell_quote_chars,
    spec_fail_with_warning, spec_finding, spec_note, spec_shell_quote, version_in_tokens,
    version_in_tokens_exec, warning_rows, count_severity, count_exec, plural, push_plural,
};
use crate::sources::{source_kind, spec_timeout_secs, timeout_secs, CheckSourceError, SourceStep};
use crate::text::{
    contains, contains_str, decimal, first_nonblank, eq_str, extend, extend_str, from_chars, lines,
    parse_unsigned, parse_unsigned_exec, push_decimal, push_signed_decimal, signed_decimal,
    split_lines, split_tokens, starts_with, starts_with_str, str_eq, strip_trailing,
    strip_trailing_exec, to_chars, tokens, trim, trim_exec, trim_start, trim_start_exec, views,
};

verus! {

/// Most findings a verdict carries, so a wall of compiler errors from a
/// fresh checkout does not drown the agent's stderr.
pub const MAX_FINDINGS: usize = 50;

/// Lowest cargo release the recipe was developed against.
pub const MIN_SUPPORTED_VERSION: (u32, u32) = (1, 0);

// ---------------------------------------------------------------------------
// Command
// ---------------------------------------------------------------------------

pub open spec fn spec_build_command(
    subcommand: Seq<char>,
    package: Option<Seq<char>>,
    extra_args: Option<Seq<char>>,
) -> Seq<char> {
    let target = match package {
        Some(p) => " -p "@ + spec_shell_quote(p),
        None => " --workspace"@,
    };
    let user_format = match extra_args {
        Some(e) => contains(e, "--message-format"@),
        None => false,
    };
    let format = if subcommand != "test"@ && !user_format {
        " --message-format=json"@
    } else {
        Seq::empty()
    };
    let extra = match extra_args {
        Some(e) => if trim(e).len() > 0 {
            " "@ + trim(e)
        } else {
            Seq::empty()
        },
        None => Seq::empty(),
    };
    "cargo "@ + subcommand + target + format + extra
}

/// The `cargo ...` command handed to `sh -c`: `-p <package>` (quoted) or
/// `--workspace`; `--message-format=json` except for `test` or when the
/// user's `extra_args` already choose a message format; the trimmed
/// `extra_args` last.
pub fn build_command(subcommand: &str, package: Option<&str>, extra_args: Option<&str>) -> (r:
    String)
    ensures
        r@ == spec_build_command(subcommand@, opt_str_view(package), opt_str_view(extra_args)),
{
    let mut out = to_chars("cargo ");
    extend_str(&mut out, subcommand);
    let ghost head = out@;
    match package {
        Some(p) => {
            extend_str(&mut out, " -p ");
            let q = shell_quote_chars(&to_chars(p));
            extend(&mut out, &q);
        },
        None => {
            extend_str(&mut out, " --workspace");
        },
    }
    let ghost with_target = out@;
    let user_format = match extra_args {
        Some(e) => contains_str(&to_chars(e), "--message-format"),
        None => false,
    };
    if !str_eq(subcommand, "test") && !user_format {
        extend_str(&mut out, " --message-format=json");
    }
    let ghost with_format = out@;
    match extra_args {
        Some(e) => {
            let t = trim_exec(&to_chars(e));
            if t.len() > 0 {
                extend_str(&mut out, " ");
                extend(&mut out, &t);
            }
        },
        None => {},
    }
    proof {
        let s = spec_build_command(subcommand@, opt_str_view(package), opt_str_view(extra_args));
        assert(with_format == with_target + (if subcommand@ != "test"@ && !user_format {
            " --message-format=json"@
        } else {
            Seq::<char>::empty()
        }));
        assert(out@ =~= s);
    }
    from_chars(&out)
}

// ---------------------------------------------------------------------------
// `cargo --version`
// ---------------------------------------------------------------------------

pub open spec fn spec_parse_version(raw: Seq<char>) -> Option<(u32, u32)> {
    match first_nonblank(lines(raw)) {
        Some(line) => version_in_tokens(tokens(line)),
        None => None,
    }
}

/// `"cargo 1.79.0 (ded6e.. 2024-04-19)"` gives `Some((1, 79))`: on the
/// first non-blank line, the first whitespace-separated token whose first
/// two `.`-separated pieces parse as `u32`.
pub fn parse_version(raw: &str) -> (r: Option<(u32, u32)>)
    ensures
        r == spec_parse_version(raw@),
{
    let s = to_chars(raw);
    let ls = split_lines(&s);
    let n = ls.len();
    let mut i: usize = 0;
    assert(views(ls@).skip(0) =~= views(ls@));
    while i < n
        invariant
            n == ls@.len(),
            i <= n,
            views(ls@) == lines(raw@),
            s@ == raw@,
            first_nonblank(lines(raw@)) == first_nonblank(views(ls@).skip(i as int)),
        decreases n - i,
    {
        assert(views(ls@).skip(i as int)[0] == ls@[i as int]@);
        let t = trim_exec(&ls[i]);
        if t.len() > 0 {
            let toks = split_tokens(&ls[i], false);
            return version_in_tokens_exec(&toks);
        }
        assert(views(ls@).skip(i as int).drop_first() =~= views(ls@).skip(i + 1));
        i += 1;
    }
    None
}

// ---------------------------------------------------------------------------
// `cargo test` summary line
// ---------------------------------------------------------------------------

/// The number right before the word `kind` (a trailing `;` or `,` on the
/// word is ignored), scanning tokens left to right.
pub open spec fn count_in_tokens(toks: Seq<Seq<char>>, kind: Seq<char>) -> Option<u64>
    decreases toks.len(),
{
    if toks.len() == 0 {
        None
    } else if parse_unsigned(toks[0], u64::MAX as int) is Some && toks.len() >= 2
        && strip_trailing(strip_trailing(toks[1], ';'), ',') == kind {
        Some(parse_unsigned(toks[0], u64::MAX as int)->0 as u64)
    } else {
        count_in_tokens(toks.drop_first(), kind)
    }
}

pub open spec fn spec_parse_count(line: Seq<char>, kind: Seq<char>) -> Option<u64> {
    count_in_tokens(tokens(line), kind)
}

/// In a `test result:` line, the count reported for `kind` (`"passed"`,
/// `"failed"`, ...), or `None` when the line does not report it.
pub fn parse_count(line: &str, kind: &str) -> (r: Option<u64>)
    ensures
        r == spec_parse_count(line@, kind@),
{
    let toks = split_tokens(&to_chars(line), false);
    let n = toks.len();
    let mut i: usize = 0;
    assert(views(toks@).skip(0) =~= views(toks@));
    while i < n
        invariant
            n == toks@.len(),
            i <= n,
            views(toks@) == tokens(line@),
            spec_parse_count(line@, kind@) == count_in_tokens(views(toks@).skip(i as int), kind@),
        decreases n - i,
    {
        let ghost rest = views(toks@).skip(i as int);
        assert(rest[0] == toks@[i as int]@);
        let v = parse_unsigned_exec(&toks[i], u64::MAX);
        if v.is_some() && i + 1 < n {
            assert(rest[1] == toks@[i + 1]@);
            let a = strip_trailing_exec(&toks[i + 1], ';');
            let b = strip_trailing_exec(&a, ',');
            if eq_str(&b, kind) {
                return v;
            }
        }
        assert(rest.drop_first() =~= views(toks@).skip(i + 1));
        i += 1;
    }
    None
}

pub open spec fn is_summary_line(line: Seq<char>) -> bool {
    starts_with(trim_start(line), "test result:"@)
}

/// The last `test result:` line.
pub open spec fn last_summary(ls: Seq<Seq<char>>) -> Option<Seq<char>>
    decreases ls.len(),
{
    if ls.len() == 0 {
        None
    } else if is_summary_line(ls.last()) {
        Some(ls.last())
    } else {
        last_summary(ls.drop_last())
    }
}

pub open spec fn spec_summary_detail(line: Seq<char>) -> Seq<char> {
    let p = spec_parse_count(line, "passed"@);
    let f = spec_parse_count(line, "failed"@);
    let i = spec_parse_count(line, "ignored"@);
    if p is Some && f is Some && f->0 > 0 {
        "cargo test failed ("@ + decimal(p->0 as nat) + " passed, "@ + decimal(f->0 as nat)
            + " failed)"@
    } else if p is Some && f == Some(0u64) && i is Some && i->0 > 0 {
        "cargo test passed ("@ + decimal(p->0 as nat) + " passed, "@ + decimal(i->0 as nat)
            + " ignored)"@
    } else {
        trim(line)
    }
}

pub open spec fn spec_summarise_test_output(stdout: Seq<char>) -> Option<Seq<char>> {
    match last_summary(lines(stdout)) {
        Some(line) => Some(spec_summary_detail(line)),
        None => None,
    }
}

/// The last `test result: ...` line of a `cargo test` run, rendered as
/// `cargo test failed (4 passed, 1 failed)` when tests failed,
/// `cargo test passed (4 passed, 2 ignored)` when none failed and some were
/// ignored, and as the trimmed line otherwise; `None` when the runner never
/// printed a summary.
pub fn summarise_test_output(stdout: &str) -> (r: Option<String>)
    ensures
        opt_view(r) == spec_summarise_test_output(stdout@),
{
    let s = to_chars(stdout);
    let ls = split_lines(&s);
    let mut i = ls.len();
    assert(views(ls@).take(i as int) =~= views(ls@));
    while i > 0
        invariant
            i <= ls@.len(),
            views(ls@) == lines(stdout@),
            last_summary(lines(stdout@)) == last_summary(views(ls@).take(i as int)),
        decreases i,
    {
        let ghost pre = views(ls@).take(i as int);
        assert(pre.last() == ls@[i - 1]@);
        let ts = trim_start_exec(&ls[i - 1]);
        if starts_with_str(&ts, "test result:") {
            let line = from_chars(&ls[i - 1]);
            return Some(summary_detail(line.as_str()));
        }
        assert(pre.drop_last() =~= views(ls@).take(i - 1));
        i -= 1;
    }
    None
}

fn summary_detail(line: &str) -> (r: String)
    ensures
        r@ == spec_summary_detail(line@),
{
    let p = parse_count(line, "passed");
    let f = parse_count(line, "failed");
    let i = parse_count(line, "ignored");
    match (p, f, i) {
        (Some(p), Some(f), _) if f > 0 => {
            let mut out = to_chars("cargo test failed (");
            push_decimal(&mut out, p);
            extend_str(&mut out, " passed, ");
            push_decimal(&mut out, f);
            extend_str(&mut out, " failed)");
            from_chars(&out)
        },
        (Some(p), Some(0), Some(i)) if i > 0 => {
            let mut out = to_chars("cargo test passed (");
            push_decimal(&mut out, p);
            extend_str(&mut out, " passed, ");
            push_decimal(&mut out, i);
            extend_str(&mut out, " ignored)");
            from_chars(&out)
        },
        _ => from_chars(&trim_exec(&to_chars(line))),
    }
}

// ---------------------------------------------------------------------------
// Compiler diagnostics
// ---------------------------------------------------------------------------

pub open spec fn spec_severity_from_level(level: Seq<char>) -> Option<Severity> {
    if level == "error"@ || level == "error: internal compiler error"@ {
        Some(Severity::Error)
    } else if level == "warning"@ {
        Some(Severity::Warn)
    } else {
        None
    }
}

/// rustc's diagnostic level as a severity: errors (internal compiler
/// errors included) are `Error`, warnings `Warn`; `help`, `note` and any
/// other level are not reported.
pub fn severity_from_level(level: &str) -> (r: Option<Severity>)
    ensures
        r == spec_severity_from_level(level@),
{
    if str_eq(level, "error") || str_eq(level, "error: internal compiler error") {
        Some(Severity::Error)
    } else if str_eq(level, "warning") {
        Some(Severity::Warn)
    } else {
        None
    }
}

/// The first span marked `"is_primary": true`.
pub open spec fn first_primary(spans: Seq<JsonValue>) -> Option<JsonValue>
    decreases spans.len(),
{
    if spans.len() == 0 {
        None
    } else if bool_of(json_get(spans[0], "is_primary"@)) == Some(true) {
        Some(spans[0])
    } else {
        first_primary(spans.drop_first())
    }
}

/// The primary span, else the first span.
pub open spec fn primary_span(message: JsonValue) -> Option<JsonValue> {
    match array_of(json_get(message, "spans"@)) {
        Some(spans) => match first_primary(spans) {
            Some(s) => Some(s),
            None => if spans.len() > 0 {
                Some(spans[0])
            } else {
                None
            },
        },
        None => None,
    }
}

pub open spec fn span_line(span: Option<JsonValue>) -> Option<u32> {
    match u64_of(get_in(span, "line_start"@)) {
        Some(n) => Some(n as u32),
        None => None,
    }
}

pub open spec fn spec_diagnostic_finding(check: Seq<char>, message: JsonValue) -> Option<
    FindingView,
> {
    let level = str_of(json_get(message, "level"@));
    let text = str_of(json_get(message, "message"@));
    if level is None || spec_severity_from_level(level->0) is None || text is None {
        None
    } else {
        let level = level->0;
        let code = str_of(get_in(json_get(message, "code"@), "code"@));
        let span = primary_span(message);
        let suffix = match code {
            Some(c) => c,
            None => level,
        };
        let detail = match code {
            Some(c) => level + "["@ + c + "]: "@ + text->0,
            None => level + ": "@ + text->0,
        };
        Some(
            spec_finding(
                "cargo"@,
                check,
                suffix,
                detail,
                str_of(get_in(span, "file_name"@)),
                span_line(span),
                spec_severity_from_level(level)->0,
            ),
        )
    }
}

fn first_primary_exec(spans: &Vec<JsonValue>) -> (r: Option<&JsonValue>)
    ensures
        match r {
            Some(x) => first_primary(spans@) == Some(*x),
            None => first_primary(spans@) is None,
        },
{
    let n = spans.len();
    let mut i: usize = 0;
    assert(spans@.skip(0) =~= spans@);
    while i < n
        invariant
            n == spans@.len(),
            i <= n,
            first_primary(spans@) == first_primary(spans@.skip(i as int)),
        decreases n - i,
    {
        assert(spans@.skip(i as int)[0] == spans@[i as int]);
        let primary = match spans[i].get("is_primary") {
            Some(b) => b.as_bool(),
            None => None,
        };
        if primary == Some(true) {
            return Some(&spans[i]);
        }
        assert(spans@.skip(i as int).drop_first() =~= spans@.skip(i + 1));
        i += 1;
    }
    None
}

fn primary_span_exec(message: &JsonValue) -> (r: Option<&JsonValue>)
    ensures
        match r {
            Some(x) => primary_span(*message) == Some(*x),
            None => primary_span(*message) is None,
        },
{
    let spans = match message.get("spans") {
        Some(v) => v.as_array(),
        None => None,
    };
    match spans {
        Some(spans) => match first_primary_exec(spans) {
            Some(s) => Some(s),
            None => if spans.len() > 0 {
                Some(&spans[0])
            } else {
                None
            },
        },
        None => None,
    }
}

/// One finding for a rustc diagnostic object (the `message` member of a
/// `compiler-message` line): rule `cargo:<check>:<code or level>`, text
/// `<level>[<code>]: <message>`, location from the primary span (else the
/// first span). `None` when the level is missing or not reported, or the
/// diagnostic has no text.
pub fn build_diagnostic_finding(check_name: &str, message: &JsonValue) -> (r: Option<Finding>)
    ensures
        match r {
            Some(f) => spec_diagnostic_finding(check_name@, *message) == Some(f@),
            None => spec_diagnostic_finding(check_name@, *message) is None,
        },
{
    let level = match message.get("level") {
        Some(v) => v.as_str(),
        None => None,
    };
    let level = match level {
        Some(l) => l,
        None => return None,
    };
    let severity = match severity_from_level(level) {
        Some(s) => s,
        None => return None,
    };
    let text = match message.get("message") {
        Some(v) => v.as_str(),
        None => None,
    };
    let text = match text {
        Some(t) => t,
        None => return None,
    };
    let code = match message.get("code") {
        Some(c) => match c.get("code") {
            Some(cc) => cc.as_str(),
            None => None,
        },
        None => None,
    };
    let span = primary_span_exec(message);
    let file = match span {
        Some(sp) => match sp.get("file_name") {
            Some(f) => match f.as_str() {
                Some(f) => Some(from_chars(&to_chars(f))),
                None => None,
            },
            None => None,
        },
        None => None,
    };
    let line = match span {
        Some(sp) => match sp.get("line_start") {
            Some(l) => match l.as_u64() {
                Some(n) => Some(n as u32),
                None => None,
            },
            None => None,
        },
        None => None,
    };
    let mut detail = to_chars(level);
    let suffix = match code {
        Some(c) => {
            extend_str(&mut detail, "[");
            extend_str(&mut detail, c);
            extend_str(&mut detail, "]: ");
            c
        },
        None => {
            extend_str(&mut detail, ": ");
            level
        },
    };
    extend_str(&mut detail, text);
    let detail = from_chars(&detail);
    proof {
        let span_spec = primary_span(*message);
        assert(opt_view(file) == str_of(get_in(span_spec, "file_name"@)));
        assert(line == span_line(span_spec));
    }
    Some(finding("cargo", check_name, suffix, detail.as_str(), file, line, severity))
}

pub open spec fn line_diagnostic(check: Seq<char>, line: Seq<char>) -> Option<FindingView> {
    let t = trim(line);
    if t.len() == 0 || t[0] != '{' {
        None
    } else {
        match parsed_json(t) {
            Some(v) => if str_of(json_get(v, "reason"@)) == Some("compiler-message"@) {
                match json_get(v, "message"@) {
                    Some(m) => spec_diagnostic_finding(check, m),
                    None => None,
                }
            } else {
                None
            },
            None => None,
        }
    }
}

/// The diagnostics of `ls`, at most `cap` of them, in order.
pub open spec fn diagnostics_of_lines(check: Seq<char>, ls: Seq<Seq<char>>, cap: nat) -> Seq<
    FindingView,
>
    decreases ls.len(),
{
    if ls.len() == 0 || cap == 0 {
        Seq::empty()
    } else {
        match line_diagnostic(check, ls[0]) {
            Some(f) => seq![f] + diagnostics_of_lines(check, ls.drop_first(), (cap - 1) as nat),
            None => diagnostics_of_lines(check, ls.drop_first(), cap),
        }
    }
}

pub open spec fn spec_collect_diagnostics(check: Seq<char>, stdout: Seq<char>) -> Seq<
    FindingView,
> {
    diagnostics_of_lines(check, lines(stdout), MAX_FINDINGS as nat)
}

/// Never more than `cap` diagnostics.
pub proof fn lemma_diagnostics_capped(check: Seq<char>, ls: Seq<Seq<char>>, cap: nat)
    ensures
        diagnostics_of_lines(check, ls, cap).len() <= cap,
    decreases ls.len(),
{
    if ls.len() > 0 && cap > 0 {
        match line_diagnostic(check, ls[0]) {
            Some(f) => lemma_diagnostics_capped(check, ls.drop_first(), (cap - 1) as nat),
            None => lemma_diagnostics_capped(check, ls.drop_first(), cap),
        }
    }
}

fn line_diagnostic_exec(check_name: &str, line: &Vec<char>) -> (r: Option<Finding>)
    ensures
        match r {
            Some(f) => line_diagnostic(check_name@, line@) == Some(f@),
            None => line_diagnostic(check_name@, line@) is None,
        },
{
    let t = trim_exec(line);
    if t.len() == 0 || t[0] != '{' {
        return None;
    }
    let text = from_chars(&t);
    let v = match parse_json(text.as_str()) {
        Some(v) => v,
        None => return None,
    };
    let reason = match v.get("reason") {
        Some(r) => r.as_str(),
        None => None,
    };
    let is_message = match reason {
        Some(r) => str_eq(r, "compiler-message"),
        None => false,
    };
    if !is_message {
        return None;
    }
    match v.get("message") {
        Some(m) => build_diagnostic_finding(check_name, m),
        None => None,
    }
}

/// One finding per `compiler-message` line of cargo's JSON stream whose
/// level is reported (see [`severity_from_level`]), in order, at most
/// [`MAX_FINDINGS`]. Lines that are blank, not JSON objects, or other
/// messages are skipped.
pub fn collect_compiler_diagnostics(check_name: &str, stdout: &str) -> (r: Vec<Finding>)
    ensures
        findings_view(r@) == spec_collect_diagnostics(check_name@, stdout@),
        r@.len() <= MAX_FINDINGS,
{
    let s = to_chars(stdout);
    let ls = split_lines(&s);
    let n = ls.len();
    let mut out: Vec<Finding> = Vec::new();
    let mut i: usize = 0;
    assert(views(ls@).skip(0) =~= views(ls@));
    while i < n && out.len() < MAX_FINDINGS
        invariant
            n == ls@.len(),
            i <= n,
            out@.len() <= MAX_FINDINGS,
            views(ls@) == lines(stdout@),
            findings_view(out@) + diagnostics_of_lines(
                check_name@,
                views(ls@).skip(i as int),
                (MAX_FINDINGS - out@.len()) as nat,
            ) == spec_collect_diagnostics(check_name@, stdout@),
        decreases n - i,
    {
        let ghost rest = views(ls@).skip(i as int);
        let ghost old_out = out@;
        assert(rest[0] == ls@[i as int]@);
        assert(rest.drop_first() =~= views(ls@).skip(i + 1));
        match line_diagnostic_exec(check_name, &ls[i]) {
            Some(f) => {
                out.push(f);
                assert(findings_view(out@) =~= findings_view(old_out) + seq![f@]);
            },
            None => {},
        }
        i += 1;
    }
    proof {
        let rest = views(ls@).skip(i as int);
        if i == n {
            assert(rest.len() == 0);
        }
        assert(diagnostics_of_lines(check_name@, rest, (MAX_FINDINGS - out@.len()) as nat)
            =~= Seq::<FindingView>::empty());
        assert(findings_view(out@) + Seq::<FindingView>::empty() =~= findings_view(out@));
    }
    out
}

// ---------------------------------------------------------------------------
// Verdicts
// ---------------------------------------------------------------------------

pub open spec fn spec_summarise_diagnostics(subcommand: Seq<char>, fs: Seq<FindingView>) -> Seq<
    char,
> {
    let e = count_severity(fs, Severity::Error);
    let w = count_severity(fs, Severity::Warn);
    let i = count_severity(fs, Severity::Info);
    let head = "cargo "@ + subcommand + " reported "@;
    if e == 0 && w == 0 {
        head + decimal(i) + " info note"@ + plural(i)
    } else if w == 0 {
        head + decimal(e) + " error"@ + plural(e)
    } else if e == 0 {
        head + decimal(w) + " warning"@ + plural(w)
    } else {
        head + decimal(e) + " error"@ + plural(e) + ", "@ + decimal(w) + " warning"@ + plural(w)
    }
}

/// `cargo <subcommand> reported 2 errors, 1 warning` (or only errors, only
/// warnings, or `N info notes` when there are neither).
pub fn summarise_diagnostics(subcommand: &str, findings: &Vec<Finding>) -> (r: String)
    ensures
        r@ == spec_summarise_diagnostics(subcommand@, findings_view(findings@)),
{
    let e = count_exec(findings, Severity::Error);
    let w = count_exec(findings, Severity::Warn);
    let i = count_exec(findings, Severity::Info);
    let mut out = to_chars("cargo ");
    extend_str(&mut out, subcommand);
    extend_str(&mut out, " reported ");
    if e == 0 && w == 0 {
        push_decimal(&mut out, i);
        extend_str(&mut out, " info note");
        push_plural(&mut out, i);
    } else if w == 0 {
        push_decimal(&mut out, e);
        extend_str(&mut out, " error");
        push_plural(&mut out, e);
    } else if e == 0 {
        push_decimal(&mut out, w);
        extend_str(&mut out, " warning");
        push_plural(&mut out, w);
    } else {
        push_decimal(&mut out, e);
        extend_str(&mut out, " error");
        push_plural(&mut out, e);
        extend_str(&mut out, ", ");
        push_decimal(&mut out, w);
        extend_str(&mut out, " warning");
        push_plural(&mut out, w);
    }
    from_chars(&out)
}

/// `cargo <subcommand> `<check>` failed (exit <code>)`, with `: <stderr>`
/// when the trimmed stderr is not empty.
pub open spec fn spec_exit_detail(
    subcommand: Seq<char>,
    check: Seq<char>,
    code: i32,
    stderr: Seq<char>,
) -> Seq<char> {
    let head = "cargo "@ + subcommand + " `"@ + check + "` failed (exit "@ + signed_decimal(
        code as int,
    );
    if trim(stderr).len() == 0 {
        head + ")"@
    } else {
        head + "): "@ + trim(stderr)
    }
}

fn exit_detail(subcommand: &str, check_name: &str, code: i32, stderr: &str) -> (r: String)
    ensures
        r@ == spec_exit_detail(subcommand@, check_name@, code, stderr@),
{
    let mut out = to_chars("cargo ");
    extend_str(&mut out, subcommand);
    extend_str(&mut out, " `");
    extend_str(&mut out, check_name);
    extend_str(&mut out, "` failed (exit ");
    push_signed_decimal(&mut out, code);
    let t = trim_exec(&to_chars(stderr));
    if t.len() == 0 {
        extend_str(&mut out, ")");
    } else {
        extend_str(&mut out, "): ");
        extend(&mut out, &t);
    }
    from_chars(&out)
}

pub open spec fn spec_terminated_detail(check: Seq<char>) -> Seq<char> {
    "cargo `"@ + check + "` was terminated before producing an exit code"@
}

pub open spec fn spec_outcome_to_verdict(
    check: Seq<char>,
    subcommand: Seq<char>,
    status_code: Option<i32>,
    stdout: Seq<char>,
    stderr: Seq<char>,
    warning: Option<Seq<char>>,
) -> VerdictView {
    match status_code {
        Some(code) => if code == 0 {
            match warning {
                Some(w) => VerdictView::Warn {
                    findings: seq![spec_note("cargo"@, check, w, Severity::Warn)],
                    message: Some(w),
                },
                None => VerdictView::Pass,
            }
        } else if subcommand == "test"@ {
            let detail = match spec_summarise_test_output(stdout) {
                Some(d) => d,
                None => spec_exit_detail("test"@, check, code, stderr),
            };
            VerdictView::Fail {
                findings: warning_rows("cargo"@, check, warning) + seq![
                    spec_note("cargo"@, check, detail, Severity::Error),
                ],
                message: detail,
            }
        } else {
            let diags = spec_collect_diagnostics(check, stdout);
            if diags.len() == 0 {
                let detail = spec_exit_detail(subcommand, check, code, stderr);
                VerdictView::Fail {
                    findings: warning_rows("cargo"@, check, warning) + seq![
                        spec_note("cargo"@, check, detail, Severity::Error),
                    ],
                    message: detail,
                }
            } else {
                VerdictView::Fail {
                    findings: warning_rows("cargo"@, check, warning) + diags,
                    message: spec_summarise_diagnostics(subcommand, diags),
                }
            }
        },
        None => spec_fail_with_warning("cargo"@, check, spec_terminated_detail(check), warning),
    }
}

/// Exit 0 passes (a `Warn` carrying the version warning when there is
/// one). A failing `cargo test` is summarised from its `test result:` line;
/// another failing subcommand reports its diagnostics, or the exit code and
/// stderr when it printed none. A command killed before exiting fails. Any
/// version warning is the first finding of a failure.
pub fn outcome_to_verdict(
    check_name: &str,
    subcommand: &str,
    outcome: &ShellOutcome,
    version_warning: Option<&str>,
) -> (r: Verdict)
    ensures
        r@ == spec_outcome_to_verdict(
            check_name@,
            subcommand@,
            outcome.status_code,
            outcome.stdout@,
            outcome.stderr@,
            opt_str_view(version_warning),
        ),
{
    match outcome.status_code {
        Some(code) => {
            if code == 0 {
                return match version_warning {
                    Some(w) => {
                        let findings = vec![note("cargo", check_name, w, Severity::Warn)];
                        assert(findings_view(findings@) =~= seq![
                            spec_note("cargo"@, check_name@, w@, Severity::Warn),
                        ]);
                        Verdict::Warn { findings, message: Some(from_chars(&to_chars(w))) }
                    },
                    None => Verdict::Pass,
                };
            }
            let mut findings: Vec<Finding> = Vec::new();
            match version_warning {
                Some(w) => {
                    findings.push(note("cargo", check_name, w, Severity::Warn));
                },
                None => {},
            }
            let ghost warn_rows = findings_view(findings@);
            assert(warn_rows =~= warning_rows("cargo"@, check_name@, opt_str_view(version_warning)));
            if str_eq(subcommand, "test") {
                let detail = match summarise_test_output(outcome.stdout.as_str()) {
                    Some(d) => d,
                    None => exit_detail("test", check_name, code, outcome.stderr.as_str()),
                };
                findings.push(note("cargo", check_name, detail.as_str(), Severity::Error));
                assert(findings_view(findings@) =~= warn_rows + seq![
                    spec_note("cargo"@, check_name@, detail@, Severity::Error),
                ]);
                Verdict::Fail { findings, message: detail }
            } else {
                let diags = collect_compiler_diagnostics(check_name, outcome.stdout.as_str());
                if diags.len() == 0 {
                    let detail = exit_detail(subcommand, check_name, code, outcome.stderr.as_str());
                    findings.push(note("cargo", check_name, detail.as_str(), Severity::Error));
                    assert(findings_view(findings@) =~= warn_rows + seq![
                        spec_note("cargo"@, check_name@, detail@, Severity::Error),
                    ]);
                    Verdict::Fail { findings, message: detail }
                } else {
                    let message = summarise_diagnostics(subcommand, &diags);
                    let ghost before = findings@;
                    let mut diags = diags;
                    findings.append(&mut diags);
                    assert(findings_view(findings@) =~= warn_rows + spec_collect_diagnostics(
                        check_name@,
                        outcome.stdout@,
                    ));
                    Verdict::Fail { findings, message }
                }
            }
        },
        None => {
            let mut detail = to_chars("cargo `");
            extend_str(&mut detail, check_name);
            extend_str(&mut detail, "` was terminated before producing an exit code");
            fail_with_optional_warning("cargo", check_name, from_chars(&detail), version_warning)
        },
    }
}

// ---------------------------------------------------------------------------
// The source
// ---------------------------------------------------------------------------

/// Source for `type = "cargo"` checks. Stateless.
#[derive(Clone, Copy, Debug, Default)]
pub struct CargoSource {}

/// The subcommands the recipe runs.
pub open spec fn allowed_subcommand(sub: Seq<char>) -> bool {
    sub == "check"@ || sub == "clippy"@ || sub == "test"@ || sub == "build"@
}

pub open spec fn spec_unknown_subcommand_detail(check: Seq<char>, sub: Seq<char>) -> Seq<char> {
    "cargo recipe `"@ + check + "`: unknown subcommand `"@ + sub
        + "` (expected one of: check, clippy, test, build)"@
}

pub open spec fn spec_cargo_start(config: CheckConfig, warning: Option<Seq<char>>) -> Result<
    (Seq<char>, u64),
    VerdictView,
> {
    match config.source {
        CheckSourceConfig::Cargo { subcommand, extra_args, package } => if allowed_subcommand(
            subcommand@,
        ) {
            Ok(
                (
                    spec_build_command(subcommand@, opt_view(package), opt_view(extra_args)),
                    spec_timeout_secs(config),
                ),
            )
        } else {
            Err(
                spec_fail_with_warning(
                    "cargo"@,
                    config.name@,
                    spec_unknown_subcommand_detail(config.name@, subcommand@),
                    warning,
                ),
            )
        },
        _ => Err(VerdictView::Pass),
    }
}

impl CargoSource {
    pub fn new() -> (r: CargoSource) {
        CargoSource {  }
    }

    /// `"cargo"`.
    pub fn source_id(&self) -> (r: &'static str)
        ensures
            r@ == "cargo"@,
    {
        "cargo"
    }

    /// Claims exactly the `type = "cargo"` checks.
    pub fn supports_config(&self, config: &CheckConfig) -> (r: bool)
        ensures
            r == config.source is Cargo,
    {
        matches!(config.source, CheckSourceConfig::Cargo { .. })
    }

    /// First step of a run: an unknown subcommand fails at once (with the
    /// version warning first, when there is one); otherwise the command to
    /// spawn. A check of another type is an error.
    pub fn start(&self, config: &CheckConfig, version_warning: Option<&str>) -> (r: Result<
        SourceStep,
        CheckSourceError,
    >)
        ensures
            !(config.source is Cargo) <==> r is Err,
            config.source is Cargo ==> match (r, spec_cargo_start(*config, opt_str_view(version_warning))) {
                (Ok(SourceStep::Spawn { command, timeout_secs }), Ok((c, t))) => command@ == c
                    && timeout_secs == t,
                (Ok(SourceStep::Done(res)), Err(v)) => res.verdict@ == v && res.source_id@ == "cargo"@
                    && res.check_name@ == config.name@ && res.raw_stdout is None && res.raw_stderr is None,
                _ => false,
            },
    {
        match &config.source {
            CheckSourceConfig::Cargo { subcommand, extra_args, package } => {
                let sub = subcommand.as_str();
                if str_eq(sub, "check") || str_eq(sub, "clippy") || str_eq(sub, "test") || str_eq(sub, "build") {
                    let package = match package {
                        Some(p) => Some(p.as_str()),
                        None => None,
                    };
                    let extra = match extra_args {
                        Some(e) => Some(e.as_str()),
                        None => None,
                    };
                    let command = build_command(sub, package, extra);
                    Ok(SourceStep::Spawn { command, timeout_secs: timeout_secs(config) })
                } else {
                    let mut detail = to_chars("cargo recipe `");
                    extend_str(&mut detail, config.name.as_str());
                    extend_str(&mut detail, "`: unknown subcommand `");
                    extend_str(&mut detail, sub);
                    extend_str(&mut detail, "` (expected one of: check, clippy, test, build)");
                    let verdict = fail_with_optional_warning(
                        "cargo",
                        config.name.as_str(),
                        from_chars(&detail),
                        version_warning,
                    );
                    Ok(
                        SourceStep::Done(
                            CheckResult {
                                source_id: from_chars(&to_chars("cargo")),
                                check_name: from_chars(&to_chars(config.name.as_str())),
                                verdict,
                                raw_stdout: None,
                                raw_stderr: None,
                            },
                        ),
                    )
                }
            },
            other => {
                let mut msg = to_chars("CargoSource cannot run a `");
                extend_str(&mut msg, source_kind(other));
                extend_str(&mut msg, "` check");
                Err(CheckSourceError::Other(from_chars(&msg)))
            },
        }
    }

    /// Last step of a run: the verdict for the finished command, with its
    /// stdout and stderr kept raw.
    pub fn finish(
        &self,
        config: &CheckConfig,
        outcome: ShellOutcome,
        version_warning: Option<&str>,
    ) -> (r: CheckResult)
        requires
            config.source is Cargo,
        ensures
            r.source_id@ == "cargo"@,
            r.check_name@ == config.name@,
            r.verdict@ == spec_outcome_to_verdict(
                config.name@,
                config.source->Cargo_subcommand@,
                outcome.status_code,
                outcome.stdout@,
                outcome.stderr@,
                opt_str_view(version_warning),
            ),
            opt_view(r.raw_stdout) == Some(outcome.stdout@),
            opt_view(r.raw_stderr) == Some(outcome.stderr@),
    {
        let subcommand = match &config.source {
            CheckSourceConfig::Cargo { subcommand, .. } => subcommand.as_str(),
            _ => "",
        };
        let verdict = outcome_to_verdict(config.name.as_str(), subcommand, &outcome, version_warning);
        CheckResult {
            source_id: from_chars(&to_chars("cargo")),
            check_name: from_chars(&to_chars(config.name.as_str())),
            verdict,
            raw_stdout: Some(outcome.stdout),
            raw_stderr: Some(outcome.stderr),
        }
    }
}

/// The recipe runs exactly `cargo check`, `cargo clippy`, `cargo test` and
/// `cargo build`: a cargo check naming one of these starts a command, and
/// any other subcommand fails at once with a blocking verdict.
pub proof fn lemma_cargo_starts_exactly_four_subcommands(
    config: CheckConfig,
    warning: Option<Seq<char>>,
)
    requires
        config.source is Cargo,
    ensures
        ({
            let sub = config.source->Cargo_subcommand@;
            &&& spec_cargo_start(config, warning) is Ok <==> (sub == "check"@ || sub == "clippy"@
                || sub == "test"@ || sub == "build"@)
            &&& spec_cargo_start(config, warning) matches Err(v) ==> v is Fail
        }),
{
}

} // verus!
