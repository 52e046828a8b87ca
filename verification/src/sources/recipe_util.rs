//! Helpers shared by the named-recipe sources: POSIX quoting, finding
//! builders, the generic failure verdict and `--version` banner parsing.

use vstd::prelude::*;

use crate::model::{findings_view, opt_view, Finding, FindingView, Severity, Verdict, VerdictView};
use crate::text::{
    decimal, is_ws, starts_with, extend, extend_str, from_chars, lemma_split_char_len, lines, parse_unsigned,
    parse_unsigned_exec, push_decimal, replace_all, replace_exec, split_char, split_lines,
    split_on_char, split_tokens, to_chars, tokens, views,
};

verus! {

pub open spec fn opt_str_view(o: Option<&str>) -> Option<Seq<char>> {
    match o {
        Some(s) => Some(s@),
        None => None,
    }
}

/// `'` + value with every `'` turned into `'\''` + `'`.
pub open spec fn spec_shell_quote(v: Seq<char>) -> Seq<char> {
    "'"@ + replace_all(v, "'"@, "'\\''"@) + "'"@
}

/// Single-quote a value for inclusion in a `sh -c "<command>"` string.
/// Embedded single quotes become `'\''`, the standard POSIX trick.
pub fn shell_quote(value: &str) -> (r: String)
    ensures
        r@ == spec_shell_quote(value@),
{
    let v = to_chars(value);
    let out = shell_quote_chars(&v);
    from_chars(&out)
}

/// [`shell_quote`] on a character vector.
pub fn shell_quote_chars(v: &Vec<char>) -> (r: Vec<char>)
    ensures
        r@ == spec_shell_quote(v@),
{
    proof {
        reveal_strlit("'");
    }
    let mut out = to_chars("'");
    let escaped = replace_exec(v, "'", "'\\''");
    extend(&mut out, &escaped);
    extend_str(&mut out, "'");
    out
}

/// `Some(c + t)` for `Some(t)`.
pub open spec fn prepend(c: char, o: Option<Seq<char>>) -> Option<Seq<char>> {
    match o {
        Some(t) => Some(seq![c] + t),
        None => None,
    }
}

/// How `sh` reads one word made of unquoted characters, backslash escapes
/// and single-quoted runs (`None` for an unterminated quote, a dangling
/// backslash or unquoted whitespace).
pub open spec fn sh_word(s: Seq<char>) -> Option<Seq<char>>
    decreases s.len(), 0int,
{
    if s.len() == 0 {
        Some(Seq::empty())
    } else if s[0] == '\'' {
        sh_quoted(s.drop_first())
    } else if s[0] == '\\' {
        if s.len() >= 2 {
            prepend(s[1], sh_word(s.skip(2)))
        } else {
            None
        }
    } else if is_ws(s[0]) {
        None
    } else {
        prepend(s[0], sh_word(s.drop_first()))
    }
}

/// The rest of a single-quoted run: everything up to the closing `'` is
/// literal.
pub open spec fn sh_quoted(s: Seq<char>) -> Option<Seq<char>>
    decreases s.len(), 1int,
{
    if s.len() == 0 {
        None
    } else if s[0] == '\'' {
        sh_word(s.drop_first())
    } else {
        prepend(s[0], sh_quoted(s.drop_first()))
    }
}

pub open spec fn append_front(v: Seq<char>, o: Option<Seq<char>>) -> Option<Seq<char>> {
    match o {
        Some(t) => Some(v + t),
        None => None,
    }
}

proof fn lemma_quoted_escape(v: Seq<char>, tail: Seq<char>)
    ensures
        sh_quoted(replace_all(v, "'"@, "'\\''"@) + "'"@ + tail) == append_front(v, sh_word(tail)),
    decreases v.len(),
{
    reveal_strlit("'");
    reveal_strlit("'\\''");
    let q = "'"@;
    let e = "'\\''"@;
    if v.len() == 0 {
        assert(replace_all(v, q, e) == v);
        let s = v + q + tail;
        assert(s[0] == '\'');
        assert(s.drop_first() =~= tail);
        assert(v + sh_word(tail)->0 =~= sh_word(tail)->0);
    } else if v[0] == '\'' {
        assert(starts_with(v, q)) by {
            assert(v.subrange(0, 1) =~= q);
        }
        let r = replace_all(v.skip(1), q, e);
        assert(replace_all(v, q, e) == e + r);
        let x = e + r + q + tail;
        let y = r + q + tail;
        assert(x =~= seq!['\'', '\\', '\'', '\''] + y);
        let w = x.drop_first();
        assert(w =~= seq!['\\', '\'', '\''] + y);
        assert(w[0] == '\\' && w[1] == '\'');
        let z = w.skip(2);
        assert(z =~= seq!['\''] + y);
        assert(z[0] == '\'');
        assert(z.drop_first() =~= y);
        lemma_quoted_escape(v.skip(1), tail);
        assert(sh_word(z) == sh_quoted(y));
        assert(sh_word(w) == prepend('\'', sh_word(z)));
        assert(sh_quoted(x) == sh_word(w));
        match sh_word(tail) {
            Some(t) => {
                assert(seq!['\''] + (v.skip(1) + t) =~= v + t);
            },
            None => {},
        }
    } else {
        assert(!starts_with(v, q)) by {
            if starts_with(v, q) {
                assert(v.subrange(0, 1)[0] == q[0]);
            }
        }
        let r = replace_all(v.drop_first(), q, e);
        assert(replace_all(v, q, e) == seq![v[0]] + r);
        let s = seq![v[0]] + r + q + tail;
        assert(s.drop_first() =~= r + q + tail);
        lemma_quoted_escape(v.drop_first(), tail);
        match sh_word(tail) {
            Some(t) => {
                assert(seq![v[0]] + (v.drop_first() + t) =~= v + t);
            },
            None => {},
        }
    }
}

/// Quoting is undone by the shell: `sh` reads [`shell_quote`]'s output as
/// one word whose value is exactly the string that was quoted.
pub proof fn lemma_shell_quote_roundtrip(v: Seq<char>)
    ensures
        sh_word(spec_shell_quote(v)) == Some(v),
{
    reveal_strlit("'");
    let s = spec_shell_quote(v);
    let body = replace_all(v, "'"@, "'\\''"@);
    assert(s[0] == '\'');
    assert(s.drop_first() =~= body + "'"@ + Seq::<char>::empty());
    lemma_quoted_escape(v, Seq::empty());
    assert(v + Seq::<char>::empty() =~= v);
}

/// `<prefix>:<check>` or, with a suffix, `<prefix>:<check>:<suffix>`.
pub open spec fn spec_rule(prefix: Seq<char>, check: Seq<char>, suffix: Seq<char>) -> Seq<char> {
    if suffix.len() == 0 {
        prefix + ":"@ + check
    } else {
        prefix + ":"@ + check + ":"@ + suffix
    }
}

pub open spec fn spec_finding(
    prefix: Seq<char>,
    check: Seq<char>,
    suffix: Seq<char>,
    message: Seq<char>,
    file: Option<Seq<char>>,
    line: Option<u32>,
    severity: Severity,
) -> FindingView {
    FindingView { rule: spec_rule(prefix, check, suffix), message, file, line, severity }
}

/// A location-less finding with a top-level rule.
pub open spec fn spec_note(
    prefix: Seq<char>,
    check: Seq<char>,
    message: Seq<char>,
    severity: Severity,
) -> FindingView {
    spec_finding(prefix, check, Seq::empty(), message, None, None, severity)
}

/// Finding builder: the rule is `<prefix>:<check>` (`:<suffix>` appended
/// when the suffix is non-empty).
pub fn finding(
    rule_prefix: &str,
    check_name: &str,
    rule_suffix: &str,
    message: &str,
    file: Option<String>,
    line: Option<u32>,
    severity: Severity,
) -> (r: Finding)
    ensures
        r@ == spec_finding(
            rule_prefix@,
            check_name@,
            rule_suffix@,
            message@,
            opt_view(file),
            line,
            severity,
        ),
{
    let mut rule = to_chars(rule_prefix);
    extend_str(&mut rule, ":");
    extend_str(&mut rule, check_name);
    let suffix = to_chars(rule_suffix);
    if suffix.len() > 0 {
        extend_str(&mut rule, ":");
        extend(&mut rule, &suffix);
    }
    Finding {
        rule: from_chars(&rule),
        message: from_chars(&to_chars(message)),
        file,
        line,
        severity,
    }
}

/// One-line finding builder for top-level (location-less) rows.
pub fn note(rule_prefix: &str, check_name: &str, message: &str, severity: Severity) -> (r: Finding)
    ensures
        r@ == spec_note(rule_prefix@, check_name@, message@, severity),
{
    proof {
        reveal_strlit("");
    }
    assert(""@ =~= Seq::<char>::empty());
    finding(rule_prefix, check_name, "", message, None, None, severity)
}

/// The optional version-warning row that recipes put first.
pub open spec fn warning_rows(
    prefix: Seq<char>,
    check: Seq<char>,
    warning: Option<Seq<char>>,
) -> Seq<FindingView> {
    match warning {
        Some(w) => seq![spec_note(prefix, check, w, Severity::Warn)],
        None => Seq::empty(),
    }
}

pub open spec fn spec_fail_with_warning(
    prefix: Seq<char>,
    check: Seq<char>,
    detail: Seq<char>,
    warning: Option<Seq<char>>,
) -> VerdictView {
    VerdictView::Fail {
        findings: warning_rows(prefix, check, warning) + seq![
            spec_note(prefix, check, detail, Severity::Error),
        ],
        message: detail,
    }
}

/// A failure whose message is `detail`, reported as an error finding that
/// follows the optional warning finding.
pub fn fail_with_optional_warning(
    rule_prefix: &str,
    check_name: &str,
    detail: String,
    version_warning: Option<&str>,
) -> (r: Verdict)
    ensures
        r@ == spec_fail_with_warning(
            rule_prefix@,
            check_name@,
            detail@,
            opt_str_view(version_warning),
        ),
{
    let err = note(rule_prefix, check_name, detail.as_str(), Severity::Error);
    let mut findings: Vec<Finding> = Vec::new();
    match version_warning {
        Some(w) => {
            findings.push(note(rule_prefix, check_name, w, Severity::Warn));
        },
        None => {},
    }
    findings.push(err);
    let r = Verdict::Fail { findings, message: detail };
    assert(findings_view(findings@) =~= warning_rows(
        rule_prefix@,
        check_name@,
        opt_str_view(version_warning),
    ) + seq![spec_note(rule_prefix@, check_name@, detail@, Severity::Error)]);
    r
}

// ---------------------------------------------------------------------------
// `--version` banners
// ---------------------------------------------------------------------------

/// `MAJOR.MINOR...` token: the first two `.`-separated pieces as `u32`s.
pub open spec fn version_of_token(tok: Seq<char>) -> Option<(u32, u32)> {
    let parts = split_char(tok, '.');
    if parts.len() < 2 {
        None
    } else {
        match (parse_unsigned(parts[0], u32::MAX as int), parse_unsigned(parts[1], u32::MAX as int)) {
            (Some(a), Some(b)) => Some((a as u32, b as u32)),
            _ => None,
        }
    }
}

pub open spec fn version_in_tokens(toks: Seq<Seq<char>>) -> Option<(u32, u32)>
    decreases toks.len(),
{
    if toks.len() == 0 {
        None
    } else if version_of_token(toks[0]) is Some {
        version_of_token(toks[0])
    } else {
        version_in_tokens(toks.drop_first())
    }
}

pub open spec fn version_in_lines(ls: Seq<Seq<char>>) -> Option<(u32, u32)>
    decreases ls.len(),
{
    if ls.len() == 0 {
        None
    } else if version_in_tokens(tokens(ls[0])) is Some {
        version_in_tokens(tokens(ls[0]))
    } else {
        version_in_lines(ls.drop_first())
    }
}

/// The first whitespace-separated `MAJOR.MINOR...` token on any line.
pub open spec fn spec_parse_version(raw: Seq<char>) -> Option<(u32, u32)> {
    version_in_lines(lines(raw))
}

pub fn version_of_token_exec(tok: &Vec<char>) -> (r: Option<(u32, u32)>)
    ensures
        r == version_of_token(tok@),
{
    let parts = split_on_char(tok, '.');
    proof {
        lemma_split_char_len(tok@, '.');
    }
    assert(parts@.len() == split_char(tok@, '.').len());
    if parts.len() < 2 {
        return None;
    }
    assert(parts@[0]@ == split_char(tok@, '.')[0]);
    assert(parts@[1]@ == split_char(tok@, '.')[1]);
    let a = parse_unsigned_exec(&parts[0], u32::MAX as u64);
    let b = parse_unsigned_exec(&parts[1], u32::MAX as u64);
    match (a, b) {
        (Some(a), Some(b)) => Some((a as u32, b as u32)),
        _ => None,
    }
}

pub fn version_in_tokens_exec(toks: &Vec<Vec<char>>) -> (r: Option<(u32, u32)>)
    ensures
        r == version_in_tokens(views(toks@)),
{
    let n = toks.len();
    let mut i: usize = 0;
    assert(views(toks@).skip(0) =~= views(toks@));
    while i < n
        invariant
            n == toks@.len(),
            i <= n,
            version_in_tokens(views(toks@)) == version_in_tokens(views(toks@).skip(i as int)),
        decreases n - i,
    {
        let v = version_of_token_exec(&toks[i]);
        assert(views(toks@).skip(i as int)[0] == toks@[i as int]@);
        if v.is_some() {
            return v;
        }
        assert(views(toks@).skip(i as int).drop_first() =~= views(toks@).skip(i + 1));
        i += 1;
    }
    None
}

/// Parse a `--version` banner into `(major, minor)`: the first
/// whitespace-separated token, on any line, whose first two `.`-separated
/// pieces parse as `u32`.
pub fn parse_version(raw: &str) -> (r: Option<(u32, u32)>)
    ensures
        r == spec_parse_version(raw@),
{
    let s = to_chars(raw);
    let ls = split_lines(&s);
    let n = ls.len();
    let mut i: usize = 0;
    assert(views(ls@).skip(0) =~= views(ls@));
    while i < n
        invariant
            n == ls@.len(),
            i <= n,
            views(ls@) == lines(s@),
            s@ == raw@,
            version_in_lines(lines(s@)) == version_in_lines(views(ls@).skip(i as int)),
        decreases n - i,
    {
        let toks = split_tokens(&ls[i], false);
        let v = version_in_tokens_exec(&toks);
        assert(views(ls@).skip(i as int)[0] == ls@[i as int]@);
        if v.is_some() {
            return v;
        }
        assert(views(ls@).skip(i as int).drop_first() =~= views(ls@).skip(i + 1));
        i += 1;
    }
    None
}

pub open spec fn version_older(v: (u32, u32), min: (u32, u32)) -> bool {
    v.0 < min.0 || (v.0 == min.0 && v.1 < min.1)
}

pub open spec fn spec_version_warning_text(
    binary: Seq<char>,
    v: (u32, u32),
    min: (u32, u32),
) -> Seq<char> {
    binary + " "@ + decimal(v.0 as nat) + "."@ + decimal(v.1 as nat)
        + " is older than the minimum tested version "@ + decimal(min.0 as nat) + "."@
        + decimal(min.1 as nat) + "; output parsing may be incomplete"@
}

pub open spec fn spec_version_warning(
    binary: Seq<char>,
    min: (u32, u32),
    banner: Seq<char>,
) -> Option<Seq<char>> {
    match spec_parse_version(banner) {
        Some(v) => if version_older(v, min) {
            Some(spec_version_warning_text(binary, v, min))
        } else {
            None
        },
        None => None,
    }
}

/// Given the output of a successful `<binary> --version`, the warning to
/// show when the tool is older than `min` (`None` when it is new enough or
/// the banner carries no version).
pub fn version_warning(binary: &str, min: (u32, u32), banner: &str) -> (r: Option<String>)
    ensures
        opt_view(r) == spec_version_warning(binary@, min, banner@),
{
    match parse_version(banner) {
        Some((major, minor)) => {
            if major < min.0 || (major == min.0 && minor < min.1) {
                let mut out = to_chars(binary);
                extend_str(&mut out, " ");
                push_decimal(&mut out, major as u64);
                extend_str(&mut out, ".");
                push_decimal(&mut out, minor as u64);
                extend_str(&mut out, " is older than the minimum tested version ");
                push_decimal(&mut out, min.0 as u64);
                extend_str(&mut out, ".");
                push_decimal(&mut out, min.1 as u64);
                extend_str(&mut out, "; output parsing may be incomplete");
                Some(from_chars(&out))
            } else {
                None
            }
        },
        None => None,
    }
}

// ---------------------------------------------------------------------------
// Counting
// ---------------------------------------------------------------------------

/// How many findings have severity `sev`.
pub open spec fn count_severity(fs: Seq<FindingView>, sev: Severity) -> nat
    decreases fs.len(),
{
    if fs.len() == 0 {
        0
    } else {
        count_severity(fs.drop_last(), sev) + if fs.last().severity == sev {
            1nat
        } else {
            0nat
        }
    }
}

pub proof fn lemma_count_severity_le(fs: Seq<FindingView>, sev: Severity)
    ensures
        count_severity(fs, sev) <= fs.len(),
    decreases fs.len(),
{
    if fs.len() > 0 {
        lemma_count_severity_le(fs.drop_last(), sev);
    }
}

pub open spec fn plural(n: nat) -> Seq<char> {
    if n == 1 {
        Seq::empty()
    } else {
        "s"@
    }
}

/// How many findings have severity `sev`.
pub fn count_exec(findings: &Vec<Finding>, sev: Severity) -> (r: u64)
    ensures
        r == count_severity(findings_view(findings@), sev),
{
    let n = findings.len();
    let mut c: u64 = 0;
    let mut i: usize = 0;
    while i < n
        invariant
            n == findings@.len(),
            i <= n,
            c == count_severity(findings_view(findings@).take(i as int), sev),
        decreases n - i,
    {
        proof {
            lemma_count_severity_le(findings_view(findings@).take(i as int), sev);
            assert(findings_view(findings@).take(i + 1).drop_last() =~= findings_view(
                findings@,
            ).take(i as int));
        }
        if findings[i].severity == sev {
            c += 1;
        }
        i += 1;
    }
    assert(findings_view(findings@).take(n as int) =~= findings_view(findings@));
    c
}

/// Append `s` unless `n` is 1.
pub fn push_plural(out: &mut Vec<char>, n: u64)
    ensures
        final(out)@ == old(out)@ + plural(n as nat),
{
    if n != 1 {
        extend_str(out, "s");
    } else {
        assert(old(out)@ + Seq::<char>::empty() =~= old(out)@);
    }
}

} // verus!
