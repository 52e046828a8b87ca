//! `type = "fallow"`: runs `fallow audit --format json --quiet` (scoped to
//! a base ref on push) and reads the audit JSON: the `verdict` field
//! decides the verdict, and complexity, dead-code and duplication rows
//! become findings.

use vstd::prelude::*;

use crate::json::{
    array_of, get_in, json_get, parse_json, parsed_json, str_of, u64_of, JsonValue,
};
use crate::model::{
    findings_view, opt_view, CheckConfig, CheckResult, CheckSourceConfig, Finding, FindingView,
    GitEvent, Severity, ShellOutcome, Verdict, VerdictView,
};
use crate::sources::recipe_util::{
    count_exec, count_severity, fail_with_optional_warning, finding, note, opt_str_view,
    shell_quote_chars,
    spec_fail_with_warning, spec_finding, spec_note, spec_shell_quote, warning_rows,
};
use crate::sources::{source_kind, spec_timeout_secs, timeout_secs, CheckSourceError, SourceStep};
use crate::text::{
    decimal, extend, extend_str, from_chars, push_decimal, push_signed_decimal, replace_all,
    replace_exec, signed_decimal, str_eq, to_chars, trim, trim_exec,
};

verus! {

/// Lowest fallow release whose audit JSON the recipe reads.
pub const MIN_SUPPORTED_VERSION: (u32, u32) = (2, 0);

/// Most findings a verdict carries.
pub const MAX_FINDINGS: usize = 50;

// ---------------------------------------------------------------------------
// Command
// ---------------------------------------------------------------------------

pub open spec fn spec_build_command(
    event: GitEvent,
    base: Option<Seq<char>>,
    config_path: Option<Seq<char>>,
) -> Seq<char> {
    let scope = match event {
        GitEvent::Commit => Seq::empty(),
        GitEvent::Push => " --base "@ + match base {
            Some(b) => spec_shell_quote(b),
            None => "${KLASP_BASE_REF}"@,
        },
    };
    let config = match config_path {
        Some(p) => " -c "@ + spec_shell_quote(p),
        None => Seq::empty(),
    };
    "fallow audit --format json --quiet"@ + scope + config
}

/// `fallow audit --format json --quiet`; on a push, `--base <base>` (the
/// configured base, quoted, else `${KLASP_BASE_REF}`); `-c <config>` last.
pub fn build_command(event: GitEvent, base: Option<&str>, config_path: Option<&str>) -> (r: String)
    ensures
        r@ == spec_build_command(event, opt_str_view(base), opt_str_view(config_path)),
{
    let mut out = to_chars("fallow audit --format json --quiet");
    let ghost s0 = out@;
    match event {
        GitEvent::Commit => {},
        GitEvent::Push => {
            extend_str(&mut out, " --base ");
            match base {
                Some(b) => extend(&mut out, &shell_quote_chars(&to_chars(b))),
                None => extend_str(&mut out, "${KLASP_BASE_REF}"),
            }
        },
    }
    let ghost s1 = out@;
    match config_path {
        Some(p) => {
            extend_str(&mut out, " -c ");
            extend(&mut out, &shell_quote_chars(&to_chars(p)));
        },
        None => {},
    }
    proof {
        let scope = match event {
            GitEvent::Commit => Seq::<char>::empty(),
            GitEvent::Push => " --base "@ + match opt_str_view(base) {
                Some(b) => spec_shell_quote(b),
                None => "${KLASP_BASE_REF}"@,
            },
        };
        assert(s1 =~= s0 + scope);
        assert(out@ =~= spec_build_command(event, opt_str_view(base), opt_str_view(config_path)));
    }
    from_chars(&out)
}

// ---------------------------------------------------------------------------
// Audit rows
// ---------------------------------------------------------------------------

pub open spec fn spec_severity_from(raw: Seq<char>, fallback: Severity) -> Severity {
    if raw == "critical"@ || raw == "high"@ || raw == "error"@ {
        Severity::Error
    } else if raw == "moderate"@ || raw == "medium"@ || raw == "warn"@ || raw == "warning"@ {
        Severity::Warn
    } else if raw == "low"@ || raw == "info"@ {
        Severity::Info
    } else {
        fallback
    }
}

/// fallow's severity words: critical/high/error, moderate/medium/warn(ing),
/// low/info; anything else is `fallback`.
pub fn severity_from(raw: &str, fallback: Severity) -> (r: Severity)
    ensures
        r == spec_severity_from(raw@, fallback),
{
    if str_eq(raw, "critical") || str_eq(raw, "high") || str_eq(raw, "error") {
        Severity::Error
    } else if str_eq(raw, "moderate") || str_eq(raw, "medium") || str_eq(raw, "warn") || str_eq(
        raw,
        "warning",
    ) {
        Severity::Warn
    } else if str_eq(raw, "low") || str_eq(raw, "info") {
        Severity::Info
    } else {
        fallback
    }
}

pub open spec fn line_of(entry: JsonValue, key: Seq<char>) -> Option<u32> {
    match u64_of(json_get(entry, key)) {
        Some(n) => Some(n as u32),
        None => None,
    }
}

pub open spec fn spec_complexity_finding(check: Seq<char>, entry: JsonValue) -> FindingView {
    let name = match str_of(json_get(entry, "name"@)) {
        Some(n) => n,
        None => "?"@,
    };
    let metrics = match (u64_of(json_get(entry, "cyclomatic"@)), u64_of(
        json_get(entry, "cognitive"@),
    )) {
        (Some(c), Some(g)) => " (cyclomatic="@ + decimal(c as nat) + ", cognitive="@ + decimal(
            g as nat,
        ) + ")"@,
        (Some(c), None) => " (cyclomatic="@ + decimal(c as nat) + ")"@,
        _ => Seq::empty(),
    };
    let sev = match str_of(json_get(entry, "severity"@)) {
        Some(s) => spec_severity_from(s, Severity::Warn),
        None => Severity::Warn,
    };
    spec_finding(
        "fallow"@,
        check,
        "complexity"@,
        "complexity: function `"@ + name + "`"@ + metrics,
        str_of(json_get(entry, "path"@)),
        line_of(entry, "line"@),
        sev,
    )
}

fn str_field<'a>(entry: &'a JsonValue, key: &str) -> (r: Option<&'a str>)
    ensures
        match r {
            Some(s) => str_of(json_get(*entry, key@)) == Some(s@),
            None => str_of(json_get(*entry, key@)) is None,
        },
{
    match entry.get(key) {
        Some(v) => v.as_str(),
        None => None,
    }
}

fn u64_field(entry: &JsonValue, key: &str) -> (r: Option<u64>)
    ensures
        r == u64_of(json_get(*entry, key@)),
{
    match entry.get(key) {
        Some(v) => v.as_u64(),
        None => None,
    }
}

fn owned(s: Option<&str>) -> (r: Option<String>)
    ensures
        opt_view(r) == opt_str_view(s),
{
    match s {
        Some(t) => Some(from_chars(&to_chars(t))),
        None => None,
    }
}

fn line_field(entry: &JsonValue, key: &str) -> (r: Option<u32>)
    ensures
        r == line_of(*entry, key@),
{
    match u64_field(entry, key) {
        Some(n) => Some(n as u32),
        None => None,
    }
}

/// A complexity row: `complexity: function `<name>` (cyclomatic=C,
/// cognitive=G)`, at the row's own severity (default `Warn`).
pub fn complexity_finding(check_name: &str, entry: &JsonValue) -> (r: Finding)
    ensures
        r@ == spec_complexity_finding(check_name@, *entry),
{
    let name = match str_field(entry, "name") {
        Some(n) => n,
        None => "?",
    };
    let mut detail = to_chars("complexity: function `");
    extend_str(&mut detail, name);
    extend_str(&mut detail, "`");
    let ghost d0 = detail@;
    match (u64_field(entry, "cyclomatic"), u64_field(entry, "cognitive")) {
        (Some(c), Some(g)) => {
            extend_str(&mut detail, " (cyclomatic=");
            push_decimal(&mut detail, c);
            extend_str(&mut detail, ", cognitive=");
            push_decimal(&mut detail, g);
            extend_str(&mut detail, ")");
        },
        (Some(c), None) => {
            extend_str(&mut detail, " (cyclomatic=");
            push_decimal(&mut detail, c);
            extend_str(&mut detail, ")");
        },
        _ => {},
    }
    proof {
        let metrics = match (u64_of(json_get(*entry, "cyclomatic"@)), u64_of(
            json_get(*entry, "cognitive"@),
        )) {
            (Some(c), Some(g)) => " (cyclomatic="@ + decimal(c as nat) + ", cognitive="@
                + decimal(g as nat) + ")"@,
            (Some(c), None) => " (cyclomatic="@ + decimal(c as nat) + ")"@,
            _ => Seq::<char>::empty(),
        };
        assert(detail@ =~= d0 + metrics);
    }
    let sev = match str_field(entry, "severity") {
        Some(s) => severity_from(s, Severity::Warn),
        None => Severity::Warn,
    };
    let detail = from_chars(&detail);
    finding(
        "fallow",
        check_name,
        "complexity",
        detail.as_str(),
        owned(str_field(entry, "path")),
        line_field(entry, "line"),
        sev,
    )
}

/// The first of `export_name`, `type_name`, `dependency`, `name` that is
/// a string.
pub open spec fn dead_code_label(entry: JsonValue) -> Option<Seq<char>> {
    if str_of(json_get(entry, "export_name"@)) is Some {
        str_of(json_get(entry, "export_name"@))
    } else if str_of(json_get(entry, "type_name"@)) is Some {
        str_of(json_get(entry, "type_name"@))
    } else if str_of(json_get(entry, "dependency"@)) is Some {
        str_of(json_get(entry, "dependency"@))
    } else {
        str_of(json_get(entry, "name"@))
    }
}

pub open spec fn spec_dead_code_finding(check: Seq<char>, kind: Seq<char>, entry: JsonValue) -> FindingView {
    let pretty = replace_all(kind, "_"@, " "@);
    let path = str_of(json_get(entry, "path"@));
    let detail = match dead_code_label(entry) {
        Some(n) => pretty + ": `"@ + n + "`"@,
        None => match path {
            Some(p) => pretty + ": "@ + p,
            None => pretty,
        },
    };
    spec_finding("fallow"@, check, kind, detail, path, line_of(entry, "line"@), Severity::Error)
}

/// A dead-code row of category `kind` (`unused_exports`, ...):
/// ``unused exports: `<name>` `` or `<kind>: <path>`, an error.
pub fn dead_code_finding(check_name: &str, kind: &str, entry: &JsonValue) -> (r: Finding)
    ensures
        r@ == spec_dead_code_finding(check_name@, kind@, *entry),
{
    proof {
        reveal_strlit("_");
    }
    let label = match str_field(entry, "export_name") {
        Some(l) => Some(l),
        None => match str_field(entry, "type_name") {
            Some(l) => Some(l),
            None => match str_field(entry, "dependency") {
                Some(l) => Some(l),
                None => str_field(entry, "name"),
            },
        },
    };
    let path = str_field(entry, "path");
    let mut detail = replace_exec(&to_chars(kind), "_", " ");
    match label {
        Some(n) => {
            extend_str(&mut detail, ": `");
            extend_str(&mut detail, n);
            extend_str(&mut detail, "`");
        },
        None => match path {
            Some(p) => {
                extend_str(&mut detail, ": ");
                extend_str(&mut detail, p);
            },
            None => {},
        },
    }
    let detail = from_chars(&detail);
    finding(
        "fallow",
        check_name,
        kind,
        detail.as_str(),
        owned(path),
        line_field(entry, "line"),
        Severity::Error,
    )
}

pub open spec fn spec_duplication_finding(check: Seq<char>, entry: JsonValue) -> Option<FindingView> {
    match array_of(json_get(entry, "sites"@)) {
        Some(sites) => if sites.len() > 0 {
            let first = sites[0];
            let lines = match u64_of(json_get(entry, "lines"@)) {
                Some(n) => n,
                None => 0,
            };
            Some(
                spec_finding(
                    "fallow"@,
                    check,
                    "duplication"@,
                    "duplication: "@ + decimal(sites.len()) + " clones across "@ + decimal(
                        lines as nat,
                    ) + " lines"@,
                    str_of(json_get(first, "path"@)),
                    line_of(first, "start_line"@),
                    Severity::Error,
                ),
            )
        } else {
            None
        },
        None => None,
    }
}

/// A clone group: `duplication: N clones across L lines`, located at its
/// first site; `None` when the group has no sites.
pub fn duplication_finding(check_name: &str, entry: &JsonValue) -> (r: Option<Finding>)
    ensures
        match r {
            Some(f) => spec_duplication_finding(check_name@, *entry) == Some(f@),
            None => spec_duplication_finding(check_name@, *entry) is None,
        },
{
    let sites = match entry.get("sites") {
        Some(v) => v.as_array(),
        None => None,
    };
    let sites = match sites {
        Some(s) => s,
        None => return None,
    };
    if sites.len() == 0 {
        return None;
    }
    let first = &sites[0];
    let lines = match u64_field(entry, "lines") {
        Some(n) => n,
        None => 0,
    };
    let mut detail = to_chars("duplication: ");
    push_decimal(&mut detail, sites.len() as u64);
    extend_str(&mut detail, " clones across ");
    push_decimal(&mut detail, lines);
    extend_str(&mut detail, " lines");
    let detail = from_chars(&detail);
    Some(
        finding(
            "fallow",
            check_name,
            "duplication",
            detail.as_str(),
            owned(str_field(first, "path")),
            line_field(first, "start_line"),
            Severity::Error,
        ),
    )
}

/// The dead-code categories read, in order.
pub open spec fn dead_key(i: int) -> Seq<char> {
    if i == 0 {
        "unused_files"@
    } else if i == 1 {
        "unused_exports"@
    } else if i == 2 {
        "unused_types"@
    } else if i == 3 {
        "unused_dependencies"@
    } else if i == 4 {
        "unused_dev_dependencies"@
    } else if i == 5 {
        "unresolved_imports"@
    } else if i == 6 {
        "unlisted_dependencies"@
    } else if i == 7 {
        "duplicate_exports"@
    } else if i == 8 {
        "circular_dependencies"@
    } else {
        "boundary_violations"@
    }
}

/// How many dead-code categories there are.
pub const DEAD_CODE_KEY_COUNT: usize = 10;

fn dead_key_exec(i: usize) -> (r: &'static str)
    requires
        i < DEAD_CODE_KEY_COUNT,
    ensures
        r@ == dead_key(i as int),
{
    if i == 0 {
        "unused_files"
    } else if i == 1 {
        "unused_exports"
    } else if i == 2 {
        "unused_types"
    } else if i == 3 {
        "unused_dependencies"
    } else if i == 4 {
        "unused_dev_dependencies"
    } else if i == 5 {
        "unresolved_imports"
    } else if i == 6 {
        "unlisted_dependencies"
    } else if i == 7 {
        "duplicate_exports"
    } else if i == 8 {
        "circular_dependencies"
    } else {
        "boundary_violations"
    }
}

pub open spec fn complexity_rows(check: Seq<char>, entries: Seq<JsonValue>) -> Seq<FindingView> {
    entries.map_values(|e: JsonValue| spec_complexity_finding(check, e))
}

pub open spec fn dead_rows(check: Seq<char>, kind: Seq<char>, entries: Seq<JsonValue>) -> Seq<
    FindingView,
> {
    entries.map_values(|e: JsonValue| spec_dead_code_finding(check, kind, e))
}

/// The dead-code rows of categories `i..`.
pub open spec fn dead_rows_from(check: Seq<char>, dead: JsonValue, i: int) -> Seq<FindingView>
    decreases DEAD_CODE_KEY_COUNT - i,
{
    if i < 0 || i >= DEAD_CODE_KEY_COUNT {
        Seq::empty()
    } else {
        (match array_of(json_get(dead, dead_key(i))) {
            Some(a) => dead_rows(check, dead_key(i), a),
            None => Seq::empty(),
        }) + dead_rows_from(check, dead, i + 1)
    }
}

pub open spec fn duplication_rows(check: Seq<char>, entries: Seq<JsonValue>) -> Seq<FindingView>
    decreases entries.len(),
{
    if entries.len() == 0 {
        Seq::empty()
    } else {
        match spec_duplication_finding(check, entries[0]) {
            Some(f) => seq![f] + duplication_rows(check, entries.drop_first()),
            None => duplication_rows(check, entries.drop_first()),
        }
    }
}

/// Every row of the audit: complexity, then dead code by category, then
/// clone groups.
pub open spec fn audit_rows(check: Seq<char>, json: JsonValue) -> Seq<FindingView> {
    let complexity = match array_of(get_in(json_get(json, "complexity"@), "findings"@)) {
        Some(a) => complexity_rows(check, a),
        None => Seq::empty(),
    };
    let dead = match json_get(json, "dead_code"@) {
        Some(d) => dead_rows_from(check, d, 0),
        None => Seq::empty(),
    };
    let dup = match array_of(get_in(json_get(json, "duplication"@), "clone_groups"@)) {
        Some(a) => duplication_rows(check, a),
        None => Seq::empty(),
    };
    complexity + dead + dup
}

/// The first `n` items (all of them when there are fewer).
pub open spec fn capped<A>(s: Seq<A>, n: nat) -> Seq<A> {
    if s.len() <= n {
        s
    } else {
        s.take(n as int)
    }
}

pub open spec fn spec_collect_findings(check: Seq<char>, json: JsonValue) -> Seq<FindingView> {
    capped(audit_rows(check, json), MAX_FINDINGS as nat)
}

fn push_complexity(out: &mut Vec<Finding>, check_name: &str, entries: &Vec<JsonValue>)
    ensures
        findings_view(final(out)@) == findings_view(old(out)@) + complexity_rows(
            check_name@,
            entries@,
        ),
{
    let n = entries.len();
    let ghost start = findings_view(out@);
    for i in 0..n
        invariant
            n == entries@.len(),
            findings_view(out@) == start + complexity_rows(check_name@, entries@.take(i as int)),
    {
        let ghost before = out@;
        let f = complexity_finding(check_name, &entries[i]);
        out.push(f);
        assert(findings_view(out@) =~= findings_view(before) + seq![f@]);
        assert(complexity_rows(check_name@, entries@.take(i + 1)) =~= complexity_rows(
            check_name@,
            entries@.take(i as int),
        ) + seq![f@]);
    }
    assert(entries@.take(n as int) =~= entries@);
}

fn push_dead(out: &mut Vec<Finding>, check_name: &str, kind: &str, entries: &Vec<JsonValue>)
    ensures
        findings_view(final(out)@) == findings_view(old(out)@) + dead_rows(
            check_name@,
            kind@,
            entries@,
        ),
{
    let n = entries.len();
    let ghost start = findings_view(out@);
    for i in 0..n
        invariant
            n == entries@.len(),
            findings_view(out@) == start + dead_rows(check_name@, kind@, entries@.take(i as int)),
    {
        let ghost before = out@;
        let f = dead_code_finding(check_name, kind, &entries[i]);
        out.push(f);
        assert(findings_view(out@) =~= findings_view(before) + seq![f@]);
        assert(dead_rows(check_name@, kind@, entries@.take(i + 1)) =~= dead_rows(
            check_name@,
            kind@,
            entries@.take(i as int),
        ) + seq![f@]);
    }
    assert(entries@.take(n as int) =~= entries@);
}

fn push_duplication(out: &mut Vec<Finding>, check_name: &str, entries: &Vec<JsonValue>)
    ensures
        findings_view(final(out)@) == findings_view(old(out)@) + duplication_rows(
            check_name@,
            entries@,
        ),
{
    let n = entries.len();
    let ghost start = findings_view(out@);
    let mut i: usize = 0;
    assert(entries@.skip(0) =~= entries@);
    while i < n
        invariant
            n == entries@.len(),
            i <= n,
            start + duplication_rows(check_name@, entries@) == findings_view(out@)
                + duplication_rows(check_name@, entries@.skip(i as int)),
        decreases n - i,
    {
        let ghost before = out@;
        let ghost rest = entries@.skip(i as int);
        assert(rest[0] == entries@[i as int]);
        assert(rest.drop_first() =~= entries@.skip(i + 1));
        match duplication_finding(check_name, &entries[i]) {
            Some(f) => {
                out.push(f);
                assert(findings_view(out@) =~= findings_view(before) + seq![f@]);
                assert(findings_view(before) + duplication_rows(check_name@, rest) =~= findings_view(
                    out@,
                ) + duplication_rows(check_name@, entries@.skip(i + 1)));
            },
            None => {},
        }
        i += 1;
    }
    assert(entries@.skip(n as int) =~= Seq::<JsonValue>::empty());
    assert(findings_view(out@) + Seq::<FindingView>::empty() =~= findings_view(out@));
}

/// One finding per actionable row of the audit JSON: complexity rows,
/// then dead-code rows by category, then clone groups; at most
/// [`MAX_FINDINGS`].
pub fn collect_findings(check_name: &str, json: &JsonValue) -> (r: Vec<Finding>)
    ensures
        findings_view(r@) == spec_collect_findings(check_name@, *json),
        r@.len() <= MAX_FINDINGS,
{
    let mut out: Vec<Finding> = Vec::new();
    let complexity = match json.get("complexity") {
        Some(c) => match c.get("findings") {
            Some(f) => f.as_array(),
            None => None,
        },
        None => None,
    };
    match complexity {
        Some(a) => push_complexity(&mut out, check_name, a),
        None => {},
    }
    let ghost after_complexity = findings_view(out@);
    match json.get("dead_code") {
        Some(dead) => {
            let ghost base = findings_view(out@);
            assert(base + dead_rows_from(check_name@, *dead, 0) == base + dead_rows_from(
                check_name@,
                *dead,
                0,
            ));
            let mut i: usize = 0;
            while i < DEAD_CODE_KEY_COUNT
                invariant
                    i <= DEAD_CODE_KEY_COUNT,
                    base + dead_rows_from(check_name@, *dead, 0) == findings_view(out@)
                        + dead_rows_from(check_name@, *dead, i as int),
                decreases DEAD_CODE_KEY_COUNT - i,
            {
                let key = dead_key_exec(i);
                let ghost before = findings_view(out@);
                let arr = match dead.get(key) {
                    Some(v) => v.as_array(),
                    None => None,
                };
                match arr {
                    Some(a) => push_dead(&mut out, check_name, key, a),
                    None => {},
                }
                let ghost here = match array_of(json_get(*dead, dead_key(i as int))) {
                    Some(a) => dead_rows(check_name@, dead_key(i as int), a),
                    None => Seq::<FindingView>::empty(),
                };
                assert(findings_view(out@) =~= before + here);
                assert(before + dead_rows_from(check_name@, *dead, i as int) =~= findings_view(out@)
                    + dead_rows_from(check_name@, *dead, i + 1));
                i += 1;
            }
            assert(findings_view(out@) + Seq::<FindingView>::empty() =~= findings_view(out@));
        },
        None => {},
    }
    let ghost after_dead = findings_view(out@);
    let dup = match json.get("duplication") {
        Some(d) => match d.get("clone_groups") {
            Some(g) => g.as_array(),
            None => None,
        },
        None => None,
    };
    match dup {
        Some(a) => push_duplication(&mut out, check_name, a),
        None => {},
    }
    proof {
        let c = match array_of(get_in(json_get(*json, "complexity"@), "findings"@)) {
            Some(a) => complexity_rows(check_name@, a),
            None => Seq::<FindingView>::empty(),
        };
        let d = match json_get(*json, "dead_code"@) {
            Some(dd) => dead_rows_from(check_name@, dd, 0),
            None => Seq::<FindingView>::empty(),
        };
        let g = match array_of(get_in(json_get(*json, "duplication"@), "clone_groups"@)) {
            Some(a) => duplication_rows(check_name@, a),
            None => Seq::<FindingView>::empty(),
        };
        assert(after_complexity =~= c);
        assert(after_dead =~= c + d);
        assert(findings_view(out@) =~= audit_rows(check_name@, *json));
    }
    let ghost all = out@;
    out.truncate(MAX_FINDINGS);
    assert(findings_view(out@) =~= spec_collect_findings(check_name@, *json));
    out
}

// ---------------------------------------------------------------------------
// Verdict
// ---------------------------------------------------------------------------

pub open spec fn summary_count(json: JsonValue, key: Seq<char>) -> u64 {
    match u64_of(get_in(json_get(json, "summary"@), key)) {
        Some(n) => n,
        None => 0,
    }
}

pub open spec fn spec_summarise(json: JsonValue, verdict: Seq<char>) -> Option<Seq<char>> {
    let dead = summary_count(json, "dead_code_issues"@);
    let complexity = summary_count(json, "complexity_findings"@);
    let dupes = summary_count(json, "duplication_clone_groups"@);
    if dead == 0 && complexity == 0 && dupes == 0 {
        None
    } else {
        let action = if verdict == "warn"@ {
            "warned"@
        } else {
            "failed"@
        };
        Some(
            "fallow audit "@ + action + " ("@ + decimal(dead as nat) + " dead-code, "@ + decimal(
                complexity as nat,
            ) + " complexity, "@ + decimal(dupes as nat) + " duplication)"@,
        )
    }
}

fn summary_count_exec(json: &JsonValue, key: &str) -> (r: u64)
    ensures
        r == summary_count(*json, key@),
{
    match json.get("summary") {
        Some(s) => match u64_field(s, key) {
            Some(n) => n,
            None => 0,
        },
        None => 0,
    }
}

/// `fallow audit failed (D dead-code, C complexity, G duplication)` from
/// the audit's `summary` counts (`warned` for a warn verdict); `None` when
/// all three counts are zero.
pub fn summarise(json: &JsonValue, verdict: &str) -> (r: Option<String>)
    ensures
        opt_view(r) == spec_summarise(*json, verdict@),
{
    let dead = summary_count_exec(json, "dead_code_issues");
    let complexity = summary_count_exec(json, "complexity_findings");
    let dupes = summary_count_exec(json, "duplication_clone_groups");
    if dead == 0 && complexity == 0 && dupes == 0 {
        return None;
    }
    let mut out = to_chars("fallow audit ");
    if str_eq(verdict, "warn") {
        extend_str(&mut out, "warned");
    } else {
        extend_str(&mut out, "failed");
    }
    extend_str(&mut out, " (");
    push_decimal(&mut out, dead);
    extend_str(&mut out, " dead-code, ");
    push_decimal(&mut out, complexity);
    extend_str(&mut out, " complexity, ");
    push_decimal(&mut out, dupes);
    extend_str(&mut out, " duplication)");
    Some(from_chars(&out))
}

pub open spec fn spec_unparseable_detail(
    check: Seq<char>,
    status_code: Option<i32>,
    stderr: Seq<char>,
) -> Seq<char> {
    let exit_hint = match status_code {
        Some(c) => " (exit "@ + signed_decimal(c as int) + ")"@,
        None => " (terminated before producing an exit code)"@,
    };
    let stderr_hint = if trim(stderr).len() == 0 {
        Seq::empty()
    } else {
        ": "@ + trim(stderr)
    };
    "fallow `"@ + check + "` produced unparseable JSON"@ + exit_hint + stderr_hint
}

/// ``fallow `<check>` produced unparseable JSON (exit N): <stderr>``.
pub fn unparseable_detail(check_name: &str, outcome: &ShellOutcome) -> (r: String)
    ensures
        r@ == spec_unparseable_detail(check_name@, outcome.status_code, outcome.stderr@),
{
    let mut out = to_chars("fallow `");
    extend_str(&mut out, check_name);
    extend_str(&mut out, "` produced unparseable JSON");
    let ghost head = out@;
    match outcome.status_code {
        Some(c) => {
            extend_str(&mut out, " (exit ");
            push_signed_decimal(&mut out, c);
            extend_str(&mut out, ")");
        },
        None => {
            extend_str(&mut out, " (terminated before producing an exit code)");
        },
    }
    let ghost with_exit = out@;
    let t = trim_exec(&to_chars(outcome.stderr.as_str()));
    if t.len() > 0 {
        extend_str(&mut out, ": ");
        extend(&mut out, &t);
    }
    proof {
        let exit_hint = match outcome.status_code {
            Some(c) => " (exit "@ + signed_decimal(c as int) + ")"@,
            None => " (terminated before producing an exit code)"@,
        };
        assert(with_exit =~= head + exit_hint);
        assert(out@ =~= spec_unparseable_detail(check_name@, outcome.status_code, outcome.stderr@));
    }
    from_chars(&out)
}

/// Errors become warnings; other rows are unchanged.
pub open spec fn demote(fs: Seq<FindingView>) -> Seq<FindingView> {
    fs.map_values(
        |f: FindingView|
            if f.severity == Severity::Error {
                FindingView {
                    rule: f.rule,
                    message: f.message,
                    file: f.file,
                    line: f.line,
                    severity: Severity::Warn,
                }
            } else {
                f
            },
    )
}

fn demote_exec(v: Vec<Finding>) -> (r: Vec<Finding>)
    ensures
        findings_view(r@) == demote(findings_view(v@)),
{
    let ghost orig = v@;
    let mut rest = v;
    let mut out: Vec<Finding> = Vec::new();
    while rest.len() > 0
        invariant
            out@.len() + rest@.len() == orig.len(),
            rest@ == orig.skip(out@.len() as int),
            findings_view(out@) == demote(findings_view(orig.take(out@.len() as int))),
        decreases rest@.len(),
    {
        let ghost k: int = out@.len() as int;
        let mut f = rest.remove(0);
        assert(f == orig[k]);
        assert(rest@ =~= orig.skip(k + 1));
        if f.severity == Severity::Error {
            f.severity = Severity::Warn;
        }
        let ghost before = out@;
        out.push(f);
        assert(findings_view(out@) =~= findings_view(before) + seq![f@]);
        assert(findings_view(orig.take(k + 1)) =~= findings_view(orig.take(k)) + seq![
            orig[k]@,
        ]);
        assert(demote(findings_view(orig.take(k + 1))) =~= demote(
            findings_view(orig.take(k)),
        ) + seq![f@]);
    }
    assert(orig.take(out@.len() as int) =~= orig);
    out
}

pub open spec fn spec_fail_verdict_detail(check: Seq<char>) -> Seq<char> {
    "fallow `"@ + check + "` reported a fail verdict"@
}

pub open spec fn spec_outcome_to_verdict(
    check: Seq<char>,
    status_code: Option<i32>,
    stdout: Seq<char>,
    stderr: Seq<char>,
    warning: Option<Seq<char>>,
) -> VerdictView {
    match parsed_json(trim(stdout)) {
        None => spec_fail_with_warning(
            "fallow"@,
            check,
            spec_unparseable_detail(check, status_code, stderr),
            warning,
        ),
        Some(json) => {
            let verdict = match str_of(json_get(json, "verdict"@)) {
                Some(v) => v,
                None => Seq::empty(),
            };
            let rows = warning_rows("fallow"@, check, warning) + spec_collect_findings(check, json);
            if verdict == "pass"@ {
                match warning {
                    Some(w) => VerdictView::Warn {
                        findings: seq![spec_note("fallow"@, check, w, Severity::Warn)],
                        message: Some(w),
                    },
                    None => VerdictView::Pass,
                }
            } else if verdict == "warn"@ {
                VerdictView::Warn { findings: demote(rows), message: spec_summarise(json, "warn"@) }
            } else if verdict == "fail"@ {
                let detail = spec_fail_verdict_detail(check);
                VerdictView::Fail {
                    findings: if count_severity(rows, Severity::Error) == 0 {
                        rows + seq![spec_note("fallow"@, check, detail, Severity::Error)]
                    } else {
                        rows
                    },
                    message: match spec_summarise(json, "fail"@) {
                        Some(m) => m,
                        None => detail,
                    },
                }
            } else {
                spec_fail_with_warning(
                    "fallow"@,
                    check,
                    "fallow `"@ + check + "` returned an unexpected verdict `"@ + verdict
                        + "`; this usually means the audit JSON schema has drifted"@,
                    warning,
                )
            }
        },
    }
}

/// Reads the audit JSON on stdout. Its `verdict` decides: `pass` passes
/// (a `Warn` with the version warning when there is one); `warn` is a
/// `Warn` whose rows are all demoted to warnings; `fail` fails, with a
/// generic error row when no row is an error; stdout that is not JSON, or
/// any other verdict, fails with a detail. The version warning is the
/// first row of a `warn` or `fail`.
pub fn outcome_to_verdict(
    check_name: &str,
    outcome: &ShellOutcome,
    version_warning: Option<&str>,
) -> (r: Verdict)
    ensures
        r@ == spec_outcome_to_verdict(
            check_name@,
            outcome.status_code,
            outcome.stdout@,
            outcome.stderr@,
            opt_str_view(version_warning),
        ),
{
    let t = from_chars(&trim_exec(&to_chars(outcome.stdout.as_str())));
    let json = match parse_json(t.as_str()) {
        Some(j) => j,
        None => {
            let detail = unparseable_detail(check_name, outcome);
            return fail_with_optional_warning("fallow", check_name, detail, version_warning);
        },
    };
    let verdict = match str_field(&json, "verdict") {
        Some(v) => v,
        None => "",
    };
    proof {
        reveal_strlit("");
    }
    let ghost jv = parsed_json(trim(outcome.stdout@));
    assert(jv == Some(json));
    let ghost vs = match str_of(json_get(json, "verdict"@)) {
        Some(v) => v,
        None => Seq::<char>::empty(),
    };
    assert(verdict@ == vs);
    if str_eq(verdict, "pass") {
        assert(vs == "pass"@);
        return match version_warning {
            Some(w) => {
                let findings = vec![note("fallow", check_name, w, Severity::Warn)];
                assert(findings_view(findings@) =~= seq![
                    spec_note("fallow"@, check_name@, w@, Severity::Warn),
                ]);
                Verdict::Warn { findings, message: Some(from_chars(&to_chars(w))) }
            },
            None => Verdict::Pass,
        };
    }
    if !str_eq(verdict, "warn") && !str_eq(verdict, "fail") {
        let mut d = to_chars("fallow `");
        extend_str(&mut d, check_name);
        extend_str(&mut d, "` returned an unexpected verdict `");
        extend_str(&mut d, verdict);
        extend_str(&mut d, "`; this usually means the audit JSON schema has drifted");
        return fail_with_optional_warning("fallow", check_name, from_chars(&d), version_warning);
    }
    let mut findings: Vec<Finding> = Vec::new();
    match version_warning {
        Some(w) => {
            findings.push(note("fallow", check_name, w, Severity::Warn));
        },
        None => {},
    }
    let ghost warn_rows = findings_view(findings@);
    assert(warn_rows =~= warning_rows("fallow"@, check_name@, opt_str_view(version_warning)));
    let mut rows = collect_findings(check_name, &json);
    let ghost rows_v = findings_view(rows@);
    findings.append(&mut rows);
    assert(findings_view(findings@) =~= warn_rows + rows_v);
    if str_eq(verdict, "warn") {
        let findings = demote_exec(findings);
        Verdict::Warn { findings, message: summarise(&json, "warn") }
    } else {
        let mut d = to_chars("fallow `");
        extend_str(&mut d, check_name);
        extend_str(&mut d, "` reported a fail verdict");
        let detail = from_chars(&d);
        if count_exec(&findings, Severity::Error) == 0 {
            let ghost before = findings@;
            let f = note("fallow", check_name, detail.as_str(), Severity::Error);
            findings.push(f);
            assert(findings_view(findings@) =~= findings_view(before) + seq![f@]);
        }
        let message = match summarise(&json, "fail") {
            Some(m) => m,
            None => detail,
        };
        Verdict::Fail { findings, message }
    }
}

/// Source for `type = "fallow"` checks. Stateless.
#[derive(Clone, Copy, Debug, Default)]
pub struct FallowSource {}

impl FallowSource {
    pub fn new() -> (r: FallowSource) {
        FallowSource {  }
    }

    /// `"fallow"`.
    pub fn source_id(&self) -> (r: &'static str)
        ensures
            r@ == "fallow"@,
    {
        "fallow"
    }

    /// Claims exactly the `type = "fallow"` checks.
    pub fn supports_config(&self, config: &CheckConfig) -> (r: bool)
        ensures
            r == config.source is Fallow,
    {
        matches!(config.source, CheckSourceConfig::Fallow { .. })
    }

    /// The command to spawn for the firing git event. A check of another
    /// type is an error.
    pub fn start(&self, config: &CheckConfig, event: GitEvent) -> (r: Result<
        SourceStep,
        CheckSourceError,
    >)
        ensures
            !(config.source is Fallow) <==> r is Err,
            config.source is Fallow ==> match r {
                Ok(SourceStep::Spawn { command, timeout_secs }) => timeout_secs == spec_timeout_secs(
                    *config,
                ) && command@ == spec_build_command(
                    event,
                    opt_view(config.source->Fallow_base),
                    opt_view(config.source->Fallow_config_path),
                ),
                _ => false,
            },
    {
        match &config.source {
            CheckSourceConfig::Fallow { config_path, base } => {
                let b = match base {
                    Some(b) => Some(b.as_str()),
                    None => None,
                };
                let cp = match config_path {
                    Some(p) => Some(p.as_str()),
                    None => None,
                };
                let command = build_command(event, b, cp);
                Ok(SourceStep::Spawn { command, timeout_secs: timeout_secs(config) })
            },
            other => {
                let mut msg = to_chars("FallowSource cannot run a `");
                extend_str(&mut msg, source_kind(other));
                extend_str(&mut msg, "` check");
                Err(CheckSourceError::Other(from_chars(&msg)))
            },
        }
    }

    /// The result for the finished command.
    pub fn finish(
        &self,
        config: &CheckConfig,
        outcome: ShellOutcome,
        version_warning: Option<&str>,
    ) -> (r: CheckResult)
        ensures
            r.source_id@ == "fallow"@,
            r.check_name@ == config.name@,
            r.verdict@ == spec_outcome_to_verdict(
                config.name@,
                outcome.status_code,
                outcome.stdout@,
                outcome.stderr@,
                opt_str_view(version_warning),
            ),
            opt_view(r.raw_stdout) == Some(outcome.stdout@),
            opt_view(r.raw_stderr) == Some(outcome.stderr@),
    {
        let verdict = outcome_to_verdict(config.name.as_str(), &outcome, version_warning);
        CheckResult {
            source_id: from_chars(&to_chars("fallow")),
            check_name: from_chars(&to_chars(config.name.as_str())),
            verdict,
            raw_stdout: Some(outcome.stdout),
            raw_stderr: Some(outcome.stderr),
        }
    }
}

/// The dead-code categories fallow documents.
pub open spec fn is_documented_dead_code_category(k: Seq<char>) -> bool {
    ||| k == "unused_files"@
    ||| k == "unused_exports"@
    ||| k == "unused_types"@
    ||| k == "unused_dependencies"@
    ||| k == "unused_dev_dependencies"@
    ||| k == "unresolved_imports"@
    ||| k == "unlisted_dependencies"@
    ||| k == "duplicate_exports"@
    ||| k == "circular_dependencies"@
    ||| k == "boundary_violations"@
}

proof fn lemma_dead_rows_prefix(check: Seq<char>, dead: JsonValue, i: int) -> (p: Seq<FindingView>)
    requires
        0 <= i <= DEAD_CODE_KEY_COUNT,
    ensures
        dead_rows_from(check, dead, 0) == p + dead_rows_from(check, dead, i),
    decreases i,
{
    if i == 0 {
        assert(dead_rows_from(check, dead, 0) =~= Seq::<FindingView>::empty() + dead_rows_from(check, dead, 0));
        Seq::empty()
    } else {
        let q = lemma_dead_rows_prefix(check, dead, i - 1);
        let here = match array_of(json_get(dead, dead_key(i - 1))) {
            Some(a) => dead_rows(check, dead_key(i - 1), a),
            None => Seq::empty(),
        };
        assert(dead_rows_from(check, dead, i - 1) == here + dead_rows_from(check, dead, i));
        assert(dead_rows_from(check, dead, 0) =~= (q + here) + dead_rows_from(check, dead, i));
        q + here
    }
}

/// Exactly the documented categories are read, in the documented order.
pub proof fn lemma_dead_code_categories_are_the_documented_ones(k: Seq<char>)
    ensures
        is_documented_dead_code_category(k) <==> exists|i: int|
            0 <= i < DEAD_CODE_KEY_COUNT && #[trigger] dead_key(i) == k,
        dead_key(0) == "unused_files"@,
        dead_key(3) == "unused_dependencies"@,
        dead_key(9) == "boundary_violations"@,
{
    if is_documented_dead_code_category(k) {
        if k == "unused_files"@ { assert(dead_key(0) == k); }
        else if k == "unused_exports"@ { assert(dead_key(1) == k); }
        else if k == "unused_types"@ { assert(dead_key(2) == k); }
        else if k == "unused_dependencies"@ { assert(dead_key(3) == k); }
        else if k == "unused_dev_dependencies"@ { assert(dead_key(4) == k); }
        else if k == "unresolved_imports"@ { assert(dead_key(5) == k); }
        else if k == "unlisted_dependencies"@ { assert(dead_key(6) == k); }
        else if k == "duplicate_exports"@ { assert(dead_key(7) == k); }
        else if k == "circular_dependencies"@ { assert(dead_key(8) == k); }
        else { assert(dead_key(9) == k); }
    }
}

/// Every entry listed under a documented category of the `dead_code`
/// block becomes an error row whose rule is `fallow:<check>:<category>`,
/// among the audit's rows.
pub proof fn lemma_dead_code_entry_is_reported(
    check: Seq<char>,
    json: JsonValue,
    dead: JsonValue,
    k: Seq<char>,
    entries: Seq<JsonValue>,
    e: int,
)
    requires
        is_documented_dead_code_category(k),
        json_get(json, "dead_code"@) == Some(dead),
        array_of(json_get(dead, k)) == Some(entries),
        0 <= e < entries.len(),
    ensures
        exists|j: int|
            0 <= j < audit_rows(check, json).len() && #[trigger] audit_rows(check, json)[j]
                == spec_dead_code_finding(check, k, entries[e]),
        spec_dead_code_finding(check, k, entries[e]).rule == "fallow:"@ + check + ":"@ + k,
        spec_dead_code_finding(check, k, entries[e]).severity == Severity::Error,
{
    reveal_strlit("unused_files");
    reveal_strlit("unused_exports");
    reveal_strlit("unused_types");
    reveal_strlit("unused_dependencies");
    reveal_strlit("unused_dev_dependencies");
    reveal_strlit("unresolved_imports");
    reveal_strlit("unlisted_dependencies");
    reveal_strlit("duplicate_exports");
    reveal_strlit("circular_dependencies");
    reveal_strlit("boundary_violations");
    assert(k.len() > 0);
    reveal_strlit("fallow");
    reveal_strlit(":");
    reveal_strlit("fallow:");
    assert("fallow"@ + ":"@ + check + ":"@ + k =~= "fallow:"@ + check + ":"@ + k);
    lemma_dead_code_categories_are_the_documented_ones(k);
    let i = choose|i: int| 0 <= i < DEAD_CODE_KEY_COUNT && #[trigger] dead_key(i) == k;
    let p = lemma_dead_rows_prefix(check, dead, i);
    let rows = dead_rows(check, k, entries);
    assert(dead_rows_from(check, dead, i) == rows + dead_rows_from(check, dead, i + 1));
    let complexity = match array_of(get_in(json_get(json, "complexity"@), "findings"@)) {
        Some(a) => complexity_rows(check, a),
        None => Seq::empty(),
    };
    let dup = match array_of(get_in(json_get(json, "duplication"@), "clone_groups"@)) {
        Some(a) => duplication_rows(check, a),
        None => Seq::empty(),
    };
    assert(audit_rows(check, json) == complexity + dead_rows_from(check, dead, 0) + dup);
    let j = complexity.len() + p.len() + e;
    assert(audit_rows(check, json)[j] == rows[e]);
}

} // verus!
