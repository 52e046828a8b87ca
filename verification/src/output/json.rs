//! `--format json`: the stable JSON document for downstream tooling.

use vstd::prelude::*;

use crate::json::{json_view, pretty_json, to_pretty_json, JsonNumber, JsonNumberView, JsonValue, JsonView};
use crate::model::{
    CheckResult, Finding, FindingView, Severity, Verdict, VerdictPolicy, VerdictView,
    GATE_SCHEMA_VERSION, KLASP_OUTPUT_SCHEMA,
};
use crate::text::to_chars;

verus! {

pub open spec fn verdict_word(v: VerdictView) -> Seq<char> {
    match v {
        VerdictView::Pass => "pass"@,
        VerdictView::Warn { .. } => "warn"@,
        VerdictView::Fail { .. } => "fail"@,
    }
}

pub open spec fn severity_word(s: Severity) -> Seq<char> {
    match s {
        Severity::Error => "error"@,
        Severity::Warn => "warn"@,
        Severity::Info => "info"@,
    }
}

/// `{severity, rule, file, line, message}`; an absent file or line is `null`.
pub open spec fn finding_doc(f: FindingView) -> JsonView {
    JsonView::Object(
        seq![
            ("severity"@, JsonView::Str(severity_word(f.severity))),
            ("rule"@, JsonView::Str(f.rule)),
            ("file"@, match f.file {
                Some(p) => JsonView::Str(p),
                None => JsonView::Null,
            }),
            ("line"@, match f.line {
                Some(n) => JsonView::Number(JsonNumberView::PosInt(n as u64)),
                None => JsonView::Null,
            }),
            ("message"@, JsonView::Str(f.message)),
        ],
    )
}

pub open spec fn findings_doc(fs: Seq<FindingView>) -> Seq<JsonView> {
    fs.map_values(|f: FindingView| finding_doc(f))
}

/// `{name, source, verdict, findings}` of one check.
pub open spec fn check_doc(r: CheckResult) -> JsonView {
    JsonView::Object(
        seq![
            ("name"@, JsonView::Str(r.check_name@)),
            ("source"@, JsonView::Str(r.source_id@)),
            ("verdict"@, JsonView::Str(verdict_word(r.verdict@))),
            ("findings"@, JsonView::Array(findings_doc(r.verdict@.findings()))),
        ],
    )
}

/// How many of the first `n` results have a verdict of the kind `word`.
pub open spec fn count_verdicts(rs: Seq<CheckResult>, word: Seq<char>, n: int) -> nat
    decreases n,
{
    if n <= 0 {
        0
    } else {
        count_verdicts(rs, word, n - 1) + if verdict_word(rs[n - 1].verdict@) == word {
            1nat
        } else {
            0nat
        }
    }
}

/// The tallies add up: every check passed, warned or failed.
pub proof fn lemma_stats_add_up(rs: Seq<CheckResult>, n: int)
    requires
        0 <= n <= rs.len(),
    ensures
        count_verdicts(rs, "pass"@, n) + count_verdicts(rs, "warn"@, n) + count_verdicts(rs, "fail"@, n) == n,
    decreases n,
{
    if n > 0 {
        lemma_stats_add_up(rs, n - 1);
        reveal_strlit("pass");
        reveal_strlit("warn");
        reveal_strlit("fail");
        assert("pass"@[0] == 'p' && "warn"@[0] == 'w' && "fail"@[0] == 'f');
    }
}

pub open spec fn count_doc(n: nat) -> JsonView {
    JsonView::Number(JsonNumberView::PosInt(n as u64))
}

/// `{total_checks, pass, warn, fail}`.
pub open spec fn stats_doc(rs: Seq<CheckResult>) -> JsonView {
    JsonView::Object(
        seq![
            ("total_checks"@, count_doc(rs.len())),
            ("pass"@, count_doc(count_verdicts(rs, "pass"@, rs.len() as int))),
            ("warn"@, count_doc(count_verdicts(rs, "warn"@, rs.len() as int))),
            ("fail"@, count_doc(count_verdicts(rs, "fail"@, rs.len() as int))),
        ],
    )
}

/// The whole document: schema versions, the overall verdict, one entry
/// per check and the tallies.
pub open spec fn output_doc(verdict: VerdictView, rs: Seq<CheckResult>) -> JsonView {
    JsonView::Object(
        seq![
            ("output_schema_version"@, JsonView::Number(JsonNumberView::PosInt(KLASP_OUTPUT_SCHEMA as u64))),
            ("gate_schema_version"@, JsonView::Number(JsonNumberView::PosInt(GATE_SCHEMA_VERSION as u64))),
            ("verdict"@, JsonView::Str(verdict_word(verdict))),
            ("checks"@, JsonView::Array(rs.map_values(|r: CheckResult| check_doc(r)))),
            ("stats"@, stats_doc(rs)),
        ],
    )
}

fn verdict_word_exec(v: &Verdict) -> (r: &'static str)
    ensures
        r@ == verdict_word(v@),
{
    proof {
        reveal_strlit("pass");
        reveal_strlit("warn");
        reveal_strlit("fail");
    }
    match v {
        Verdict::Pass => "pass",
        Verdict::Warn { .. } => "warn",
        Verdict::Fail { .. } => "fail",
    }
}

fn severity_word_exec(s: Severity) -> (r: &'static str)
    ensures
        r@ == severity_word(s),
{
    match s {
        Severity::Error => "error",
        Severity::Warn => "warn",
        Severity::Info => "info",
    }
}

fn member(key: &str, value: JsonValue) -> (r: (String, JsonValue))
    ensures
        r.0@ == key@,
        r.1 == value,
{
    (key.to_owned(), value)
}

fn finding_value(f: &Finding) -> (r: JsonValue)
    ensures
        json_view(r) == finding_doc(f@),
{
    let file = match &f.file {
        Some(p) => JsonValue::Str(p.clone()),
        None => JsonValue::Null,
    };
    let line = match f.line {
        Some(n) => JsonValue::Number(JsonNumber::PosInt(n as u64)),
        None => JsonValue::Null,
    };
    let es = vec![
        member("severity", JsonValue::Str(severity_word_exec(f.severity).to_owned())),
        member("rule", JsonValue::Str(f.rule.clone())),
        member("file", file),
        member("line", line),
        member("message", JsonValue::Str(f.message.clone())),
    ];
    let r = JsonValue::Object(es);
    assert(json_view(r) =~= finding_doc(f@)) by {
        reveal_with_fuel(json_view, 2);
        if let JsonView::Object(got) = json_view(r) {
            assert(got =~= match finding_doc(f@) {
                JsonView::Object(want) => want,
                _ => Seq::empty(),
            });
        }
    }
    r
}

fn findings_value(fs: &Vec<Finding>) -> (r: JsonValue)
    ensures
        json_view(r) == JsonView::Array(findings_doc(crate::model::findings_view(fs@))),
{
    let n = fs.len();
    let mut out: Vec<JsonValue> = Vec::new();
    for i in 0..n
        invariant
            n == fs@.len(),
            out@.len() == i,
            forall|k: int| 0 <= k < i ==> json_view(#[trigger] out@[k]) == finding_doc(fs@[k]@),
    {
        let v = finding_value(&fs[i]);
        out.push(v);
    }
    let r = JsonValue::Array(out);
    assert(json_view(r) =~= JsonView::Array(findings_doc(crate::model::findings_view(fs@)))) by {
        if let JsonView::Array(got) = json_view(r) {
            assert(got =~= findings_doc(crate::model::findings_view(fs@)));
        }
    }
    r
}

fn check_value(r: &CheckResult) -> (v: JsonValue)
    ensures
        json_view(v) == check_doc(*r),
{
    let findings = match &r.verdict {
        Verdict::Pass => JsonValue::Array(Vec::new()),
        Verdict::Warn { findings, .. } => findings_value(findings),
        Verdict::Fail { findings, .. } => findings_value(findings),
    };
    proof {
        if r.verdict is Pass {
            if let JsonView::Array(got) = json_view(findings) {
                assert(got =~= findings_doc(r.verdict@.findings()));
            }
        }
    }
    let es = vec![
        member("name", JsonValue::Str(r.check_name.clone())),
        member("source", JsonValue::Str(r.source_id.clone())),
        member("verdict", JsonValue::Str(verdict_word_exec(&r.verdict).to_owned())),
        member("findings", findings),
    ];
    let v = JsonValue::Object(es);
    assert(json_view(v) =~= check_doc(*r)) by {
        reveal_with_fuel(json_view, 2);
        if let JsonView::Object(got) = json_view(v) {
            assert(got =~= match check_doc(*r) {
                JsonView::Object(want) => want,
                _ => Seq::empty(),
            });
        }
    }
    v
}

fn count_value(n: usize) -> (r: JsonValue)
    ensures
        json_view(r) == count_doc(n as nat),
{
    JsonValue::Number(JsonNumber::PosInt(n as u64))
}

fn stats_value(rs: &Vec<CheckResult>) -> (v: JsonValue)
    ensures
        json_view(v) == stats_doc(rs@),
{
    let n = rs.len();
    let mut pass: usize = 0;
    let mut warn: usize = 0;
    let mut fail: usize = 0;
    for i in 0..n
        invariant
            n == rs@.len(),
            pass == count_verdicts(rs@, "pass"@, i as int),
            warn == count_verdicts(rs@, "warn"@, i as int),
            fail == count_verdicts(rs@, "fail"@, i as int),
            pass + warn + fail == i,
    {
        proof {
            reveal_strlit("pass");
            reveal_strlit("warn");
            reveal_strlit("fail");
        }
        let ghost w = verdict_word(rs@[i as int].verdict@);
        assert("pass"@[0] == 'p' && "warn"@[0] == 'w' && "fail"@[0] == 'f');
        assert(count_verdicts(rs@, "pass"@, i + 1) == count_verdicts(rs@, "pass"@, i as int) + if w == "pass"@ { 1nat } else { 0nat });
        assert(count_verdicts(rs@, "warn"@, i + 1) == count_verdicts(rs@, "warn"@, i as int) + if w == "warn"@ { 1nat } else { 0nat });
        assert(count_verdicts(rs@, "fail"@, i + 1) == count_verdicts(rs@, "fail"@, i as int) + if w == "fail"@ { 1nat } else { 0nat });
        match &rs[i].verdict {
            Verdict::Pass => {
                assert(w == "pass"@ && w != "warn"@ && w != "fail"@);
                pass += 1;
            },
            Verdict::Warn { .. } => {
                assert(w == "warn"@ && w != "pass"@ && w != "fail"@);
                warn += 1;
            },
            Verdict::Fail { .. } => {
                assert(w == "fail"@ && w != "warn"@ && w != "pass"@);
                fail += 1;
            },
        }
    }
    let es = vec![
        member("total_checks", count_value(n)),
        member("pass", count_value(pass)),
        member("warn", count_value(warn)),
        member("fail", count_value(fail)),
    ];
    let v = JsonValue::Object(es);
    assert(json_view(v) =~= stats_doc(rs@)) by {
        reveal_with_fuel(json_view, 2);
        if let JsonView::Object(got) = json_view(v) {
            assert(got =~= match stats_doc(rs@) {
                JsonView::Object(want) => want,
                _ => Seq::empty(),
            });
        }
    }
    v
}

fn output_value(verdict: &Verdict, check_results: &Vec<CheckResult>) -> (v: JsonValue)
    ensures
        json_view(v) == output_doc(verdict@, check_results@),
{
    let n = check_results.len();
    let mut checks: Vec<JsonValue> = Vec::new();
    for i in 0..n
        invariant
            n == check_results@.len(),
            checks@.len() == i,
            forall|k: int| 0 <= k < i ==> json_view(#[trigger] checks@[k]) == check_doc(check_results@[k]),
    {
        let c = check_value(&check_results[i]);
        checks.push(c);
    }
    let checks = JsonValue::Array(checks);
    assert(json_view(checks) =~= JsonView::Array(check_results@.map_values(|r: CheckResult| check_doc(r)))) by {
        if let JsonView::Array(got) = json_view(checks) {
            assert(got =~= check_results@.map_values(|r: CheckResult| check_doc(r)));
        }
    }
    let es = vec![
        member("output_schema_version", JsonValue::Number(JsonNumber::PosInt(KLASP_OUTPUT_SCHEMA as u64))),
        member("gate_schema_version", JsonValue::Number(JsonNumber::PosInt(GATE_SCHEMA_VERSION as u64))),
        member("verdict", JsonValue::Str(verdict_word_exec(verdict).to_owned())),
        member("checks", checks),
        member("stats", stats_value(check_results)),
    ];
    let v = JsonValue::Object(es);
    assert(json_view(v) =~= output_doc(verdict@, check_results@)) by {
        reveal_with_fuel(json_view, 2);
        if let JsonView::Object(got) = json_view(v) {
            assert(got =~= match output_doc(verdict@, check_results@) {
                JsonView::Object(want) => want,
                _ => Seq::empty(),
            });
        }
    }
    v
}

/// The JSON document of a gate run, pretty-printed, with a final newline:
/// the schema versions, the overall verdict word, for each check its
/// name, source, verdict word and findings, and how many checks passed,
/// warned and failed.
pub fn render(verdict: &Verdict, policy: VerdictPolicy, check_results: &Vec<CheckResult>) -> (r: String)
    ensures
        r@ == pretty_json(output_doc(verdict@, check_results@)) + "\n"@,
{
    let doc = output_value(verdict, check_results);
    let text = to_pretty_json(&doc);
    let mut out = to_chars(text.as_str());
    out.push('\n');
    proof {
        reveal_strlit("\n");
        assert(out@ =~= text@ + "\n"@);
    }
    crate::text::from_chars(&out)
}

/// `verdict` at the top of the JSON document is `"pass"`, `"warn"` or
/// `"fail"` exactly as the overall verdict is a pass, a warning or a
/// failure.
pub proof fn lemma_output_verdict_names_the_gate_verdict(verdict: VerdictView, rs: Seq<CheckResult>)
    ensures
        output_doc(verdict, rs) matches JsonView::Object(ms) && ms.len() == 5 && ms[2].0
            == "verdict"@ && ms[2].1 == JsonView::Str(
            match verdict {
                VerdictView::Pass => "pass"@,
                VerdictView::Warn { .. } => "warn"@,
                VerdictView::Fail { .. } => "fail"@,
            },
        ),
{
}

} // verus!
