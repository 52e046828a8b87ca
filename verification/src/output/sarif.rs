//! `--format sarif`: SARIF 2.1.0 for code-scanning tools.

use vstd::prelude::*;

use crate::adopt::plan::strings_view;
use crate::json::{
    items_view, json_array, json_member, json_object, json_str, json_view, members_view,
    pretty_json, to_pretty_json, JsonNumber, JsonNumberView, JsonValue, JsonView,
};
use crate::model::{findings_view, Finding, FindingView, Severity, Verdict, VerdictPolicy};
use crate::text::{
    from_chars, lemma_lex_lt_asymmetric, lemma_lex_lt_irreflexive, lemma_lex_lt_total,
    lemma_lex_lt_transitive, lex_lt, lex_lt_exec, to_chars,
};

verus! {

// ---------------------------------------------------------------------------
// Rule ids: distinct, in `str` order
// ---------------------------------------------------------------------------

/// `x` put into the ordered list `s`, unless it is there already.
pub open spec fn sorted_insert(s: Seq<Seq<char>>, x: Seq<char>) -> Seq<Seq<char>>
    decreases s.len(),
{
    if s.len() == 0 {
        seq![x]
    } else if s[0] == x {
        s
    } else if lex_lt(x, s[0]) {
        seq![x] + s
    } else {
        seq![s[0]] + sorted_insert(s.drop_first(), x)
    }
}

/// The rule ids of the first `n` findings, each once, in `str` order.
pub open spec fn rule_ids(fs: Seq<FindingView>, n: int) -> Seq<Seq<char>>
    decreases n,
{
    if n <= 0 {
        Seq::empty()
    } else {
        sorted_insert(rule_ids(fs, n - 1), fs[n - 1].rule)
    }
}

pub open spec fn strictly_sorted(s: Seq<Seq<char>>) -> bool {
    forall|a: int, b: int| 0 <= a < b < s.len() ==> lex_lt(#[trigger] s[a], #[trigger] s[b])
}

/// Inserting where the scan stopped: after every id that sorts before
/// `x`, at the first that does not.
proof fn lemma_sorted_insert_at(s: Seq<Seq<char>>, x: Seq<char>, k: int)
    requires
        0 <= k <= s.len(),
        forall|j: int| 0 <= j < k ==> lex_lt(#[trigger] s[j], x),
        k < s.len() ==> !lex_lt(s[k], x),
    ensures
        sorted_insert(s, x) == (if k < s.len() && s[k] == x {
            s
        } else {
            s.insert(k, x)
        }),
    decreases k,
{
    if s.len() == 0 {
        assert(seq![x] =~= s.insert(0, x));
    } else if k == 0 {
        if s[0] != x {
            lemma_lex_lt_total(s[0], x);
            assert(seq![x] + s =~= s.insert(0, x));
        }
    } else {
        assert(lex_lt(s[0], x));
        lemma_lex_lt_irreflexive(x);
        lemma_lex_lt_asymmetric(s[0], x);
        let t = s.drop_first();
        assert forall|j: int| 0 <= j < k - 1 implies lex_lt(#[trigger] t[j], x) by {
            assert(t[j] == s[j + 1]);
        }
        lemma_sorted_insert_at(t, x, k - 1);
        if k < s.len() && s[k] == x {
            assert(seq![s[0]] + t =~= s);
        } else {
            assert(seq![s[0]] + t.insert(k - 1, x) =~= s.insert(k, x));
        }
    }
}

/// Inserting keeps the list ordered and adds exactly `x`.
proof fn lemma_sorted_insert_sorted(s: Seq<Seq<char>>, x: Seq<char>)
    requires
        strictly_sorted(s),
    ensures
        strictly_sorted(sorted_insert(s, x)),
        forall|y: Seq<char>| #[trigger] sorted_insert(s, x).contains(y) <==> (s.contains(y) || y == x),
    decreases s.len(),
{
    let r = sorted_insert(s, x);
    if s.len() == 0 {
        assert(r =~= seq![x]);
        assert(forall|y: Seq<char>| r.contains(y) ==> r[0] == y);
        assert(r[0] == x);
    } else if s[0] == x {
        assert(s[0] == x);
    } else if lex_lt(x, s[0]) {
        assert forall|a: int, b: int| 0 <= a < b < r.len() implies lex_lt(#[trigger] r[a], #[trigger] r[b]) by {
            if a == 0 {
                assert(r[b] == s[b - 1]);
                if b - 1 > 0 {
                    lemma_lex_lt_transitive(x, s[0], s[b - 1]);
                }
            } else {
                assert(r[a] == s[a - 1] && r[b] == s[b - 1]);
            }
        }
        assert forall|y: Seq<char>| r.contains(y) <==> (s.contains(y) || y == x) by {
            if r.contains(y) {
                let i = choose|i: int| 0 <= i < r.len() && r[i] == y;
                if i > 0 {
                    assert(s[i - 1] == y);
                }
            }
            if s.contains(y) {
                let i = choose|i: int| 0 <= i < s.len() && s[i] == y;
                assert(r[i + 1] == y);
            }
            if y == x {
                assert(r[0] == y);
            }
        }
    } else {
        let t = s.drop_first();
        assert forall|a: int, b: int| 0 <= a < b < t.len() implies lex_lt(#[trigger] t[a], #[trigger] t[b]) by {
            assert(t[a] == s[a + 1] && t[b] == s[b + 1]);
        }
        lemma_sorted_insert_sorted(t, x);
        let u = sorted_insert(t, x);
        lemma_lex_lt_total(s[0], x);
        assert(lex_lt(s[0], x));
        assert(r =~= seq![s[0]] + u);
        assert forall|k: int| 0 <= k < u.len() implies lex_lt(s[0], #[trigger] u[k]) by {
            assert(u.contains(u[k]));
            if u[k] == x {
            } else {
                assert(t.contains(u[k]));
                let i = choose|i: int| 0 <= i < t.len() && t[i] == u[k];
                assert(s[i + 1] == u[k]);
            }
        }
        assert forall|a: int, b: int| 0 <= a < b < r.len() implies lex_lt(#[trigger] r[a], #[trigger] r[b]) by {
            if a == 0 {
                assert(r[b] == u[b - 1]);
            } else {
                assert(r[a] == u[a - 1] && r[b] == u[b - 1]);
            }
        }
        assert forall|y: Seq<char>| r.contains(y) <==> (s.contains(y) || y == x) by {
            if r.contains(y) {
                let i = choose|i: int| 0 <= i < r.len() && r[i] == y;
                if i > 0 {
                    assert(u[i - 1] == y);
                    assert(u.contains(y));
                    if t.contains(y) {
                        let j = choose|j: int| 0 <= j < t.len() && t[j] == y;
                        assert(s[j + 1] == y);
                    }
                } else {
                    assert(s[0] == y);
                }
            }
            if s.contains(y) {
                let i = choose|i: int| 0 <= i < s.len() && s[i] == y;
                if i == 0 {
                    assert(r[0] == y);
                } else {
                    assert(t[i - 1] == y);
                    assert(t.contains(y));
                    assert(u.contains(y));
                    let j = choose|j: int| 0 <= j < u.len() && u[j] == y;
                    assert(r[j + 1] == y);
                }
            }
            if y == x {
                assert(u.contains(y));
                let j = choose|j: int| 0 <= j < u.len() && u[j] == y;
                assert(r[j + 1] == y);
            }
        }
    }
}

/// The rules section lists each rule id of the findings exactly once,
/// in `str` order, and no other id.
pub proof fn lemma_rule_ids_sorted_distinct(fs: Seq<FindingView>, n: int)
    requires
        0 <= n <= fs.len(),
    ensures
        strictly_sorted(rule_ids(fs, n)),
        forall|y: Seq<char>| #[trigger] rule_ids(fs, n).contains(y) <==> exists|i: int| 0 <= i < n && #[trigger] fs[i].rule == y,
    decreases n,
{
    if n > 0 {
        lemma_rule_ids_sorted_distinct(fs, n - 1);
        lemma_sorted_insert_sorted(rule_ids(fs, n - 1), fs[n - 1].rule);
        assert forall|y: Seq<char>| #[trigger] rule_ids(fs, n).contains(y) <==> exists|i: int| 0 <= i < n && #[trigger] fs[i].rule == y by {
            assert(rule_ids(fs, n) == sorted_insert(rule_ids(fs, n - 1), fs[n - 1].rule));
            assert(rule_ids(fs, n).contains(y) <==> (rule_ids(fs, n - 1).contains(y) || y == fs[n - 1].rule));
            if exists|i: int| 0 <= i < n && #[trigger] fs[i].rule == y {
                let i = choose|i: int| 0 <= i < n && #[trigger] fs[i].rule == y;
                if i < n - 1 {
                    assert(exists|j: int| 0 <= j < n - 1 && #[trigger] fs[j].rule == y);
                }
            }
        }
    }
}

/// The distinct rule ids of the findings, in `str` order.
fn rule_ids_exec(fs: &Vec<Finding>) -> (r: Vec<String>)
    ensures
        strings_view(r@) == rule_ids(findings_view(fs@), fs@.len() as int),
{
    let ghost fv = findings_view(fs@);
    let n = fs.len();
    let mut out: Vec<String> = Vec::new();
    for i in 0..n
        invariant
            n == fs@.len(),
            fv == findings_view(fs@),
            strings_view(out@) == rule_ids(fv, i as int),
    {
        let ghost s = strings_view(out@);
        let x = to_chars(fs[i].rule.as_str());
        assert(x@ == fv[i as int].rule);
        let m = out.len();
        let mut k: usize = 0;
        while k < m && lex_lt_exec(&to_chars(out[k].as_str()), &x)
            invariant
                m == out@.len(),
                k <= m,
                s == strings_view(out@),
                forall|j: int| 0 <= j < k ==> lex_lt(#[trigger] s[j], x@),
            decreases m - k,
        {
            assert(s[k as int] == out@[k as int]@);
            k += 1;
        }
        proof {
            if k < m {
                assert(s[k as int] == out@[k as int]@);
            }
            lemma_sorted_insert_at(s, x@, k as int);
        }
        let present = k < m && crate::text::str_eq(out[k].as_str(), fs[i].rule.as_str());
        if !present {
            out.insert(k, fs[i].rule.clone());
            assert(strings_view(out@) =~= s.insert(k as int, x@));
        }
    }
    out
}

// ---------------------------------------------------------------------------
// The document
// ---------------------------------------------------------------------------

pub open spec fn sarif_schema_uri() -> Seq<char> {
    "https://raw.githubusercontent.com/oasis-tcs/sarif-spec/master/Schemata/sarif-schema-2.1.0.json"@
}

/// The version this build of klasp reports as the tool's.
pub open spec fn tool_version() -> Seq<char> {
    "0.1.0"@
}

pub open spec fn level_word(s: Severity) -> Seq<char> {
    match s {
        Severity::Error => "error"@,
        Severity::Warn => "warning"@,
        Severity::Info => "note"@,
    }
}

pub open spec fn text_doc(t: Seq<char>) -> JsonView {
    JsonView::Object(seq![("text"@, JsonView::Str(t))])
}

pub open spec fn rule_doc(id: Seq<char>) -> JsonView {
    JsonView::Object(
        seq![("id"@, JsonView::Str(id)), ("name"@, JsonView::Str(id)), ("shortDescription"@, text_doc(id))],
    )
}

/// Where a finding is: the file, and its line when known; none without a
/// file.
pub open spec fn location_doc(f: FindingView) -> Option<JsonView> {
    match (f.file, f.line) {
        (Some(file), Some(line)) => Some(
            JsonView::Object(
                seq![
                    ("artifactLocation"@, JsonView::Object(seq![("uri"@, JsonView::Str(file))])),
                    ("region"@, JsonView::Object(seq![("startLine"@, JsonView::Number(JsonNumberView::PosInt(line as u64)))])),
                ],
            ),
        ),
        (Some(file), None) => Some(
            JsonView::Object(seq![("artifactLocation"@, JsonView::Object(seq![("uri"@, JsonView::Str(file))]))]),
        ),
        _ => None,
    }
}

/// One result; `locations` only when the finding has a location.
pub open spec fn result_doc(f: FindingView) -> JsonView {
    JsonView::Object(
        seq![
            ("ruleId"@, JsonView::Str(f.rule)),
            ("level"@, JsonView::Str(level_word(f.severity))),
            ("message"@, text_doc(f.message)),
        ] + match location_doc(f) {
            Some(p) => seq![("locations"@, JsonView::Array(seq![JsonView::Object(seq![("physicalLocation"@, p)])]))],
            None => Seq::empty(),
        },
    )
}

/// The SARIF log: one run of the klasp tool, with the rules the findings
/// use and one result per finding.
pub open spec fn sarif_doc(fs: Seq<FindingView>) -> JsonView {
    JsonView::Object(
        seq![
            ("$schema"@, JsonView::Str(sarif_schema_uri())),
            ("version"@, JsonView::Str("2.1.0"@)),
            ("runs"@, JsonView::Array(seq![
                JsonView::Object(seq![
                    ("tool"@, JsonView::Object(seq![
                        ("driver"@, JsonView::Object(seq![
                            ("name"@, JsonView::Str("klasp"@)),
                            ("version"@, JsonView::Str(tool_version())),
                            ("informationUri"@, JsonView::Str("https://klasp.dev"@)),
                            ("rules"@, JsonView::Array(rule_ids(fs, fs.len() as int).map_values(|id: Seq<char>| rule_doc(id)))),
                        ])),
                    ])),
                    ("results"@, JsonView::Array(fs.map_values(|f: FindingView| result_doc(f)))),
                ]),
            ])),
        ],
    )
}

fn text_value(t: &str) -> (r: JsonValue)
    ensures
        json_view(r) == text_doc(t@),
{
    let es = vec![json_member("text", json_str(t))];
    let r = json_object(es);
    assert(members_view(es@) =~= seq![("text"@, JsonView::Str(t@))]);
    r
}

fn rule_value(id: &str) -> (r: JsonValue)
    ensures
        json_view(r) == rule_doc(id@),
{
    let es = vec![json_member("id", json_str(id)), json_member("name", json_str(id)), json_member("shortDescription", text_value(id))];
    let ghost want = seq![("id"@, JsonView::Str(id@)), ("name"@, JsonView::Str(id@)), ("shortDescription"@, text_doc(id@))];
    let r = json_object(es);
    assert(members_view(es@) =~= want);
    r
}

fn level_word_exec(s: Severity) -> (r: &'static str)
    ensures
        r@ == level_word(s),
{
    match s {
        Severity::Error => "error",
        Severity::Warn => "warning",
        Severity::Info => "note",
    }
}

fn uri_value(file: &str) -> (r: JsonValue)
    ensures
        json_view(r) == JsonView::Object(seq![("uri"@, JsonView::Str(file@))]),
{
    let es = vec![json_member("uri", json_str(file))];
    let r = json_object(es);
    assert(members_view(es@) =~= seq![("uri"@, JsonView::Str(file@))]);
    r
}

fn location_value(f: &Finding) -> (r: Option<JsonValue>)
    ensures
        match r {
            Some(v) => location_doc(f@) == Some(json_view(v)),
            None => location_doc(f@) is None,
        },
{
    match (&f.file, f.line) {
        (Some(file), Some(line)) => {
            let region_es = vec![json_member("startLine", JsonValue::Number(JsonNumber::PosInt(line as u64)))];
            let region = json_object(region_es);
            assert(members_view(region_es@) =~= seq![("startLine"@, JsonView::Number(JsonNumberView::PosInt(line as u64)))]);
            let es = vec![json_member("artifactLocation", uri_value(file.as_str())), json_member("region", region)];
            let ghost want = seq![
                ("artifactLocation"@, JsonView::Object(seq![("uri"@, JsonView::Str(file@))])),
                ("region"@, JsonView::Object(seq![("startLine"@, JsonView::Number(JsonNumberView::PosInt(line as u64)))])),
            ];
            let r = json_object(es);
            assert(members_view(es@) =~= want);
            Some(r)
        },
        (Some(file), None) => {
            let es = vec![json_member("artifactLocation", uri_value(file.as_str()))];
            let ghost want = seq![("artifactLocation"@, JsonView::Object(seq![("uri"@, JsonView::Str(file@))]))];
            let r = json_object(es);
            assert(members_view(es@) =~= want);
            Some(r)
        },
        _ => None,
    }
}

fn result_value(f: &Finding) -> (r: JsonValue)
    ensures
        json_view(r) == result_doc(f@),
{
    let mut es = vec![
        json_member("ruleId", json_str(f.rule.as_str())),
        json_member("level", json_str(level_word_exec(f.severity))),
        json_member("message", text_value(f.message.as_str())),
    ];
    let ghost head = seq![
        ("ruleId"@, JsonView::Str(f@.rule)),
        ("level"@, JsonView::Str(level_word(f.severity))),
        ("message"@, text_doc(f@.message)),
    ];
    assert(members_view(es@) =~= head);
    match location_value(f) {
        Some(p) => {
            let ghost pv = json_view(p);
            let inner_es = vec![json_member("physicalLocation", p)];
            let inner = json_object(inner_es);
            assert(members_view(inner_es@) =~= seq![("physicalLocation"@, pv)]);
            let items = vec![inner];
            let arr = json_array(items);
            assert(items_view(items@) =~= seq![JsonView::Object(seq![("physicalLocation"@, pv)])]);
            let ghost before = es@;
            es.push(json_member("locations", arr));
            assert(members_view(es@) =~= head + seq![("locations"@, JsonView::Array(seq![JsonView::Object(seq![("physicalLocation"@, pv)])]))]) by {
                assert(members_view(es@) =~= members_view(before).push(("locations"@, json_view(arr))));
            }
        },
        None => {
            assert(head + Seq::<(Seq<char>, JsonView)>::empty() =~= head);
        },
    }
    json_object(es)
}

fn sarif_value(fs: &Vec<Finding>) -> (r: JsonValue)
    ensures
        json_view(r) == sarif_doc(findings_view(fs@)),
{
    let ghost fv = findings_view(fs@);
    let ids = rule_ids_exec(fs);
    let m = ids.len();
    let mut rules: Vec<JsonValue> = Vec::new();
    for i in 0..m
        invariant
            m == ids@.len(),
            strings_view(ids@) == rule_ids(fv, fv.len() as int),
            rules@.len() == i,
            forall|k: int| 0 <= k < i ==> json_view(#[trigger] rules@[k]) == rule_doc(ids@[k]@),
    {
        rules.push(rule_value(ids[i].as_str()));
    }
    assert(items_view(rules@) =~= rule_ids(fv, fv.len() as int).map_values(|id: Seq<char>| rule_doc(id))) by {
        assert forall|k: int| 0 <= k < m implies #[trigger] items_view(rules@)[k] == rule_ids(fv, fv.len() as int).map_values(|id: Seq<char>| rule_doc(id))[k] by {
            assert(strings_view(ids@)[k] == ids@[k]@);
        }
    }
    let rules = json_array(rules);
    let n = fs.len();
    let mut results: Vec<JsonValue> = Vec::new();
    for i in 0..n
        invariant
            n == fs@.len(),
            fv == findings_view(fs@),
            results@.len() == i,
            forall|k: int| 0 <= k < i ==> json_view(#[trigger] results@[k]) == result_doc(fv[k]),
    {
        results.push(result_value(&fs[i]));
    }
    assert(items_view(results@) =~= fv.map_values(|f: FindingView| result_doc(f)));
    let results = json_array(results);
    let driver_es = vec![
        json_member("name", json_str("klasp")),
        json_member("version", json_str("0.1.0")),
        json_member("informationUri", json_str("https://klasp.dev")),
        json_member("rules", rules),
    ];
    let ghost driver_want = seq![
        ("name"@, JsonView::Str("klasp"@)),
        ("version"@, JsonView::Str(tool_version())),
        ("informationUri"@, JsonView::Str("https://klasp.dev"@)),
        ("rules"@, JsonView::Array(rule_ids(fv, fv.len() as int).map_values(|id: Seq<char>| rule_doc(id)))),
    ];
    assert(members_view(driver_es@) =~= driver_want);
    let driver = json_object(driver_es);
    let tool_es = vec![json_member("driver", driver)];
    assert(members_view(tool_es@) =~= seq![("driver"@, JsonView::Object(driver_want))]);
    let tool = json_object(tool_es);
    let ghost tool_want = JsonView::Object(seq![("driver"@, JsonView::Object(driver_want))]);
    let run_es = vec![json_member("tool", tool), json_member("results", results)];
    let ghost run_want = seq![("tool"@, tool_want), ("results"@, JsonView::Array(fv.map_values(|f: FindingView| result_doc(f))))];
    assert(members_view(run_es@) =~= run_want);
    let run = json_object(run_es);
    let runs_items = vec![run];
    assert(items_view(runs_items@) =~= seq![JsonView::Object(run_want)]);
    let runs = json_array(runs_items);
    let es = vec![
        json_member("$schema", json_str("https://raw.githubusercontent.com/oasis-tcs/sarif-spec/master/Schemata/sarif-schema-2.1.0.json")),
        json_member("version", json_str("2.1.0")),
        json_member("runs", runs),
    ];
    let ghost want = seq![
        ("$schema"@, JsonView::Str(sarif_schema_uri())),
        ("version"@, JsonView::Str("2.1.0"@)),
        ("runs"@, JsonView::Array(seq![JsonView::Object(run_want)])),
    ];
    assert(members_view(es@) =~= want);
    json_object(es)
}

/// The SARIF 2.1.0 log of the verdict's findings, pretty-printed, with a
/// final newline.
pub fn render(verdict: &Verdict, policy: VerdictPolicy) -> (r: String)
    ensures
        r@ == pretty_json(sarif_doc(verdict@.findings())) + "\n"@,
{
    let empty: Vec<Finding> = Vec::new();
    let findings = match verdict {
        Verdict::Pass => &empty,
        Verdict::Warn { findings, .. } => findings,
        Verdict::Fail { findings, .. } => findings,
    };
    assert(findings_view(findings@) == verdict@.findings()) by {
        if verdict is Pass {
            assert(findings_view(empty@) =~= Seq::<FindingView>::empty());
        }
    }
    let doc = sarif_value(findings);
    let text = to_pretty_json(&doc);
    let mut out = to_chars(text.as_str());
    out.push('\n');
    proof {
        reveal_strlit("\n");
        assert(out@ =~= text@ + "\n"@);
    }
    from_chars(&out)
}

} // verus!
