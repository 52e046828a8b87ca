//! `--format junit`: JUnit XML (Surefire schema) for CI test reporters.

use vstd::prelude::*;

use crate::model::{
    findings_view, Finding, FindingView, Severity, Verdict, VerdictPolicy, VerdictView,
};
use crate::sources::recipe_util::{count_exec, count_severity};
use crate::text::{decimal, extend_str, from_chars, push_decimal, to_chars};
use crate::xml::{attrs_view, events_view, write_xml, xml_text, XmlEvent, XmlEventView};

verus! {

pub open spec fn attr(k: Seq<char>, v: Seq<char>) -> (Seq<char>, Seq<char>) {
    (k, v)
}

pub open spec fn severity_tag(s: Severity) -> Seq<char> {
    match s {
        Severity::Error => "error"@,
        Severity::Warn => "warn"@,
        Severity::Info => "info"@,
    }
}

/// The test class of a finding: its file, else its rule.
pub open spec fn case_class(f: FindingView) -> Seq<char> {
    match f.file {
        Some(file) => file,
        None => f.rule,
    }
}

/// The test name of a finding: `rule:file:line`, `rule:file` or `rule`.
pub open spec fn case_name(f: FindingView) -> Seq<char> {
    match (f.file, f.line) {
        (Some(file), Some(line)) => f.rule + ":"@ + file + ":"@ + decimal(line as nat),
        (Some(file), None) => f.rule + ":"@ + file,
        _ => f.rule,
    }
}

/// An error is a failing test case carrying its message; a warning or
/// note is a passing case tagged with its severity.
pub open spec fn case_events(f: FindingView) -> Seq<XmlEventView> {
    if f.severity == Severity::Error {
        seq![
            XmlEventView::Start {
                name: "testcase"@,
                attrs: seq![attr("classname"@, case_class(f)), attr("name"@, case_name(f)), attr("time"@, "0"@)],
            },
            XmlEventView::Start { name: "failure"@, attrs: seq![attr("message"@, f.message)] },
            XmlEventView::Text(f.message),
            XmlEventView::End("failure"@),
            XmlEventView::End("testcase"@),
        ]
    } else {
        seq![
            XmlEventView::Empty {
                name: "testcase"@,
                attrs: seq![
                    attr("classname"@, case_class(f)),
                    attr("name"@, case_name(f) + " ["@ + severity_tag(f.severity) + "]"@),
                    attr("time"@, "0"@),
                ],
            },
        ]
    }
}

/// The test cases of the first `n` findings, in order.
pub open spec fn cases_upto(fs: Seq<FindingView>, n: int) -> Seq<XmlEventView>
    decreases n,
{
    if n <= 0 {
        Seq::empty()
    } else {
        cases_upto(fs, n - 1) + case_events(fs[n - 1])
    }
}

pub open spec fn failure_count(v: VerdictView) -> nat {
    match v {
        VerdictView::Fail { findings, .. } => count_severity(findings, Severity::Error),
        _ => 0,
    }
}

/// One test per finding; a verdict without findings is one passing test.
pub open spec fn test_count(v: VerdictView) -> nat {
    if v.findings().len() == 0 {
        1
    } else {
        v.findings().len()
    }
}

/// A report never has more failures than tests, and at least one test.
pub proof fn lemma_failures_within_tests(v: VerdictView)
    ensures
        failure_count(v) <= test_count(v),
        test_count(v) >= 1,
{
    match v {
        VerdictView::Fail { findings, .. } => crate::sources::recipe_util::lemma_count_severity_le(findings, Severity::Error),
        _ => {},
    }
}

pub open spec fn suite_attrs(v: VerdictView) -> Seq<(Seq<char>, Seq<char>)> {
    seq![
        attr("name"@, "klasp"@),
        attr("tests"@, decimal(test_count(v))),
        attr("failures"@, decimal(failure_count(v))),
        attr("errors"@, "0"@),
    ]
}

/// The events of the report: the declaration, `<testsuites>` and one
/// `<testsuite>` with the counts, then the cases (a single passing `gate`
/// case when there are no findings).
pub open spec fn junit_events(v: VerdictView) -> Seq<XmlEventView> {
    seq![
        XmlEventView::Decl { version: "1.0"@, encoding: "utf-8"@ },
        XmlEventView::Start { name: "testsuites"@, attrs: suite_attrs(v) },
        XmlEventView::Start { name: "testsuite"@, attrs: suite_attrs(v).push(attr("time"@, "0"@)) },
    ] + (if v.findings().len() == 0 {
        seq![
            XmlEventView::Empty {
                name: "testcase"@,
                attrs: seq![attr("classname"@, "klasp"@), attr("name"@, "gate"@), attr("time"@, "0"@)],
            },
        ]
    } else {
        cases_upto(v.findings(), v.findings().len() as int)
    }) + seq![XmlEventView::End("testsuite"@), XmlEventView::End("testsuites"@)]
}

fn owned(s: &str) -> (r: String)
    ensures
        r@ == s@,
{
    s.to_owned()
}

fn pair(k: &str, v: &str) -> (r: (String, String))
    ensures
        r.0@ == k@,
        r.1@ == v@,
{
    (k.to_owned(), v.to_owned())
}

fn decimal_string(n: u64) -> (r: String)
    ensures
        r@ == decimal(n as nat),
{
    let mut out: Vec<char> = Vec::new();
    push_decimal(&mut out, n);
    assert(out@ =~= decimal(n as nat));
    from_chars(&out)
}

fn severity_tag_exec(s: Severity) -> (r: &'static str)
    ensures
        r@ == severity_tag(s),
{
    match s {
        Severity::Error => "error",
        Severity::Warn => "warn",
        Severity::Info => "info",
    }
}

fn case_name_exec(f: &Finding) -> (r: Vec<char>)
    ensures
        r@ == case_name(f@),
{
    let mut out = to_chars(f.rule.as_str());
    match (&f.file, f.line) {
        (Some(file), Some(line)) => {
            extend_str(&mut out, ":");
            extend_str(&mut out, file.as_str());
            extend_str(&mut out, ":");
            push_decimal(&mut out, line as u64);
        },
        (Some(file), None) => {
            extend_str(&mut out, ":");
            extend_str(&mut out, file.as_str());
        },
        _ => {},
    }
    out
}

fn push_case(out: &mut Vec<XmlEvent>, f: &Finding)
    ensures
        events_view(final(out)@) == events_view(old(out)@) + case_events(f@),
{
    let ghost before = events_view(out@);
    let class = match &f.file {
        Some(file) => owned(file.as_str()),
        None => owned(f.rule.as_str()),
    };
    let name = case_name_exec(f);
    if f.severity == Severity::Error {
        let attrs = vec![(owned("classname"), class), (owned("name"), from_chars(&name)), pair("time", "0")];
        let e0 = XmlEvent::Start { name: owned("testcase"), attrs };
        assert(attrs_view(attrs@) =~= seq![attr("classname"@, case_class(f@)), attr("name"@, case_name(f@)), attr("time"@, "0"@)]);
        let fattrs = vec![(owned("message"), f.message.clone())];
        assert(attrs_view(fattrs@) =~= seq![attr("message"@, f@.message)]);
        let e1 = XmlEvent::Start { name: owned("failure"), attrs: fattrs };
        out.push(e0);
        out.push(e1);
        out.push(XmlEvent::Text(f.message.clone()));
        out.push(XmlEvent::End(owned("failure")));
        out.push(XmlEvent::End(owned("testcase")));
        assert(events_view(out@) =~= before + case_events(f@));
    } else {
        let mut tagged = name;
        extend_str(&mut tagged, " [");
        extend_str(&mut tagged, severity_tag_exec(f.severity));
        extend_str(&mut tagged, "]");
        let attrs = vec![(owned("classname"), class), (owned("name"), from_chars(&tagged)), pair("time", "0")];
        assert(attrs_view(attrs@) =~= seq![
            attr("classname"@, case_class(f@)),
            attr("name"@, case_name(f@) + " ["@ + severity_tag(f.severity) + "]"@),
            attr("time"@, "0"@),
        ]);
        out.push(XmlEvent::Empty { name: owned("testcase"), attrs });
        assert(events_view(out@) =~= before + case_events(f@));
    }
}

fn suite_attrs_exec(tests: u64, failures: u64, time: bool) -> (r: Vec<(String, String)>)
    ensures
        attrs_view(r@) == (if time {
            seq![
                attr("name"@, "klasp"@),
                attr("tests"@, decimal(tests as nat)),
                attr("failures"@, decimal(failures as nat)),
                attr("errors"@, "0"@),
                attr("time"@, "0"@),
            ]
        } else {
            seq![
                attr("name"@, "klasp"@),
                attr("tests"@, decimal(tests as nat)),
                attr("failures"@, decimal(failures as nat)),
                attr("errors"@, "0"@),
            ]
        }),
{
    let mut r = vec![
        pair("name", "klasp"),
        (owned("tests"), decimal_string(tests)),
        (owned("failures"), decimal_string(failures)),
        pair("errors", "0"),
    ];
    let ghost base = attrs_view(r@);
    if time {
        r.push(pair("time", "0"));
        assert(attrs_view(r@) =~= base.push(attr("time"@, "0"@)));
    }
    assert(attrs_view(r@) =~= (if time {
        seq![
            attr("name"@, "klasp"@),
            attr("tests"@, decimal(tests as nat)),
            attr("failures"@, decimal(failures as nat)),
            attr("errors"@, "0"@),
            attr("time"@, "0"@),
        ]
    } else {
        seq![
            attr("name"@, "klasp"@),
            attr("tests"@, decimal(tests as nat)),
            attr("failures"@, decimal(failures as nat)),
            attr("errors"@, "0"@),
        ]
    }));
    r
}

/// The events of the JUnit report of a verdict.
pub fn junit_event_list(verdict: &Verdict) -> (r: Vec<XmlEvent>)
    ensures
        events_view(r@) == junit_events(verdict@),
{
    let empty: Vec<Finding> = Vec::new();
    let findings = match verdict {
        Verdict::Pass => &empty,
        Verdict::Warn { findings, .. } => findings,
        Verdict::Fail { findings, .. } => findings,
    };
    let ghost fv = findings_view(findings@);
    assert(fv == verdict@.findings()) by {
        if verdict is Pass {
            assert(findings_view(empty@) =~= Seq::<FindingView>::empty());
        }
    }
    let failures: u64 = match verdict {
        Verdict::Fail { findings, .. } => count_exec(findings, Severity::Error),
        _ => 0,
    };
    let n = findings.len();
    let tests: u64 = if n == 0 { 1 } else { n as u64 };
    let mut out: Vec<XmlEvent> = Vec::new();
    out.push(XmlEvent::Decl { version: owned("1.0"), encoding: owned("utf-8") });
    out.push(XmlEvent::Start { name: owned("testsuites"), attrs: suite_attrs_exec(tests, failures, false) });
    out.push(XmlEvent::Start { name: owned("testsuite"), attrs: suite_attrs_exec(tests, failures, true) });
    let ghost head = events_view(out@);
    assert(tests as nat == test_count(verdict@));
    assert(failures as nat == failure_count(verdict@));
    assert(suite_attrs(verdict@).push(attr("time"@, "0"@)) =~= seq![
        attr("name"@, "klasp"@),
        attr("tests"@, decimal(tests as nat)),
        attr("failures"@, decimal(failures as nat)),
        attr("errors"@, "0"@),
        attr("time"@, "0"@),
    ]);
    assert(head =~= seq![
        XmlEventView::Decl { version: "1.0"@, encoding: "utf-8"@ },
        XmlEventView::Start { name: "testsuites"@, attrs: suite_attrs(verdict@) },
        XmlEventView::Start { name: "testsuite"@, attrs: suite_attrs(verdict@).push(attr("time"@, "0"@)) },
    ]);
    if n == 0 {
        let attrs = vec![pair("classname", "klasp"), pair("name", "gate"), pair("time", "0")];
        assert(attrs_view(attrs@) =~= seq![attr("classname"@, "klasp"@), attr("name"@, "gate"@), attr("time"@, "0"@)]);
        out.push(XmlEvent::Empty { name: owned("testcase"), attrs });
    } else {
        for i in 0..n
            invariant
                n == findings@.len(),
                fv == findings_view(findings@),
                events_view(out@) == head + cases_upto(fv, i as int),
        {
            push_case(&mut out, &findings[i]);
            assert(head + cases_upto(fv, i + 1) =~= head + cases_upto(fv, i as int) + case_events(fv[i as int]));
        }
    }
    let ghost mid = events_view(out@);
    out.push(XmlEvent::End(owned("testsuite")));
    out.push(XmlEvent::End(owned("testsuites")));
    assert(events_view(out@) =~= mid + seq![XmlEventView::End("testsuite"@), XmlEventView::End("testsuites"@)]);
    assert(events_view(out@) =~= junit_events(verdict@));
    out
}

/// The JUnit XML report of a verdict, with a final newline.
pub fn render(verdict: &Verdict, policy: VerdictPolicy) -> (r: String)
    ensures
        r@ == xml_text(junit_events(verdict@)) + "\n"@,
{
    let events = junit_event_list(verdict);
    let text = write_xml(&events);
    let mut out = to_chars(text.as_str());
    out.push('\n');
    proof {
        reveal_strlit("\n");
        assert(out@ =~= text@ + "\n"@);
    }
    from_chars(&out)
}

} // verus!
