//! The human-readable report written to the agent's stderr.

use vstd::prelude::*;

use crate::model::{
    findings_view, Finding, FindingView, Severity, Verdict, VerdictPolicy, VerdictView,
};
use crate::sources::recipe_util::{count_exec, count_severity};
use crate::text::{decimal, extend_str, from_chars, push_decimal};

verus! {

pub open spec fn severity_tag(s: Severity) -> Seq<char> {
    match s {
        Severity::Error => "error"@,
        Severity::Warn => "warn"@,
        Severity::Info => "info"@,
    }
}

/// ` (file:line)`, ` (file)` or nothing.
pub open spec fn location(f: FindingView) -> Seq<char> {
    match (f.file, f.line) {
        (Some(file), Some(line)) => " ("@ + file + ":"@ + decimal(line as nat) + ")"@,
        (Some(file), None) => " ("@ + file + ")"@,
        _ => Seq::empty(),
    }
}

pub open spec fn warn_lines(fs: Seq<FindingView>) -> Seq<char>
    decreases fs.len(),
{
    if fs.len() == 0 {
        Seq::empty()
    } else {
        warn_lines(fs.drop_last()) + "  - ["@ + fs.last().rule + "] "@ + fs.last().message + "\n"@
    }
}

pub open spec fn fail_lines(fs: Seq<FindingView>) -> Seq<char>
    decreases fs.len(),
{
    if fs.len() == 0 {
        Seq::empty()
    } else {
        fail_lines(fs.drop_last()) + "  - ["@ + severity_tag(fs.last().severity) + "]["@
            + fs.last().rule + "] "@ + fs.last().message + location(fs.last()) + "\n"@
    }
}

pub open spec fn policy_name(p: VerdictPolicy) -> Seq<char> {
    match p {
        VerdictPolicy::AnyFail => "AnyFail"@,
    }
}

pub open spec fn spec_render(v: VerdictView, policy: VerdictPolicy) -> Seq<char> {
    match v {
        VerdictView::Pass => Seq::empty(),
        VerdictView::Warn { findings, message } => "klasp-gate: warnings ("@ + decimal(findings.len())
            + " findings):\n"@ + match message {
            Some(m) => "  "@ + m + "\n"@,
            None => Seq::empty(),
        } + warn_lines(findings),
        VerdictView::Fail { findings, message } => "klasp-gate: blocked ("@ + decimal(
            count_severity(findings, Severity::Error),
        ) + " errors, "@ + decimal(findings.len()) + " findings total, policy="@ + policy_name(policy)
            + "):\n"@ + message + "\n"@ + fail_lines(findings),
    }
}

fn push_severity_tag(out: &mut Vec<char>, s: Severity)
    ensures
        final(out)@ == old(out)@ + severity_tag(s),
{
    match s {
        Severity::Error => extend_str(out, "error"),
        Severity::Warn => extend_str(out, "warn"),
        Severity::Info => extend_str(out, "info"),
    }
}

fn push_location(out: &mut Vec<char>, f: &Finding)
    ensures
        final(out)@ == old(out)@ + location(f@),
{
    match (&f.file, f.line) {
        (Some(file), Some(line)) => {
            extend_str(out, " (");
            extend_str(out, file.as_str());
            extend_str(out, ":");
            push_decimal(out, line as u64);
            extend_str(out, ")");
        },
        (Some(file), None) => {
            extend_str(out, " (");
            extend_str(out, file.as_str());
            extend_str(out, ")");
        },
        _ => {
            assert(old(out)@ + Seq::<char>::empty() =~= old(out)@);
        },
    }
}

/// The report: nothing for a pass; for a warning, the count, the message
/// and each finding `- [rule] message`; for a block, the error and total
/// counts and the policy, the message, and each finding with its
/// severity and location.
pub fn render(verdict: &Verdict, policy: VerdictPolicy) -> (r: String)
    ensures
        r@ == spec_render(verdict@, policy),
{
    let mut out: Vec<char> = Vec::new();
    match verdict {
        Verdict::Pass => {},
        Verdict::Warn { findings, message } => {
            extend_str(&mut out, "klasp-gate: warnings (");
            push_decimal(&mut out, findings.len() as u64);
            extend_str(&mut out, " findings):\n");
            match message {
                Some(m) => {
                    extend_str(&mut out, "  ");
                    extend_str(&mut out, m.as_str());
                    extend_str(&mut out, "\n");
                },
                None => {},
            }
            let ghost base = out@;
            let n = findings.len();
            for i in 0..n
                invariant
                    n == findings@.len(),
                    out@ == base + warn_lines(findings_view(findings@).take(i as int)),
            {
                let ghost fv = findings_view(findings@);
                assert(fv.take(i + 1).drop_last() =~= fv.take(i as int));
                assert(fv.take(i + 1).last() == findings@[i as int]@);
                let ghost before = out@;
                extend_str(&mut out, "  - [");
                extend_str(&mut out, findings[i].rule.as_str());
                extend_str(&mut out, "] ");
                extend_str(&mut out, findings[i].message.as_str());
                extend_str(&mut out, "\n");
                let ghost f = findings@[i as int]@;
                assert(out@ =~= before + ("  - ["@ + f.rule + "] "@ + f.message + "\n"@));
                assert(warn_lines(fv.take(i + 1)) == warn_lines(fv.take(i as int)) + "  - ["@ + f.rule
                    + "] "@ + f.message + "\n"@);
            }
            assert(findings_view(findings@).take(n as int) =~= findings_view(findings@));
        },
        Verdict::Fail { findings, message } => {
            extend_str(&mut out, "klasp-gate: blocked (");
            push_decimal(&mut out, count_exec(findings, Severity::Error));
            extend_str(&mut out, " errors, ");
            push_decimal(&mut out, findings.len() as u64);
            extend_str(&mut out, " findings total, policy=");
            match policy {
                VerdictPolicy::AnyFail => extend_str(&mut out, "AnyFail"),
            }
            extend_str(&mut out, "):\n");
            extend_str(&mut out, message.as_str());
            extend_str(&mut out, "\n");
            let ghost base = out@;
            let n = findings.len();
            for i in 0..n
                invariant
                    n == findings@.len(),
                    out@ == base + fail_lines(findings_view(findings@).take(i as int)),
            {
                let ghost fv = findings_view(findings@);
                assert(fv.take(i + 1).drop_last() =~= fv.take(i as int));
                assert(fv.take(i + 1).last() == findings@[i as int]@);
                let ghost before = out@;
                extend_str(&mut out, "  - [");
                push_severity_tag(&mut out, findings[i].severity);
                extend_str(&mut out, "][");
                extend_str(&mut out, findings[i].rule.as_str());
                extend_str(&mut out, "] ");
                extend_str(&mut out, findings[i].message.as_str());
                push_location(&mut out, &findings[i]);
                extend_str(&mut out, "\n");
                let ghost f = findings@[i as int]@;
                assert(fail_lines(fv.take(i + 1)) == fail_lines(fv.take(i as int)) + "  - ["@
                    + severity_tag(f.severity) + "]["@ + f.rule + "] "@ + f.message + location(f) + "\n"@);
            }
            assert(findings_view(findings@).take(n as int) =~= findings_view(findings@));
        },
    }
    proof {
        assert(out@ =~= spec_render(verdict@, policy));
    }
    from_chars(&out)
}

} // verus!
