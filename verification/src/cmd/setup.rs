//! `klasp setup`: the answers and summaries of the first-run walkthrough.

use vstd::prelude::*;

use crate::adopt::plan::{strings_view, AdoptionPlan, DetectedGate, DetectedGateView};
use crate::text::{extend_str, from_chars, join_sep, join_sep_exec, to_chars, trim, trim_exec};

verus! {

/// `c` lower-cased, for ASCII letters.
pub open spec fn ascii_lower(c: char) -> char {
    if 'A' <= c && c <= 'Z' {
        ((c as u32) + 32) as char
    } else {
        c
    }
}

/// `s` equals the lower-case word `w`, ignoring the case of ASCII letters.
pub open spec fn eq_ignore_case(s: Seq<char>, w: Seq<char>) -> bool {
    s.len() == w.len() && forall|i: int| 0 <= i < s.len() ==> ascii_lower(#[trigger] s[i]) == w[i]
}

/// A yes/no answer: `y`/`yes` is yes; `n`/`no` or an empty line is no
/// (the default); anything else asks again. Case and surrounding
/// whitespace do not matter.
pub open spec fn spec_parse_yes_no(line: Seq<char>) -> Option<bool> {
    let t = trim(line);
    if eq_ignore_case(t, "y"@) || eq_ignore_case(t, "yes"@) {
        Some(true)
    } else if eq_ignore_case(t, "n"@) || eq_ignore_case(t, "no"@) || t.len() == 0 {
        Some(false)
    } else {
        None
    }
}

fn lower_char(c: char) -> (r: char)
    ensures
        r == ascii_lower(c),
{
    if 'A' <= c && c <= 'Z' {
        proof {
            assert(((c as u32) + 32) as char == ascii_lower(c));
        }
        ((c as u32 + 32) as u8) as char
    } else {
        c
    }
}

fn eq_ignore_case_exec(s: &Vec<char>, w: &str) -> (r: bool)
    requires
        w@.len() <= 3,
    ensures
        r == eq_ignore_case(s@, w@),
{
    let wv = to_chars(w);
    if s.len() != wv.len() {
        return false;
    }
    let n = s.len();
    for i in 0..n
        invariant
            n == s@.len(),
            n == wv@.len(),
            wv@ == w@,
            forall|k: int| 0 <= k < i ==> ascii_lower(#[trigger] s@[k]) == wv@[k],
    {
        if lower_char(s[i]) != wv[i] {
            return false;
        }
    }
    true
}

/// The answer on one line of input, or `None` to ask again.
pub fn parse_yes_no(line: &str) -> (r: Option<bool>)
    ensures
        r == spec_parse_yes_no(line@),
{
    proof {
        reveal_strlit("y");
        reveal_strlit("yes");
        reveal_strlit("n");
        reveal_strlit("no");
    }
    let t = trim_exec(&to_chars(line));
    if eq_ignore_case_exec(&t, "y") || eq_ignore_case_exec(&t, "yes") {
        Some(true)
    } else if eq_ignore_case_exec(&t, "n") || eq_ignore_case_exec(&t, "no") || t.len() == 0 {
        Some(false)
    } else {
        None
    }
}

/// What setup prints after installing one surface.
pub fn install_result_label(already_installed: bool) -> (r: &'static str)
    ensures
        r@ == (if already_installed {
            "already installed (no changes)"@
        } else {
            "installed"@
        }),
{
    if already_installed {
        "already installed (no changes)"
    } else {
        "installed"
    }
}

/// `s`, or `fallback` when `s` is empty.
pub open spec fn if_empty(s: Seq<char>, fallback: Seq<char>) -> Seq<char> {
    if s.len() == 0 {
        fallback
    } else {
        s
    }
}

/// `detected agents: a, b`, or `(none)`.
pub open spec fn spec_detected_agents_line(agents: Seq<Seq<char>>) -> Seq<char> {
    "detected agents: "@ + if agents.len() == 0 {
        "(none)"@
    } else {
        join_sep(agents, ", "@)
    }
}

pub fn detected_agents_line(agents: &Vec<String>) -> (r: String)
    ensures
        r@ == spec_detected_agents_line(strings_view(agents@)),
{
    let mut out = to_chars("detected agents: ");
    if agents.len() == 0 {
        extend_str(&mut out, "(none)");
    } else {
        extend_str(&mut out, join_sep_exec(agents, ", ").as_str());
    }
    from_chars(&out)
}

/// The names of the checks the plan proposes, gate by gate.
pub open spec fn check_names(gs: Seq<DetectedGateView>) -> Seq<Seq<char>>
    decreases gs.len(),
{
    if gs.len() == 0 {
        Seq::empty()
    } else {
        check_names(gs.drop_last()) + gs.last().proposed_checks.map_values(|c: crate::adopt::plan::ProposedCheckView| c.name)
    }
}

/// The dry-run summary: the agents `[gate].agents` would list and the
/// checks that would be written.
pub open spec fn spec_dry_run_summary(agents: Seq<Seq<char>>, gs: Seq<DetectedGateView>) -> Seq<char> {
    "\n--- dry-run plan ---\n"@ + "[gate].agents would be: "@ + join_sep(agents, ", "@) + "\n"@ + "checks: "@
        + if_empty(join_sep(check_names(gs), ", "@), "(none)"@) + "\n"@ + "No files written (--dry-run).\n"@
}

pub fn dry_run_summary(agents: &Vec<String>, plan: &AdoptionPlan) -> (r: String)
    ensures
        r@ == spec_dry_run_summary(strings_view(agents@), plan.findings@.map_values(|g: DetectedGate| g@)),
{
    let ghost gs = plan.findings@.map_values(|g: DetectedGate| g@);
    let mut names: Vec<String> = Vec::new();
    let n = plan.findings.len();
    for i in 0..n
        invariant
            n == plan.findings@.len(),
            gs == plan.findings@.map_values(|g: DetectedGate| g@),
            strings_view(names@) == check_names(gs.take(i as int)),
    {
        let g = &plan.findings[i];
        assert(gs.take(i + 1).drop_last() =~= gs.take(i as int));
        assert(gs.take(i + 1).last() == g@);
        let m = g.proposed_checks.len();
        let ghost before = strings_view(names@);
        for j in 0..m
            invariant
                m == g.proposed_checks@.len(),
                g == &plan.findings@[i as int],
                strings_view(names@) == before + g@.proposed_checks.take(j as int).map_values(
                    |c: crate::adopt::plan::ProposedCheckView| c.name,
                ),
        {
            let ghost mid = strings_view(names@);
            names.push(g.proposed_checks[j].name.clone());
            assert(g@.proposed_checks[j as int] == g.proposed_checks@[j as int]@);
            assert(g@.proposed_checks.take(j + 1).map_values(|c: crate::adopt::plan::ProposedCheckView| c.name)
                =~= g@.proposed_checks.take(j as int).map_values(|c: crate::adopt::plan::ProposedCheckView| c.name).push(
                g@.proposed_checks[j as int].name,
            ));
            assert(strings_view(names@) =~= mid.push(g.proposed_checks@[j as int].name@));
        }
        assert(g@.proposed_checks.take(m as int) =~= g@.proposed_checks);
    }
    assert(gs.take(n as int) =~= gs);
    let joined = join_sep_exec(&names, ", ");
    let mut out = to_chars("\n--- dry-run plan ---\n");
    extend_str(&mut out, "[gate].agents would be: ");
    extend_str(&mut out, join_sep_exec(agents, ", ").as_str());
    extend_str(&mut out, "\n");
    extend_str(&mut out, "checks: ");
    let jc = to_chars(joined.as_str());
    if jc.len() == 0 {
        extend_str(&mut out, "(none)");
    } else {
        extend_str(&mut out, joined.as_str());
    }
    extend_str(&mut out, "\n");
    extend_str(&mut out, "No files written (--dry-run).\n");
    assert(out@ =~= spec_dry_run_summary(strings_view(agents@), gs));
    from_chars(&out)
}

} // verus!
