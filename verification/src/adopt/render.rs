//! The human-readable report of an adoption plan.

use vstd::prelude::*;

use crate::adopt::plan::{
    gates_view, spec_hook_stage_str, strings_view, AdoptionPlan, ChainSupport, DetectedGate,
    DetectedGateView, GateType, GateTypeView, ProposedCheckSource, ProposedCheckSourceView,
};
use crate::text::{extend_str, from_chars, to_chars};

verus! {

pub open spec fn spec_gate_label(g: DetectedGateView) -> Seq<char> {
    if g.chain_support == ChainSupport::Unsafe || g.warnings.len() > 0 {
        "WARN"@
    } else {
        "OK"@
    }
}

pub open spec fn spec_gate_human_name(t: GateTypeView) -> Seq<char> {
    match t {
        GateTypeView::PreCommitFramework => "pre-commit framework"@,
        GateTypeView::Husky { hook } => "husky "@ + spec_hook_stage_str(hook),
        GateTypeView::Lefthook => "lefthook"@,
        GateTypeView::PlainGitHook { hook } => "plain git hook ("@ + spec_hook_stage_str(hook) + ")"@,
        GateTypeView::LintStaged => "lint-staged"@,
        GateTypeView::Tooling(name) => name,
    }
}

pub open spec fn spec_summarise_checks(g: DetectedGateView) -> Seq<char> {
    if g.proposed_checks.len() == 0 {
        "mirror: (no checks proposed; inspect only)"@
    } else {
        match g.proposed_checks[0].source {
            ProposedCheckSourceView::PreCommit { .. } => "mirror: type = \"pre_commit\""@,
            ProposedCheckSourceView::Shell { command } => "mirror: command = \""@ + command + "\""@,
        }
    }
}

pub open spec fn warning_lines(ws: Seq<Seq<char>>) -> Seq<char>
    decreases ws.len(),
{
    if ws.len() == 0 {
        Seq::empty()
    } else {
        warning_lines(ws.drop_last()) + "    "@ + ws.last() + "\n"@
    }
}

pub open spec fn spec_render_gate(g: DetectedGateView) -> Seq<char> {
    spec_gate_label(g) + "  "@ + spec_gate_human_name(g.gate_type) + "\n"@ + "    "@ + g.source_path
        + "\n"@ + "    "@ + spec_summarise_checks(g) + "\n"@ + warning_lines(g.warnings)
}

pub open spec fn rendered_gates(gs: Seq<DetectedGateView>) -> Seq<char>
    decreases gs.len(),
{
    if gs.len() == 0 {
        Seq::empty()
    } else {
        rendered_gates(gs.drop_last()) + "\n"@ + spec_render_gate(gs.last())
    }
}

pub open spec fn no_gates_message() -> Seq<char> {
    "No existing gates detected. Run `klasp init` for a fresh klasp.toml.\n"@
}

pub open spec fn next_steps() -> Seq<char> {
    "\nNext:\n"@ + "  klasp init --adopt --mode mirror\n"@ + "  klasp install --agent all\n"@
        + "  klasp doctor\n"@
}

pub open spec fn spec_render_plan(gs: Seq<DetectedGateView>) -> Seq<char> {
    if gs.len() == 0 {
        no_gates_message()
    } else {
        "Detected existing gates:\n"@ + rendered_gates(gs) + next_steps()
    }
}

fn gate_label(gate: &DetectedGate) -> (r: &'static str)
    ensures
        r@ == spec_gate_label(gate@),
{
    if gate.chain_support == ChainSupport::Unsafe || gate.warnings.len() > 0 {
        "WARN"
    } else {
        "OK"
    }
}

fn push_gate_human_name(out: &mut Vec<char>, t: &GateType)
    ensures
        final(out)@ == old(out)@ + spec_gate_human_name(t@),
{
    match t {
        GateType::PreCommitFramework => extend_str(out, "pre-commit framework"),
        GateType::Husky { hook } => {
            extend_str(out, "husky ");
            extend_str(out, hook.as_str());
        },
        GateType::Lefthook => extend_str(out, "lefthook"),
        GateType::PlainGitHook { hook } => {
            extend_str(out, "plain git hook (");
            extend_str(out, hook.as_str());
            extend_str(out, ")");
        },
        GateType::LintStaged => extend_str(out, "lint-staged"),
        GateType::Tooling(name) => extend_str(out, name.as_str()),
    }
}

fn push_summarise_checks(out: &mut Vec<char>, gate: &DetectedGate)
    ensures
        final(out)@ == old(out)@ + spec_summarise_checks(gate@),
{
    if gate.proposed_checks.len() == 0 {
        extend_str(out, "mirror: (no checks proposed; inspect only)");
    } else {
        assert(gate@.proposed_checks[0] == gate.proposed_checks@[0]@);
        match &gate.proposed_checks[0].source {
            ProposedCheckSource::PreCommit { .. } => extend_str(out, "mirror: type = \"pre_commit\""),
            ProposedCheckSource::Shell { command } => {
                extend_str(out, "mirror: command = \"");
                extend_str(out, command.as_str());
                extend_str(out, "\"");
            },
        }
    }
}

fn push_render_gate(out: &mut Vec<char>, gate: &DetectedGate)
    ensures
        final(out)@ == old(out)@ + spec_render_gate(gate@),
{
    let ghost start = out@;
    extend_str(out, gate_label(gate));
    extend_str(out, "  ");
    push_gate_human_name(out, &gate.gate_type);
    extend_str(out, "\n");
    extend_str(out, "    ");
    extend_str(out, gate.source_path.as_str());
    extend_str(out, "\n");
    extend_str(out, "    ");
    push_summarise_checks(out, gate);
    extend_str(out, "\n");
    let ghost mid = out@;
    let n = gate.warnings.len();
    for i in 0..n
        invariant
            n == gate.warnings@.len(),
            out@ == mid + warning_lines(strings_view(gate.warnings@).take(i as int)),
    {
        let ghost ws = strings_view(gate.warnings@);
        assert(ws.take(i + 1).drop_last() =~= ws.take(i as int));
        assert(ws.take(i + 1).last() == gate.warnings@[i as int]@);
        extend_str(out, "    ");
        extend_str(out, gate.warnings[i].as_str());
        extend_str(out, "\n");
    }
    assert(strings_view(gate.warnings@).take(n as int) =~= strings_view(gate.warnings@));
    assert(out@ =~= start + spec_render_gate(gate@));
}

/// The adoption report: each detected gate with an `OK` / `WARN` label
/// (`WARN` when chaining is unsafe or there are warnings), its file,
/// what the mirror would run and its warnings; then the next commands to
/// run. An empty plan says that nothing was found.
pub fn render_plan(plan: &AdoptionPlan) -> (r: String)
    ensures
        r@ == spec_render_plan(gates_view(plan.findings@)),
{
    let gs = &plan.findings;
    let n = gs.len();
    if n == 0 {
        return from_chars(
            &to_chars("No existing gates detected. Run `klasp init` for a fresh klasp.toml.\n"),
        );
    }
    let mut out = to_chars("Detected existing gates:\n");
    let ghost base = out@;
    for i in 0..n
        invariant
            n == gs@.len(),
            out@ == base + rendered_gates(gates_view(gs@).take(i as int)),
    {
        assert(gates_view(gs@).take(i + 1).drop_last() =~= gates_view(gs@).take(i as int));
        assert(gates_view(gs@).take(i + 1).last() == gs@[i as int]@);
        extend_str(&mut out, "\n");
        push_render_gate(&mut out, &gs[i]);
    }
    assert(gates_view(gs@).take(n as int) =~= gates_view(gs@));
    extend_str(&mut out, "\nNext:\n");
    extend_str(&mut out, "  klasp init --adopt --mode mirror\n");
    extend_str(&mut out, "  klasp install --agent all\n");
    extend_str(&mut out, "  klasp doctor\n");
    from_chars(&out)
}

/// The report always ends with a line break.
pub proof fn lemma_render_plan_ends_with_newline(gs: Seq<DetectedGateView>)
    ensures
        spec_render_plan(gs).len() > 0,
        spec_render_plan(gs).last() == '\n',
{
    reveal_strlit("No existing gates detected. Run `klasp init` for a fresh klasp.toml.\n");
    reveal_strlit("  klasp doctor\n");
    let s = spec_render_plan(gs);
    if gs.len() > 0 {
        let tail = "  klasp doctor\n"@;
        assert(s == ("Detected existing gates:\n"@ + rendered_gates(gs) + "\nNext:\n"@
            + "  klasp init --adopt --mode mirror\n"@ + "  klasp install --agent all\n"@) + tail);
        assert(s.last() == tail.last());
    }
}

} // verus!
