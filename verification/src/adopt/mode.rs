//! `--mode chain` is refused; the refusal lists the manual integration
//! steps of the gates that have them.

use vstd::prelude::*;

use crate::adopt::plan::{gates_view, AdoptionPlan, DetectedGateView};
use crate::text::{extend_str, from_chars, to_chars};

verus! {

/// The manual instructions of the gates that have them, in order.
pub open spec fn instructions_of(gs: Seq<DetectedGateView>) -> Seq<Seq<char>>
    decreases gs.len(),
{
    if gs.len() == 0 {
        Seq::empty()
    } else {
        instructions_of(gs.drop_last()) + match gs.last().manual_chain_instructions {
            Some(i) => seq![i],
            None => Seq::empty(),
        }
    }
}

/// Each instruction on a line of its own, indented by two spaces.
pub open spec fn instruction_lines(is: Seq<Seq<char>>) -> Seq<char>
    decreases is.len(),
{
    if is.len() == 0 {
        Seq::empty()
    } else {
        instruction_lines(is.drop_last()) + "  "@ + is.last() + "\n"@
    }
}

pub open spec fn chain_refusal() -> Seq<char> {
    "chain mode is not supported in v1; use --mode mirror to write klasp.toml that runs alongside existing gates, or follow the manual integration instructions below.\n"@
}

pub open spec fn spec_chain_unsupported_message(gs: Seq<DetectedGateView>) -> Seq<char> {
    let is = instructions_of(gs);
    if is.len() == 0 {
        chain_refusal()
    } else {
        chain_refusal() + "\n"@ + "Manual integration instructions:\n"@ + instruction_lines(is)
    }
}

/// The refusal of `--mode chain`: a pointer to `--mode mirror`, then a
/// `Manual integration instructions:` section listing each gate's
/// instructions when any gate has some.
pub fn chain_unsupported_message(plan: &AdoptionPlan) -> (r: String)
    ensures
        r@ == spec_chain_unsupported_message(gates_view(plan.findings@)),
{
    let gs = &plan.findings;
    let n = gs.len();
    let mut instrs: Vec<&str> = Vec::new();
    for i in 0..n
        invariant
            n == gs@.len(),
            instrs@.map_values(|s: &str| s@) == instructions_of(gates_view(gs@).take(i as int)),
    {
        assert(gates_view(gs@).take(i + 1).drop_last() =~= gates_view(gs@).take(i as int));
        assert(gates_view(gs@).take(i + 1).last() == gs@[i as int]@);
        let ghost before = instrs@;
        match &gs[i].manual_chain_instructions {
            Some(m) => {
                instrs.push(m.as_str());
                assert(instrs@.map_values(|s: &str| s@) =~= before.map_values(|s: &str| s@)
                    + seq![m@]);
            },
            None => {
                assert(before.map_values(|s: &str| s@) + Seq::<Seq<char>>::empty()
                    =~= before.map_values(|s: &str| s@));
            },
        }
    }
    assert(gates_view(gs@).take(n as int) =~= gates_view(gs@));
    let mut out = to_chars(
        "chain mode is not supported in v1; use --mode mirror to write klasp.toml that runs alongside existing gates, or follow the manual integration instructions below.\n",
    );
    if instrs.len() > 0 {
        extend_str(&mut out, "\n");
        extend_str(&mut out, "Manual integration instructions:\n");
        let ghost base = out@;
        let m = instrs.len();
        for j in 0..m
            invariant
                m == instrs@.len(),
                out@ == base + instruction_lines(instrs@.map_values(|s: &str| s@).take(j as int)),
        {
            let ghost iv = instrs@.map_values(|s: &str| s@);
            assert(iv.take(j + 1).drop_last() =~= iv.take(j as int));
            assert(iv.take(j + 1).last() == instrs@[j as int]@);
            extend_str(&mut out, "  ");
            extend_str(&mut out, instrs[j]);
            extend_str(&mut out, "\n");
        }
        assert(instrs@.map_values(|s: &str| s@).take(m as int) =~= instrs@.map_values(
            |s: &str| s@,
        ));
    }
    from_chars(&out)
}

} // verus!
