//! Which coding agents are installed for the user, from what their home
//! directory holds.

use vstd::prelude::*;

use crate::adopt::detect::{join_path, path_join};
use crate::adopt::plan::strings_view;
use crate::text::{from_chars, to_chars};

verus! {

/// Every agent klasp knows, in the canonical order.
pub open spec fn all_agents() -> Seq<Seq<char>> {
    seq!["claude_code"@, "codex"@, "aider"@]
}

/// What probing a home directory found, one flag per known agent (its
/// directory exists, or for aider one of its probe paths exists).
#[derive(Clone, Copy, Debug, PartialEq, Eq, Structural)]
pub struct AgentHome {
    pub claude_code: bool,
    pub codex: bool,
    pub aider: bool,
}

/// The paths whose existence shows aider is installed.
pub fn aider_probe_paths(home: &str) -> (r: Vec<String>)
    ensures
        strings_view(r@) == seq![
            path_join(home@, ".aider"@),
            path_join(home@, ".aider.conf.yml"@),
            path_join(home@, ".aiderignore"@),
        ],
{
    let r = vec![
        join_path(home, ".aider"),
        join_path(home, ".aider.conf.yml"),
        join_path(home, ".aiderignore"),
    ];
    assert(strings_view(r@) =~= seq![
        path_join(home@, ".aider"@),
        path_join(home@, ".aider.conf.yml"@),
        path_join(home@, ".aiderignore"@),
    ]);
    r
}

/// All agents, for when nothing narrows the choice.
pub fn all_agents_fallback() -> (r: Vec<String>)
    ensures
        strings_view(r@) == all_agents(),
{
    let r = vec![
        from_chars(&to_chars("claude_code")),
        from_chars(&to_chars("codex")),
        from_chars(&to_chars("aider")),
    ];
    assert(strings_view(r@) =~= all_agents());
    r
}

pub open spec fn found_agents(h: AgentHome) -> Seq<Seq<char>> {
    (if h.claude_code {
        seq!["claude_code"@]
    } else {
        Seq::empty()
    }) + (if h.codex {
        seq!["codex"@]
    } else {
        Seq::empty()
    }) + (if h.aider {
        seq!["aider"@]
    } else {
        Seq::empty()
    })
}

pub open spec fn spec_detect_installed_agents(home: Option<AgentHome>) -> Seq<Seq<char>> {
    match home {
        Some(h) => if found_agents(h).len() == 0 {
            all_agents()
        } else {
            found_agents(h)
        },
        None => all_agents(),
    }
}

/// The agents whose footprint the home directory shows, in the canonical
/// order; all of them when there is no home directory or none shows.
pub fn detect_installed_agents(home: Option<AgentHome>) -> (r: Vec<String>)
    ensures
        strings_view(r@) == spec_detect_installed_agents(home),
{
    let h = match home {
        Some(h) => h,
        None => return all_agents_fallback(),
    };
    let mut found: Vec<String> = Vec::new();
    if h.claude_code {
        found.push(from_chars(&to_chars("claude_code")));
    }
    if h.codex {
        found.push(from_chars(&to_chars("codex")));
    }
    if h.aider {
        found.push(from_chars(&to_chars("aider")));
    }
    assert(strings_view(found@) =~= found_agents(h));
    if found.len() == 0 {
        all_agents_fallback()
    } else {
        found
    }
}

/// Position of an agent in the canonical order.
pub open spec fn agent_rank(a: Seq<char>) -> int {
    if a == "claude_code"@ {
        0
    } else if a == "codex"@ {
        1
    } else if a == "aider"@ {
        2
    } else {
        3
    }
}

/// The detected agents are never empty, name only known agents, and keep
/// the canonical order without repeats.
pub proof fn lemma_detected_agents_well_formed(home: Option<AgentHome>)
    ensures
        spec_detect_installed_agents(home).len() >= 1,
        forall|i: int|
            0 <= i < spec_detect_installed_agents(home).len() ==> all_agents().contains(
                #[trigger] spec_detect_installed_agents(home)[i],
            ),
        forall|i: int, j: int|
            0 <= i < j < spec_detect_installed_agents(home).len() ==> agent_rank(
                #[trigger] spec_detect_installed_agents(home)[i],
            ) < agent_rank(#[trigger] spec_detect_installed_agents(home)[j]),
{
    reveal_strlit("claude_code");
    reveal_strlit("codex");
    reveal_strlit("aider");
    let r = spec_detect_installed_agents(home);
    let all = all_agents();
    assert("claude_code"@ != "codex"@ && "claude_code"@ != "aider"@ && "codex"@ != "aider"@) by {
        assert("claude_code"@.len() != "codex"@.len());
        assert("codex"@.len() != "aider"@.len() || "codex"@[0] != "aider"@[0]);
        assert("claude_code"@.len() != "aider"@.len());
    }
    assert forall|i: int| 0 <= i < r.len() implies all.contains(#[trigger] r[i]) by {
        if r[i] == "claude_code"@ {
            assert(all[0] == r[i]);
        } else if r[i] == "codex"@ {
            assert(all[1] == r[i]);
        } else {
            assert(all[2] == r[i]);
        }
    }
}

} // verus!
