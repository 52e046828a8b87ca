//! The decisions of `klasp gate`: which git event a command is, which checks
//! fire on it, how staged files group by their nearest `klasp.toml`, and
//! whether the merged verdict blocks the agent's tool call.

use vstd::prelude::*;

use crate::cli::{GateArgs, OutputFormat};
use crate::json::{json_get, json_parse_result, parse_json_result, pretty_json, str_of};
use crate::model::{
    CheckConfig, CheckResult, GitEvent, Verdict, VerdictPolicy, GATE_SCHEMA_VERSION,
};
use crate::output;
use crate::text::{
    decimal, ends_with, ends_with_str, eq_str, extend_str, from_chars, parse_unsigned,
    parse_unsigned_exec, slice, split_tokens, starts_with, starts_with_exec, str_eq, to_chars,
    tokens, trim, trim_exec, views,
};
use crate::xml::xml_text;

verus! {

/// The trigger word of an event.
pub open spec fn event_name(event: GitEvent) -> Seq<char> {
    match event {
        GitEvent::Commit => "commit"@,
        GitEvent::Push => "push"@,
    }
}

pub open spec fn spec_triggers_match(check: CheckConfig, event: GitEvent) -> bool {
    check.triggers@.len() == 0 || exists|i: int, j: int|
        0 <= i < check.triggers@.len() && 0 <= j < check.triggers@[i].on@.len()
            && #[trigger] check.triggers@[i].on@[j]@ == event_name(event)
}

/// Whether a check fires on `event`: a check without triggers fires on
/// every event; otherwise one of its `on` lists must name the event.
pub fn triggers_match(check: &CheckConfig, event: GitEvent) -> (r: bool)
    ensures
        r == spec_triggers_match(*check, event),
{
    let n = check.triggers.len();
    if n == 0 {
        return true;
    }
    let needle = match event {
        GitEvent::Commit => "commit",
        GitEvent::Push => "push",
    };
    for i in 0..n
        invariant
            n == check.triggers@.len(),
            needle@ == event_name(event),
            forall|a: int, b: int|
                0 <= a < i && 0 <= b < check.triggers@[a].on@.len() ==> #[trigger] check.triggers@[a].on@[b]@
                    != event_name(event),
    {
        let on = &check.triggers[i].on;
        let m = on.len();
        for j in 0..m
            invariant
                n == check.triggers@.len(),
                0 <= i < n,
                on == check.triggers@[i as int].on,
                m == on@.len(),
                needle@ == event_name(event),
                forall|b: int| 0 <= b < j ==> #[trigger] on@[b]@ != event_name(event),
        {
            if str_eq(on[j].as_str(), needle) {
                assert(check.triggers@[i as int].on@[j as int]@ == event_name(event));
                return true;
            }
        }
    }
    false
}

pub open spec fn spec_resolve_event(builtin: Option<GitEvent>, user_matches: Seq<bool>) -> Option<
    GitEvent,
> {
    match builtin {
        Some(e) => Some(e),
        None => if exists|i: int| 0 <= i < user_matches.len() && #[trigger] user_matches[i] {
            Some(GitEvent::Commit)
        } else {
            None
        },
    }
}

/// The event a command is: the built-in classification when it is a git
/// commit or push; else a commit when one of the user's triggers matched
/// it; else none (the command goes through).
pub fn resolve_event(builtin: Option<GitEvent>, user_matches: &Vec<bool>) -> (r: Option<GitEvent>)
    ensures
        r == spec_resolve_event(builtin, user_matches@),
{
    match builtin {
        Some(e) => Some(e),
        None => {
            let n = user_matches.len();
            for i in 0..n
                invariant
                    n == user_matches@.len(),
                    builtin is None,
                    forall|k: int| 0 <= k < i ==> !#[trigger] user_matches@[k],
            {
                if user_matches[i] {
                    assert(user_matches@[i as int]);
                    return Some(GitEvent::Commit);
                }
            }
            None
        },
    }
}

/// Indices of the checks among the first `n` that fire on `event`.
pub open spec fn triggered_upto(checks: Seq<CheckConfig>, event: GitEvent, n: int) -> Seq<usize>
    decreases n,
{
    if n <= 0 {
        Seq::empty()
    } else {
        triggered_upto(checks, event, n - 1) + if spec_triggers_match(checks[n - 1], event) {
            seq![(n - 1) as usize]
        } else {
            Seq::empty()
        }
    }
}

/// The checks that run are exactly those whose triggers name the event
/// (or that have no triggers), each once, in configuration order.
pub proof fn lemma_triggered_exactly(checks: Seq<CheckConfig>, event: GitEvent, n: int)
    requires
        0 <= n <= checks.len(),
        checks.len() <= usize::MAX,
    ensures
        forall|i: int| 0 <= i < n ==> (triggered_upto(checks, event, n).contains(i as usize) <==> spec_triggers_match(
            #[trigger] checks[i],
            event,
        )),
        forall|a: int, b: int| 0 <= a < b < triggered_upto(checks, event, n).len() ==> #[trigger] triggered_upto(checks, event, n)[a]
            < #[trigger] triggered_upto(checks, event, n)[b],
        forall|a: int| 0 <= a < triggered_upto(checks, event, n).len() ==> #[trigger] triggered_upto(checks, event, n)[a] < n,
    decreases n,
{
    if n > 0 {
        lemma_triggered_exactly(checks, event, n - 1);
        let prev = triggered_upto(checks, event, n - 1);
        let cur = triggered_upto(checks, event, n);
        assert(forall|k: int| 0 <= k < prev.len() ==> cur[k] == prev[k]);
        assert forall|a: int, b: int| 0 <= a < b < cur.len() implies #[trigger] cur[a] < #[trigger] cur[b] by {
            if b < prev.len() {
                assert(cur[a] == prev[a] && cur[b] == prev[b]);
            } else {
                assert(cur[a] == prev[a]);
                assert(cur[b] == (n - 1) as usize);
            }
        }
        assert forall|a: int| 0 <= a < cur.len() implies #[trigger] cur[a] < n by {
            if a < prev.len() {
                assert(cur[a] == prev[a]);
            }
        }
        assert forall|i: int| 0 <= i < n implies (cur.contains(i as usize) <==> spec_triggers_match(#[trigger] checks[i], event)) by {
            if cur.contains(i as usize) {
                let k = choose|k: int| 0 <= k < cur.len() && cur[k] == i as usize;
                if k < prev.len() {
                    assert(prev[k] == cur[k]);
                    assert(prev.contains(i as usize));
                }
            }
            if spec_triggers_match(checks[i], event) {
                if i < n - 1 {
                    assert(prev.contains(i as usize));
                    let k = choose|k: int| 0 <= k < prev.len() && prev[k] == i as usize;
                    assert(cur[k] == prev[k]);
                } else {
                    assert(cur[prev.len() as int] == (n - 1) as usize);
                }
            }
        }
    }
}

/// Which checks run for `event`, as indices into `checks`, in order.
pub fn triggered_checks(checks: &Vec<CheckConfig>, event: GitEvent) -> (r: Vec<usize>)
    ensures
        r@ == triggered_upto(checks@, event, checks@.len() as int),
{
    let n = checks.len();
    let mut out: Vec<usize> = Vec::new();
    for i in 0..n
        invariant
            n == checks@.len(),
            out@ == triggered_upto(checks@, event, i as int),
    {
        if triggers_match(&checks[i], event) {
            out.push(i);
        } else {
            assert(out@ + Seq::<usize>::empty() =~= out@);
        }
    }
    out
}

// ---------------------------------------------------------------------------
// Grouping staged files by their nearest config
// ---------------------------------------------------------------------------

/// A config and the staged files it governs.
pub type Groups = Seq<(Seq<char>, Seq<Seq<char>>)>;

/// Index of the group for config `c`, or -1.
pub open spec fn group_index(groups: Groups, c: Seq<char>) -> int
    decreases groups.len(),
{
    if groups.len() == 0 {
        -1
    } else if groups.last().0 == c {
        groups.len() - 1
    } else {
        group_index(groups.drop_last(), c)
    }
}

pub proof fn lemma_group_index(groups: Groups, c: Seq<char>)
    ensures
        -1 <= group_index(groups, c) < groups.len(),
        group_index(groups, c) >= 0 ==> groups[group_index(groups, c)].0 == c,
        group_index(groups, c) == -1 ==> forall|k: int| 0 <= k < groups.len() ==> #[trigger] groups[k].0 != c,
    decreases groups.len(),
{
    if groups.len() > 0 && groups.last().0 != c {
        lemma_group_index(groups.drop_last(), c);
        assert forall|k: int| 0 <= k < groups.len() && group_index(groups, c) == -1 implies #[trigger] groups[k].0 != c by {
            if k < groups.len() - 1 {
                assert(groups.drop_last()[k] == groups[k]);
            }
        }
    }
}

/// File `f`, governed by config `c` (none when no `klasp.toml` encloses
/// it), added to the groups.
pub open spec fn add_to_group(groups: Groups, c: Option<Seq<char>>, f: Seq<char>) -> Groups {
    match c {
        Some(c) => {
            let k = group_index(groups, c);
            if k >= 0 {
                groups.update(k, (c, groups[k].1.push(f)))
            } else {
                groups.push((c, seq![f]))
            }
        },
        None => groups,
    }
}

/// The groups of the first `n` files.
pub open spec fn groups_upto(files: Seq<Seq<char>>, configs: Seq<Option<Seq<char>>>, n: int) -> Groups
    decreases n,
{
    if n <= 0 {
        Seq::empty()
    } else {
        add_to_group(groups_upto(files, configs, n - 1), configs[n - 1], files[n - 1])
    }
}

/// No two groups share a config.
pub open spec fn keys_distinct(groups: Groups) -> bool {
    forall|a: int, b: int| 0 <= a < b < groups.len() ==> #[trigger] groups[a].0 != #[trigger] groups[b].0
}

/// Each config has one group.
pub proof fn lemma_groups_keys_distinct(files: Seq<Seq<char>>, configs: Seq<Option<Seq<char>>>, n: int)
    requires
        n <= files.len(),
        n <= configs.len(),
    ensures
        keys_distinct(groups_upto(files, configs, n)),
    decreases n,
{
    if n > 0 {
        lemma_groups_keys_distinct(files, configs, n - 1);
        let g = groups_upto(files, configs, n - 1);
        match configs[n - 1] {
            Some(c) => {
                lemma_group_index(g, c);
                let g2 = groups_upto(files, configs, n);
                let k = group_index(g, c);
                if k >= 0 {
                    assert forall|a: int, b: int| 0 <= a < b < g2.len() implies #[trigger] g2[a].0 != #[trigger] g2[b].0 by {
                        assert(g2[a].0 == g[a].0);
                        assert(g2[b].0 == g[b].0);
                    }
                } else {
                    assert forall|a: int, b: int| 0 <= a < b < g2.len() implies #[trigger] g2[a].0 != #[trigger] g2[b].0 by {
                        if b < g.len() {
                            assert(g2[a].0 == g[a].0);
                            assert(g2[b].0 == g[b].0);
                        } else {
                            assert(g2[a].0 == g[a].0);
                        }
                    }
                }
            },
            None => {},
        }
    }
}

/// File `f` is in the group of config `c`.
pub open spec fn in_group(groups: Groups, c: Seq<char>, f: Seq<char>) -> bool {
    exists|k: int, j: int| 0 <= k < groups.len() && 0 <= j < groups[k].1.len() && groups[k].0 == c && #[trigger] groups[k].1[j] == f
}

/// Each group holds exactly the staged files its config governs: every
/// file of a group is governed by the group's config, and every governed
/// file is in the group of its config.
pub proof fn lemma_groups_scope_files(files: Seq<Seq<char>>, configs: Seq<Option<Seq<char>>>, n: int)
    requires
        0 <= n <= files.len(),
        n <= configs.len(),
    ensures
        forall|k: int, j: int|
            0 <= k < groups_upto(files, configs, n).len() && 0 <= j < groups_upto(files, configs, n)[k].1.len()
                ==> exists|i: int|
                0 <= i < n && files[i] == #[trigger] groups_upto(files, configs, n)[k].1[j] && configs[i] == Some(
                    groups_upto(files, configs, n)[k].0,
                ),
        forall|i: int| 0 <= i < n && #[trigger] configs[i] is Some ==> in_group(groups_upto(files, configs, n), configs[i]->0, files[i]),
    decreases n,
{
    if n > 0 {
        lemma_groups_scope_files(files, configs, n - 1);
        let g = groups_upto(files, configs, n - 1);
        let g2 = groups_upto(files, configs, n);
        let f = files[n - 1];
        match configs[n - 1] {
            None => {
                assert(g2 == g);
                assert forall|k: int, j: int| 0 <= k < g2.len() && 0 <= j < g2[k].1.len() implies exists|i: int|
                    0 <= i < n && files[i] == #[trigger] g2[k].1[j] && configs[i] == Some(g2[k].0) by {
                    let i = choose|i: int| 0 <= i < n - 1 && files[i] == g[k].1[j] && configs[i] == Some(g[k].0);
                }
                assert forall|i: int| 0 <= i < n && #[trigger] configs[i] is Some implies in_group(g2, configs[i]->0, files[i]) by {
                    assert(i < n - 1);
                }
            },
            Some(c) => {
                lemma_group_index(g, c);
                let idx = group_index(g, c);
                assert forall|k: int, j: int| 0 <= k < g2.len() && 0 <= j < g2[k].1.len() implies exists|i: int|
                    0 <= i < n && files[i] == #[trigger] g2[k].1[j] && configs[i] == Some(g2[k].0) by {
                    if k < g.len() && !(k == idx && j == g[k].1.len()) {
                        assert(g2[k].0 == g[k].0);
                        assert(g2[k].1[j] == g[k].1[j]);
                        let i = choose|i: int| 0 <= i < n - 1 && files[i] == g[k].1[j] && configs[i] == Some(g[k].0);
                        assert(0 <= i < n && files[i] == g2[k].1[j] && configs[i] == Some(g2[k].0));
                    } else {
                        assert(g2[k].1[j] == f && g2[k].0 == c);
                        assert(0 <= n - 1 < n && files[n - 1] == g2[k].1[j] && configs[n - 1] == Some(g2[k].0));
                    }
                }
                assert forall|i: int| 0 <= i < n && #[trigger] configs[i] is Some implies in_group(g2, configs[i]->0, files[i]) by {
                    if i < n - 1 {
                        let ci = configs[i]->0;
                        let (k, j) = choose|k: int, j: int| 0 <= k < g.len() && 0 <= j < g[k].1.len() && g[k].0 == ci && #[trigger] g[k].1[j] == files[i];
                        assert(g2[k].0 == g[k].0 && g2[k].1[j] == g[k].1[j]);
                    } else if idx >= 0 {
                        let j = g[idx].1.len() as int;
                        assert(g2[idx].1[j] == f);
                    } else {
                        let k = g.len() as int;
                        assert(g2[k].1[0] == f);
                    }
                }
            },
        }
    }
}

pub open spec fn groups_view(v: Seq<(String, Vec<String>)>) -> Groups {
    v.map_values(|g: (String, Vec<String>)| (g.0@, g.1@.map_values(|s: String| s@)))
}

pub open spec fn configs_view(v: Seq<Option<String>>) -> Seq<Option<Seq<char>>> {
    v.map_values(|o: Option<String>| crate::model::opt_view(o))
}

/// Group staged files by the `klasp.toml` that governs each (`configs[i]`
/// for `staged[i]`, as config discovery found it): one group per config,
/// in order of first appearance, each with its files in staged order.
/// Files no config governs are left out.
pub fn group_by_config(staged: &Vec<String>, configs: &Vec<Option<String>>) -> (r: Vec<(String, Vec<String>)>)
    requires
        staged@.len() == configs@.len(),
    ensures
        groups_view(r@) == groups_upto(
            staged@.map_values(|s: String| s@),
            configs_view(configs@),
            staged@.len() as int,
        ),
{
    let ghost fv = staged@.map_values(|s: String| s@);
    let ghost cv = configs_view(configs@);
    let n = staged.len();
    let mut groups: Vec<(String, Vec<String>)> = Vec::new();
    for i in 0..n
        invariant
            n == staged@.len(),
            n == configs@.len(),
            fv == staged@.map_values(|s: String| s@),
            cv == configs_view(configs@),
            groups_view(groups@) == groups_upto(fv, cv, i as int),
    {
        let ghost g0 = groups_view(groups@);
        match &configs[i] {
            Some(c) => {
                proof {
                    lemma_group_index(g0, c@);
                }
                let m = groups.len();
                let mut k: usize = 0;
                while k < m && !str_eq(groups[k].0.as_str(), c.as_str())
                    invariant
                        m == groups@.len(),
                        k <= m,
                        g0 == groups_view(groups@),
                        forall|j: int| 0 <= j < k ==> #[trigger] groups@[j].0@ != c@,
                    decreases m - k,
                {
                    k += 1;
                }
                let file = from_chars(&to_chars(staged[i].as_str()));
                assert(fv[i as int] == file@);
                assert(cv[i as int] == Some(c@));
                let ghost gi = group_index(g0, c@);
                if k < m {
                    assert(g0[k as int].0 == groups@[k as int].0@);
                    assert(g0[k as int].0 == c@);
                    assert(gi == k as int) by {
                        lemma_group_index(g0, c@);
                        lemma_groups_keys_distinct(fv, cv, i as int);
                        if gi == -1 {
                            assert(g0[k as int].0 != c@);
                        } else if gi < k {
                            assert(groups@[gi].0@ != c@);
                            assert(g0[gi].0 == groups@[gi].0@);
                        } else if gi > k {
                            assert(g0[k as int].0 == g0[gi].0);
                        }
                    }
                    let ghost old_groups = groups@;
                    let (key, mut files) = groups.remove(k);
                    assert(key@ == c@);
                    let ghost fk = files@;
                    files.push(file);
                    groups.insert(k, (key, files));
                    assert(groups@ =~= old_groups.update(k as int, (key, files)));
                    assert(groups_view(groups@) =~= g0.update(k as int, (c@, g0[k as int].1.push(file@)))) by {
                        assert(files@.map_values(|s: String| s@) =~= fk.map_values(|s: String| s@).push(file@));
                    }
                } else {
                    assert(gi == -1) by {
                        lemma_group_index(g0, c@);
                        if gi >= 0 {
                            assert(g0[gi].0 == groups@[gi].0@);
                        }
                    }
                    let ghost old_groups = groups@;
                    let key = from_chars(&to_chars(c.as_str()));
                    let files = vec![file];
                    groups.push((key, files));
                    assert(files@.map_values(|s: String| s@) =~= seq![file@]);
                    assert(groups_view(groups@) =~= g0.push((c@, seq![file@])));
                }
                assert(groups_view(groups@) =~= groups_upto(fv, cv, i + 1));
            },
            None => {
                assert(groups_view(groups@) =~= groups_upto(fv, cv, i + 1));
            },
        }
    }
    groups
}

// ---------------------------------------------------------------------------
// Outcome
// ---------------------------------------------------------------------------

/// Whether the agent's tool call goes ahead.
#[derive(Clone, Copy, Debug, PartialEq, Eq, Structural)]
pub enum Outcome {
    Pass,
    Block,
}

/// A blocking verdict blocks the call; anything else lets it through.
pub fn outcome_of(verdict: &Verdict) -> (r: Outcome)
    ensures
        (r == Outcome::Block) == verdict@.is_blocking(),
{
    if verdict.is_blocking() {
        Outcome::Block
    } else {
        Outcome::Pass
    }
}

/// The process exit code: 0 lets the call through, 2 blocks it.
pub fn exit_code(outcome: Outcome) -> (r: u8)
    ensures
        r == (if outcome == Outcome::Block {
            2u8
        } else {
            0u8
        }),
{
    match outcome {
        Outcome::Pass => 0,
        Outcome::Block => 2,
    }
}

// ---------------------------------------------------------------------------
// Notices
// ---------------------------------------------------------------------------

/// Why `klasp gate` let a call through without checking, or skipped part of
/// its work. Every tooling failure fails open with one of these on stderr.
#[derive(Clone, Debug, PartialEq, Eq)]
pub enum GateNotice {
    /// The hook was rendered for another protocol version.
    SchemaMismatch(String),
    /// `KLASP_GATE_SCHEMA` could not be read.
    SchemaUnreadable(String),
    /// Stdin could not be read.
    StdinUnreadable(String),
    /// Stdin is not a tool call.
    InputUnparseable(String),
    /// No git repository around the working directory.
    NoRepoRoot,
    /// The repository's `klasp.toml` could not be loaded.
    ConfigError(String),
    /// A package's `klasp.toml` could not be loaded; its group is skipped.
    GroupConfigError { path: String, error: String },
    /// A staged file no `klasp.toml` governs.
    NoConfigFor(String),
    /// A check whose source kind nothing runs.
    NoSource(String),
    /// A check whose source failed to run.
    RuntimeError { check: String, error: String },
    /// The `--output` file could not be written.
    OutputWriteFailed(String),
}

pub open spec fn notice_text(n: GateNotice) -> Seq<char> {
    "klasp-gate: "@ + match n {
        GateNotice::SchemaMismatch(e) => "schema mismatch ("@ + e@
            + "), skipping. Re-run `klasp install` to update the hook."@,
        GateNotice::SchemaUnreadable(e) => "could not read KLASP_GATE_SCHEMA ("@ + e@
            + "), skipping. Re-run `klasp install` to regenerate the hook."@,
        GateNotice::StdinUnreadable(e) => "could not read stdin ("@ + e@ + "), skipping."@,
        GateNotice::InputUnparseable(e) => "could not parse input ("@ + e@ + "), skipping."@,
        GateNotice::NoRepoRoot => "could not resolve repo root, skipping."@,
        GateNotice::ConfigError(e) => "config error ("@ + e@ + "), skipping."@,
        GateNotice::GroupConfigError { path, error } => "config error for "@ + path@ + " ("@ + error@
            + "), skipping group."@,
        GateNotice::NoConfigFor(p) => "no klasp.toml for "@ + p@ + ", skipping."@,
        GateNotice::NoSource(c) => "no source registered for check `"@ + c@ + "`, skipping."@,
        GateNotice::RuntimeError { check, error } => "check `"@ + check@ + "` runtime error ("@ + error@
            + "), skipping."@,
        GateNotice::OutputWriteFailed(e) => "could not write output file ("@ + e@ + ")."@,
    }
}

/// The stderr line of a notice, `klasp-gate:` first.
pub fn notice(n: &GateNotice) -> (r: String)
    ensures
        r@ == notice_text(*n),
{
    let mut out = to_chars("klasp-gate: ");
    match n {
        GateNotice::SchemaMismatch(e) => {
            extend_str(&mut out, "schema mismatch (");
            extend_str(&mut out, e.as_str());
            extend_str(&mut out, "), skipping. Re-run `klasp install` to update the hook.");
        },
        GateNotice::SchemaUnreadable(e) => {
            extend_str(&mut out, "could not read KLASP_GATE_SCHEMA (");
            extend_str(&mut out, e.as_str());
            extend_str(&mut out, "), skipping. Re-run `klasp install` to regenerate the hook.");
        },
        GateNotice::StdinUnreadable(e) => {
            extend_str(&mut out, "could not read stdin (");
            extend_str(&mut out, e.as_str());
            extend_str(&mut out, "), skipping.");
        },
        GateNotice::InputUnparseable(e) => {
            extend_str(&mut out, "could not parse input (");
            extend_str(&mut out, e.as_str());
            extend_str(&mut out, "), skipping.");
        },
        GateNotice::NoRepoRoot => {
            extend_str(&mut out, "could not resolve repo root, skipping.");
        },
        GateNotice::ConfigError(e) => {
            extend_str(&mut out, "config error (");
            extend_str(&mut out, e.as_str());
            extend_str(&mut out, "), skipping.");
        },
        GateNotice::GroupConfigError { path, error } => {
            extend_str(&mut out, "config error for ");
            extend_str(&mut out, path.as_str());
            extend_str(&mut out, " (");
            extend_str(&mut out, error.as_str());
            extend_str(&mut out, "), skipping group.");
        },
        GateNotice::NoConfigFor(p) => {
            extend_str(&mut out, "no klasp.toml for ");
            extend_str(&mut out, p.as_str());
            extend_str(&mut out, ", skipping.");
        },
        GateNotice::NoSource(c) => {
            extend_str(&mut out, "no source registered for check `");
            extend_str(&mut out, c.as_str());
            extend_str(&mut out, "`, skipping.");
        },
        GateNotice::RuntimeError { check, error } => {
            extend_str(&mut out, "check `");
            extend_str(&mut out, check.as_str());
            extend_str(&mut out, "` runtime error (");
            extend_str(&mut out, error.as_str());
            extend_str(&mut out, "), skipping.");
        },
        GateNotice::OutputWriteFailed(e) => {
            extend_str(&mut out, "could not write output file (");
            extend_str(&mut out, e.as_str());
            extend_str(&mut out, ").");
        },
    }
    assert(out@ =~= notice_text(*n));
    from_chars(&out)
}

// ---------------------------------------------------------------------------
// Output
// ---------------------------------------------------------------------------

/// Where the rendered report goes.
#[derive(Clone, Debug, PartialEq, Eq)]
pub enum OutputTarget {
    Stderr,
    Stdout,
    File(String),
}

/// Machine-readable output goes to `--output` when given, else stdout.
pub open spec fn machine_target(output: Option<String>) -> OutputTarget {
    match output {
        Some(p) => OutputTarget::File(p),
        None => OutputTarget::Stdout,
    }
}

/// The report of a gate run in the requested format and where it goes:
/// terminal text to stderr; JUnit, SARIF or JSON to `--output` or stdout.
pub fn dispatch_output(
    args: &GateArgs,
    verdict: &Verdict,
    policy: VerdictPolicy,
    check_results: &Vec<CheckResult>,
) -> (r: (OutputTarget, String))
    ensures
        match args.format {
            OutputFormat::Terminal => r.0 == OutputTarget::Stderr && r.1@ == output::terminal::spec_render(
                verdict@,
                policy,
            ),
            OutputFormat::Junit => r.0 == machine_target(args.output) && r.1@ == xml_text(
                output::junit::junit_events(verdict@),
            ) + "\n"@,
            OutputFormat::Sarif => r.0 == machine_target(args.output) && r.1@ == pretty_json(
                output::sarif::sarif_doc(verdict@.findings()),
            ) + "\n"@,
            OutputFormat::Json => r.0 == machine_target(args.output) && r.1@ == pretty_json(
                output::json::output_doc(verdict@, check_results@),
            ) + "\n"@,
        },
{
    let target = match &args.output {
        Some(p) => OutputTarget::File(p.clone()),
        None => OutputTarget::Stdout,
    };
    match args.format {
        OutputFormat::Terminal => (OutputTarget::Stderr, output::terminal::render(verdict, policy)),
        OutputFormat::Junit => (target, output::junit::render(verdict, policy)),
        OutputFormat::Sarif => (target, output::sarif::render(verdict, policy)),
        OutputFormat::Json => (target, output::json::render(verdict, policy, check_results)),
    }
}

// ---------------------------------------------------------------------------
// The tool call
// ---------------------------------------------------------------------------

/// A `git` program token: `git`, or a path ending in `/git`.
pub open spec fn is_git_token(t: Seq<char>) -> bool {
    t == "git"@ || ends_with(t, "/git"@)
}

/// The git subcommand after the global options from token `j` on
/// (`-C <dir>` and `-c <name>=<value>` take a value).
pub open spec fn subcommand_from(toks: Seq<Seq<char>>, j: int) -> Option<Seq<char>>
    decreases toks.len() - j,
{
    if j < 0 || j >= toks.len() {
        None
    } else if toks[j] == "-C"@ || toks[j] == "-c"@ {
        if j + 1 >= toks.len() {
            None
        } else {
            subcommand_from(toks, j + 2)
        }
    } else if toks[j].len() > 0 && toks[j][0] == '-' {
        subcommand_from(toks, j + 1)
    } else {
        Some(toks[j])
    }
}

pub open spec fn event_of(sub: Option<Seq<char>>) -> Option<GitEvent> {
    match sub {
        Some(s) => if s == "commit"@ {
            Some(GitEvent::Commit)
        } else if s == "push"@ {
            Some(GitEvent::Push)
        } else {
            None
        },
        None => None,
    }
}

/// The event of the first `git commit` / `git push` invocation among the
/// tokens from `i` on.
pub open spec fn classify_from(toks: Seq<Seq<char>>, i: int) -> Option<GitEvent>
    decreases toks.len() - i,
{
    if i < 0 || i >= toks.len() {
        None
    } else if is_git_token(toks[i]) && event_of(subcommand_from(toks, i + 1)) is Some {
        event_of(subcommand_from(toks, i + 1))
    } else {
        classify_from(toks, i + 1)
    }
}

pub open spec fn spec_classify_command(command: Seq<char>) -> Option<GitEvent> {
    classify_from(tokens(command), 0)
}

fn is_git_token_exec(t: &Vec<char>) -> (r: bool)
    ensures
        r == is_git_token(t@),
{
    eq_str(t, "git") || ends_with_str(t, "/git")
}

fn subcommand_exec(toks: &Vec<Vec<char>>, start: usize) -> (r: Option<usize>)
    ensures
        match r {
            Some(k) => k < toks@.len() && subcommand_from(views(toks@), start as int) == Some(toks@[k as int]@),
            None => subcommand_from(views(toks@), start as int) is None,
        },
{
    let n = toks.len();
    let mut j = start;
    while j < n
        invariant
            n == toks@.len(),
            start <= j,
            subcommand_from(views(toks@), start as int) == subcommand_from(views(toks@), j as int),
        decreases n - j,
    {
        assert(views(toks@)[j as int] == toks@[j as int]@);
        if eq_str(&toks[j], "-C") || eq_str(&toks[j], "-c") {
            if j + 1 >= n {
                return None;
            }
            j = j + 2;
        } else if toks[j].len() > 0 && toks[j][0] == '-' {
            j = j + 1;
        } else {
            return Some(j);
        }
    }
    None
}

/// The git event a shell command performs: the first `git commit` or
/// `git push` in it (`git` possibly by path, after global options), if any.
pub fn classify_command(command: &str) -> (r: Option<GitEvent>)
    ensures
        r == spec_classify_command(command@),
{
    proof {
        reveal_strlit("commit");
        reveal_strlit("push");
    }
    let toks = split_tokens(&to_chars(command), false);
    let n = toks.len();
    let mut i: usize = 0;
    while i < n
        invariant
            n == toks@.len(),
            i <= n,
            views(toks@) == tokens(command@),
            spec_classify_command(command@) == classify_from(views(toks@), i as int),
        decreases n - i,
    {
        assert(views(toks@)[i as int] == toks@[i as int]@);
        if is_git_token_exec(&toks[i]) {
            match subcommand_exec(&toks, i + 1) {
                Some(k) => {
                    if eq_str(&toks[k], "commit") {
                        return Some(GitEvent::Commit);
                    } else if eq_str(&toks[k], "push") {
                        return Some(GitEvent::Push);
                    }
                },
                None => {},
            }
        }
        i += 1;
    }
    None
}

/// The shell command of a tool call: `tool_input.command`, when the call
/// has one.
pub open spec fn spec_gate_command(input: Seq<char>) -> Result<Option<Seq<char>>, Seq<char>> {
    match json_parse_result(input) {
        Err(e) => Err(e),
        Ok(v) => Ok(str_of(crate::json::get_in(json_get(v, "tool_input"@), "command"@))),
    }
}

/// The command of the tool call on stdin; the parser's message when stdin
/// is not JSON.
pub fn gate_command(input: &str) -> (r: Result<Option<String>, String>)
    ensures
        match r {
            Ok(Some(c)) => spec_gate_command(input@) == Ok::<Option<Seq<char>>, Seq<char>>(Some(c@)),
            Ok(None) => spec_gate_command(input@) == Ok::<Option<Seq<char>>, Seq<char>>(None),
            Err(e) => spec_gate_command(input@) == Err::<Option<Seq<char>>, Seq<char>>(e@),
        },
{
    match parse_json_result(input) {
        Err(e) => Err(e),
        Ok(v) => {
            let c = match v.get("tool_input") {
                Some(t) => match t.get("command") {
                    Some(c) => c.as_str(),
                    None => None,
                },
                None => None,
            };
            match c {
                Some(c) => Ok(Some(c.to_owned())),
                None => Ok(None),
            }
        },
    }
}

/// The notice for a hook rendered for another protocol (`None` when the
/// value of `KLASP_GATE_SCHEMA` matches this build): `expected <ours>,
/// got <value>`; or, without the variable, that it is not set.
pub fn check_schema(value: Option<&str>) -> (r: Option<GateNotice>)
    ensures
        match value {
            None => r matches Some(GateNotice::SchemaUnreadable(m)) && m@ == "KLASP_GATE_SCHEMA is not set"@,
            Some(v) => if parse_unsigned(trim(v@), u32::MAX as int) == Some(GATE_SCHEMA_VERSION as int) {
                r is None
            } else {
                r matches Some(GateNotice::SchemaMismatch(m)) && m@ == "expected "@ + decimal(
                    GATE_SCHEMA_VERSION as nat,
                ) + ", got "@ + v@
            },
        },
{
    match value {
        None => Some(GateNotice::SchemaUnreadable("KLASP_GATE_SCHEMA is not set".to_owned())),
        Some(v) => {
            let t = trim_exec(&to_chars(v));
            match parse_unsigned_exec(&t, u32::MAX as u64) {
                Some(n) => {
                    if n == GATE_SCHEMA_VERSION as u64 {
                        return None;
                    }
                },
                None => {},
            }
            let mut m = to_chars("expected ");
            crate::text::push_decimal(&mut m, GATE_SCHEMA_VERSION as u64);
            extend_str(&mut m, ", got ");
            extend_str(&mut m, v);
            Some(GateNotice::SchemaMismatch(from_chars(&m)))
        },
    }
}

// ---------------------------------------------------------------------------
// Config discovery
// ---------------------------------------------------------------------------

/// The index of the last `/` in `p`, or -1.
pub open spec fn last_slash(p: Seq<char>) -> int
    decreases p.len(),
{
    if p.len() == 0 {
        -1
    } else if p.last() == '/' {
        p.len() - 1
    } else {
        last_slash(p.drop_last())
    }
}

pub proof fn lemma_last_slash(p: Seq<char>)
    ensures
        -1 <= last_slash(p) < p.len(),
        last_slash(p) >= 0 ==> p[last_slash(p)] == '/',
        forall|k: int| last_slash(p) < k < p.len() ==> p[k] != '/',
    decreases p.len(),
{
    if p.len() > 0 && p.last() != '/' {
        lemma_last_slash(p.drop_last());
        assert forall|k: int| last_slash(p) < k < p.len() implies p[k] != '/' by {
            if k < p.len() - 1 {
                assert(p.drop_last()[k] == p[k]);
            }
        }
    }
}

/// The directory of a path: what comes before its last `/`.
pub open spec fn parent_dir(p: Seq<char>) -> Seq<char> {
    if last_slash(p) >= 0 {
        p.take(last_slash(p))
    } else {
        Seq::empty()
    }
}

/// The directories from `dir` up to `root`, nearest first; none when `dir`
/// is not inside `root`.
pub open spec fn dirs_up(dir: Seq<char>, root: Seq<char>) -> Seq<Seq<char>>
    decreases dir.len(),
{
    if dir == root {
        seq![dir]
    } else if dir.len() <= root.len() || !starts_with(dir, root) {
        Seq::empty()
    } else {
        proof {
            lemma_last_slash(dir);
        }
        seq![dir] + dirs_up(parent_dir(dir), root)
    }
}

pub open spec fn config_paths(dirs: Seq<Seq<char>>) -> Seq<Seq<char>> {
    dirs.map_values(|d: Seq<char>| d + "/klasp.toml"@)
}

/// Where the `klasp.toml` that governs `file` may be, nearest first: the
/// file's directory and each directory above it, up to the repository
/// root. The first that exists wins.
pub fn config_candidates(file: &str, root: &str) -> (r: Vec<String>)
    ensures
        crate::adopt::plan::strings_view(r@) == config_paths(dirs_up(parent_dir(file@), root@)),
{
    let rv = to_chars(root);
    let mut dir = to_chars(file);
    proof {
        lemma_last_slash(file@);
    }
    // the directory of the file
    let mut k = dir.len();
    assert(dir@.take(k as int) =~= dir@);
    while k > 0 && dir[k - 1] != '/'
        invariant
            k <= dir@.len(),
            dir@ == file@,
            last_slash(file@) == last_slash(dir@.take(k as int)),
        decreases k,
    {
        assert(dir@.take(k as int).drop_last() =~= dir@.take(k - 1));
        k -= 1;
    }
    assert(dir@.take(dir@.len() as int) =~= dir@);
    dir = if k > 0 {
        assert(dir@.take(k as int).last() == '/');
        slice(&dir, 0, k - 1)
    } else {
        Vec::new()
    };
    assert(dir@ =~= parent_dir(file@));
    let ghost d0 = dir@;
    let mut out: Vec<String> = Vec::new();
    loop
        invariant
            rv@ == root@,
            d0 == parent_dir(file@),
            crate::adopt::plan::strings_view(out@) + config_paths(dirs_up(dir@, root@)) == config_paths(
                dirs_up(d0, root@),
            ),
        decreases dir@.len(),
    {
        let ghost before = crate::adopt::plan::strings_view(out@);
        let ghost dv = dir@;
        let is_root = crate::text::eq_str(&dir, root);
        let inside = dir.len() > rv.len() && starts_with_exec(&dir, &rv);
        if is_root || inside {
            let mut c = slice(&dir, 0, dir.len());
            assert(c@ =~= dv);
            extend_str(&mut c, "/klasp.toml");
            let cs = from_chars(&c);
            assert(cs@ =~= dv + "/klasp.toml"@);
            out.push(cs);
            assert(crate::adopt::plan::strings_view(out@) =~= before.push(dv + "/klasp.toml"@));
        }
        if is_root || !inside {
            proof {
                if !is_root {
                    assert(dirs_up(dv, root@) =~= Seq::<Seq<char>>::empty());
                    assert(config_paths(Seq::<Seq<char>>::empty()) =~= Seq::<Seq<char>>::empty());
                    assert(before + Seq::<Seq<char>>::empty() =~= before);
                } else {
                    assert(dirs_up(dv, root@) == seq![dv]);
                    assert(config_paths(seq![dv]) =~= seq![dv + "/klasp.toml"@]);
                    assert(crate::adopt::plan::strings_view(out@) =~= before + config_paths(dirs_up(dv, root@)));
                }
            }
            return out;
        }
        proof {
            lemma_last_slash(dv);
        }
        let mut j = dir.len();
        assert(dv.take(j as int) =~= dv);
        while j > 0 && dir[j - 1] != '/'
            invariant
                j <= dir@.len(),
                dir@ == dv,
                last_slash(dv) == last_slash(dv.take(j as int)),
            decreases j,
        {
            assert(dv.take(j as int).drop_last() =~= dv.take(j - 1));
            j -= 1;
        }
        assert(dv.take(dv.len() as int) =~= dv);
        let next = if j > 0 {
            assert(dv.take(j as int).last() == '/');
            slice(&dir, 0, j - 1)
        } else {
            Vec::new()
        };
        assert(next@ =~= parent_dir(dv));
        assert(dirs_up(dv, root@) == seq![dv] + dirs_up(next@, root@));
        assert(config_paths(dirs_up(dv, root@)) =~= seq![dv + "/klasp.toml"@] + config_paths(dirs_up(next@, root@)));
        assert(crate::adopt::plan::strings_view(out@) + config_paths(dirs_up(next@, root@)) =~= before + config_paths(
            dirs_up(dv, root@),
        ));
        dir = next;
    }
}

} // verus!
