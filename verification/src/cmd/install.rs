//! `klasp install` and `klasp uninstall`: which agent surfaces to drive,
//! and what is reported of each.

use vstd::prelude::*;

use crate::adopt::plan::strings_view;

use crate::text::{extend_str, from_chars, join_sep, join_sep_exec, str_eq, to_chars};

verus! {

/// `--agent all`: every agent listed in `[gate].agents`.
pub const AGENT_ALL: &'static str = "all";

/// The agent surfaces klasp drives, in install order: `claude_code`,
/// then `codex`.
pub open spec fn registered_agents() -> Seq<Seq<char>> {
    seq!["claude_code"@, "codex"@]
}

/// The ids of the registered agent surfaces, in install order.
pub fn agent_ids() -> (r: Vec<String>)
    ensures
        strings_view(r@) == registered_agents(),
{
    let r = vec!["claude_code".to_owned(), "codex".to_owned()];
    assert(strings_view(r@) =~= registered_agents());
    r
}

/// The surfaces one run drives, by agent id, or why there is nothing to do.
#[derive(Clone, Debug, PartialEq, Eq)]
pub enum Selection {
    Surfaces(Vec<String>),
    Empty { reason: String },
}

pub open spec fn spec_unknown_agent(name: Seq<char>, ids: Seq<Seq<char>>) -> Seq<char> {
    "unknown agent \""@ + name + "\"; supported: "@ + join_sep(ids, ", "@)
        + " (or \"all\" to fan out across [gate].agents)"@
}

/// The error for an agent id the registry does not know.
pub fn unknown_agent(name: &str, ids: &Vec<String>) -> (r: String)
    ensures
        r@ == spec_unknown_agent(name@, strings_view(ids@)),
{
    let mut m = to_chars("unknown agent \"");
    extend_str(&mut m, name);
    extend_str(&mut m, "\"; supported: ");
    extend_str(&mut m, join_sep_exec(ids, ", ").as_str());
    extend_str(&mut m, " (or \"all\" to fan out across [gate].agents)");
    from_chars(&m)
}

pub open spec fn spec_config_not_found(searched: Seq<Seq<char>>) -> Seq<char> {
    "--agent all requires klasp.toml; not found (searched: "@ + join_sep(searched, ", "@) + ")"@
}

/// The error for `--agent all` without a `klasp.toml`.
pub fn config_not_found(searched: &Vec<String>) -> (r: String)
    ensures
        r@ == spec_config_not_found(strings_view(searched@)),
{
    let mut m = to_chars("--agent all requires klasp.toml; not found (searched: ");
    extend_str(&mut m, join_sep_exec(searched, ", ").as_str());
    extend_str(&mut m, ")");
    from_chars(&m)
}

fn known(name: &str, ids: &Vec<String>) -> (r: bool)
    ensures
        r == strings_view(ids@).contains(name@),
{
    let n = ids.len();
    for i in 0..n
        invariant
            n == ids@.len(),
            forall|k: int| 0 <= k < i ==> #[trigger] strings_view(ids@)[k] != name@,
    {
        if str_eq(ids[i].as_str(), name) {
            assert(strings_view(ids@)[i as int] == name@);
            return true;
        }
    }
    false
}

pub open spec fn spec_resolve_all(declared: Seq<Seq<char>>, ids: Seq<Seq<char>>) -> Result<
    Seq<Seq<char>>,
    Seq<char>,
> {
    if exists|i: int| 0 <= i < declared.len() && !ids.contains(#[trigger] declared[i]) {
        let k = choose|i: int|
            0 <= i < declared.len() && !ids.contains(#[trigger] declared[i]) && forall|j: int|
                0 <= j < i ==> ids.contains(#[trigger] declared[j]);
        Err(spec_unknown_agent(declared[k], ids))
    } else {
        Ok(declared)
    }
}

/// `--agent all`: the agents `[gate].agents` declares, in order; nothing
/// to do when it is empty; the first agent the registry does not know is
/// an error.
pub fn resolve_all(declared: &Vec<String>, ids: &Vec<String>) -> (r: Result<Selection, String>)
    ensures
        declared@.len() == 0 ==> (r matches Ok(Selection::Empty { reason }) && reason@
            == "`[gate].agents = []` in klasp.toml"@),
        declared@.len() > 0 ==> match spec_resolve_all(strings_view(declared@), strings_view(ids@)) {
            Ok(names) => r matches Ok(Selection::Surfaces(v)) && strings_view(v@) == names,
            Err(e) => r matches Err(m) && m@ == e,
        },
{
    if declared.len() == 0 {
        return Ok(Selection::Empty { reason: "`[gate].agents = []` in klasp.toml".to_owned() });
    }
    let ghost dv = strings_view(declared@);
    let ghost iv = strings_view(ids@);
    let n = declared.len();
    let mut out: Vec<String> = Vec::new();
    for i in 0..n
        invariant
            n == declared@.len(),
            dv == strings_view(declared@),
            iv == strings_view(ids@),
            strings_view(out@) == dv.take(i as int),
            forall|j: int| 0 <= j < i ==> iv.contains(#[trigger] dv[j]),
    {
        assert(dv[i as int] == declared@[i as int]@);
        if !known(declared[i].as_str(), ids) {
            proof {
                let k = choose|k: int|
                    0 <= k < dv.len() && !iv.contains(#[trigger] dv[k]) && forall|j: int|
                        0 <= j < k ==> iv.contains(#[trigger] dv[j]);
                assert(0 <= i < dv.len() && !iv.contains(dv[i as int]) && forall|j: int| 0 <= j < i ==> iv.contains(#[trigger] dv[j]));
                if k < i {
                    assert(iv.contains(dv[k]));
                } else if k > i {
                    assert(iv.contains(dv[i as int]));
                }
            }
            return Err(unknown_agent(declared[i].as_str(), ids));
        }
        let ghost before = strings_view(out@);
        let c = declared[i].clone();
        out.push(c);
        assert(strings_view(out@) =~= before.push(dv[i as int]));
        assert(dv.take(i + 1) =~= dv.take(i as int).push(dv[i as int]));
    }
    assert(dv.take(n as int) =~= dv);
    Ok(Selection::Surfaces(out))
}

/// `--agent` other than `all`: every registered agent when omitted, the
/// one named when the registry knows it, else an error.
pub fn resolve_named(requested: Option<&str>, ids: &Vec<String>) -> (r: Result<Selection, String>)
    ensures
        match requested {
            None => r matches Ok(Selection::Surfaces(v)) && strings_view(v@) == strings_view(ids@),
            Some(name) => if strings_view(ids@).contains(name@) {
                r matches Ok(Selection::Surfaces(v)) && strings_view(v@) == seq![name@]
            } else {
                r matches Err(m) && m@ == spec_unknown_agent(name@, strings_view(ids@))
            },
        },
{
    match requested {
        None => Ok(Selection::Surfaces(ids.clone())),
        Some(name) => {
            if known(name, ids) {
                let v = vec![name.to_owned()];
                assert(strings_view(v@) =~= seq![name@]);
                Ok(Selection::Surfaces(v))
            } else {
                Err(unknown_agent(name, ids))
            }
        },
    }
}

/// The agents `[gate].agents` lists, other than the one being installed,
/// that the registry knows: those this install leaves without a hook.
pub open spec fn uncovered_upto(installing: Seq<char>, declared: Seq<Seq<char>>, ids: Seq<Seq<char>>, n: int) -> Seq<Seq<char>>
    decreases n,
{
    if n <= 0 {
        Seq::empty()
    } else {
        uncovered_upto(installing, declared, ids, n - 1) + if declared[n - 1] != installing && ids.contains(declared[n - 1]) {
            seq![declared[n - 1]]
        } else {
            Seq::empty()
        }
    }
}

pub open spec fn spec_narrower_warning(uncovered: Seq<Seq<char>>) -> Option<Seq<char>> {
    if uncovered.len() == 0 {
        None
    } else {
        Some(
            "warning: klasp.toml lists agents "@ + join_sep(uncovered, ", "@)
                + " that this install will NOT cover; doctor will report them as missing. Run `klasp install --agent all` to cover all declared agents."@,
        )
    }
}

/// The warning for `--agent <name>` when `[gate].agents` declares other
/// known agents that this install will not cover; none otherwise.
pub fn narrower_than_config_warning(installing: &str, declared: &Vec<String>, ids: &Vec<String>) -> (r: Option<String>)
    ensures
        match r {
            Some(m) => spec_narrower_warning(
                uncovered_upto(installing@, strings_view(declared@), strings_view(ids@), declared@.len() as int),
            ) == Some(m@),
            None => spec_narrower_warning(
                uncovered_upto(installing@, strings_view(declared@), strings_view(ids@), declared@.len() as int),
            ) is None,
        },
{
    let ghost dv = strings_view(declared@);
    let ghost iv = strings_view(ids@);
    let n = declared.len();
    let mut out: Vec<String> = Vec::new();
    for i in 0..n
        invariant
            n == declared@.len(),
            dv == strings_view(declared@),
            iv == strings_view(ids@),
            strings_view(out@) == uncovered_upto(installing@, dv, iv, i as int),
    {
        assert(dv[i as int] == declared@[i as int]@);
        let ghost before = strings_view(out@);
        if !str_eq(declared[i].as_str(), installing) && known(declared[i].as_str(), ids) {
            out.push(declared[i].clone());
            assert(strings_view(out@) =~= before + seq![dv[i as int]]);
        } else {
            assert(before + Seq::<Seq<char>>::empty() =~= before);
        }
    }
    if out.len() == 0 {
        return None;
    }
    let mut m = to_chars("warning: klasp.toml lists agents ");
    extend_str(&mut m, join_sep_exec(&out, ", ").as_str());
    extend_str(
        &mut m,
        " that this install will NOT cover; doctor will report them as missing. Run `klasp install --agent all` to cover all declared agents.",
    );
    Some(from_chars(&m))
}

/// What installing one surface did.
#[derive(Clone, Debug, PartialEq, Eq)]
pub struct InstallReport {
    pub agent_id: String,
    pub hook_path: String,
    pub settings_path: String,
    /// Nothing changed: the hook was already in place.
    pub already_installed: bool,
    /// The hook script, on a dry run.
    pub preview: Option<String>,
    pub paths_written: Vec<String>,
}

pub open spec fn path_lines(paths: Seq<Seq<char>>, indent: Seq<char>, n: int) -> Seq<char>
    decreases n,
{
    if n <= 0 {
        Seq::empty()
    } else {
        path_lines(paths, indent, n - 1) + indent + paths[n - 1] + "\n"@
    }
}

pub open spec fn spec_report_text(r: InstallReport, dry_run: bool) -> Seq<char> {
    if r.already_installed {
        r.agent_id@ + ": already installed (no changes)\n"@
    } else if dry_run {
        r.agent_id@ + ": would write "@ + r.hook_path@ + " and update "@ + r.settings_path@ + "\n"@
            + match r.preview {
            Some(p) => "--- "@ + r.hook_path@ + " ---\n"@ + p@,
            None => Seq::empty(),
        }
    } else {
        r.agent_id@ + ": installed\n"@ + path_lines(
            strings_view(r.paths_written@),
            "  wrote "@,
            r.paths_written@.len() as int,
        )
    }
}

fn push_path_lines(out: &mut Vec<char>, paths: &Vec<String>, indent: &str)
    ensures
        final(out)@ == old(out)@ + path_lines(strings_view(paths@), indent@, paths@.len() as int),
{
    let ghost base = out@;
    let n = paths.len();
    for i in 0..n
        invariant
            n == paths@.len(),
            out@ == base + path_lines(strings_view(paths@), indent@, i as int),
    {
        assert(strings_view(paths@)[i as int] == paths@[i as int]@);
        extend_str(out, indent);
        extend_str(out, paths[i].as_str());
        extend_str(out, "\n");
        assert(out@ =~= base + path_lines(strings_view(paths@), indent@, i + 1));
    }
}

/// What `klasp install` prints of one surface.
pub fn report_text(r: &InstallReport, dry_run: bool) -> (s: String)
    ensures
        s@ == spec_report_text(*r, dry_run),
{
    let mut out = to_chars(r.agent_id.as_str());
    if r.already_installed {
        extend_str(&mut out, ": already installed (no changes)\n");
    } else if dry_run {
        extend_str(&mut out, ": would write ");
        extend_str(&mut out, r.hook_path.as_str());
        extend_str(&mut out, " and update ");
        extend_str(&mut out, r.settings_path.as_str());
        extend_str(&mut out, "\n");
        match &r.preview {
            Some(p) => {
                extend_str(&mut out, "--- ");
                extend_str(&mut out, r.hook_path.as_str());
                extend_str(&mut out, " ---\n");
                extend_str(&mut out, p.as_str());
            },
            None => {},
        }
    } else {
        extend_str(&mut out, ": installed\n");
        push_path_lines(&mut out, &r.paths_written, "  wrote ");
    }
    assert(out@ =~= spec_report_text(*r, dry_run));
    from_chars(&out)
}

// ---------------------------------------------------------------------------
// Uninstall
// ---------------------------------------------------------------------------

/// The registered agents an uninstall walks: all of them, or the one the
/// filter names.
pub open spec fn uninstall_upto(filter: Option<Seq<char>>, ids: Seq<Seq<char>>, n: int) -> Seq<Seq<char>>
    decreases n,
{
    if n <= 0 {
        Seq::empty()
    } else {
        uninstall_upto(filter, ids, n - 1) + match filter {
            Some(f) => if ids[n - 1] == f {
                seq![ids[n - 1]]
            } else {
                Seq::empty()
            },
            None => seq![ids[n - 1]],
        }
    }
}

pub fn uninstall_targets(filter: Option<&str>, ids: &Vec<String>) -> (r: Vec<String>)
    ensures
        strings_view(r@) == uninstall_upto(
            match filter { Some(f) => Some(f@), None => None },
            strings_view(ids@),
            ids@.len() as int,
        ),
{
    let ghost fv = match filter { Some(f) => Some(f@), None => None::<Seq<char>> };
    let ghost iv = strings_view(ids@);
    let n = ids.len();
    let mut out: Vec<String> = Vec::new();
    for i in 0..n
        invariant
            n == ids@.len(),
            iv == strings_view(ids@),
            fv == match filter { Some(f) => Some(f@), None => None::<Seq<char>> },
            strings_view(out@) == uninstall_upto(fv, iv, i as int),
    {
        assert(iv[i as int] == ids@[i as int]@);
        let ghost before = strings_view(out@);
        let keep = match filter {
            Some(f) => str_eq(ids[i].as_str(), f),
            None => true,
        };
        if keep {
            out.push(ids[i].clone());
            assert(strings_view(out@) =~= before + seq![iv[i as int]]);
        } else {
            assert(before + Seq::<Seq<char>>::empty() =~= before);
        }
    }
    out
}

pub open spec fn spec_uninstall_report(agent: Seq<char>, paths: Seq<Seq<char>>, dry_run: bool) -> Seq<char> {
    if paths.len() == 0 {
        agent + ": nothing to remove\n"@
    } else {
        agent + ": "@ + (if dry_run {
            "would touch"@
        } else {
            "removed"@
        }) + "\n"@ + path_lines(paths, "  "@, paths.len() as int)
    }
}

/// What `klasp uninstall` prints of one surface.
pub fn uninstall_report(agent: &str, paths: &Vec<String>, dry_run: bool) -> (r: String)
    ensures
        r@ == spec_uninstall_report(agent@, strings_view(paths@), dry_run),
{
    let mut out = to_chars(agent);
    if paths.len() == 0 {
        extend_str(&mut out, ": nothing to remove\n");
    } else {
        extend_str(&mut out, ": ");
        if dry_run {
            extend_str(&mut out, "would touch");
        } else {
            extend_str(&mut out, "removed");
        }
        extend_str(&mut out, "\n");
        push_path_lines(&mut out, paths, "  ");
    }
    assert(out@ =~= spec_uninstall_report(agent@, strings_view(paths@), dry_run));
    from_chars(&out)
}

} // verus!
