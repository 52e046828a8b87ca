//! Questions put to git, and what the answers mean.

use vstd::prelude::*;

use crate::adopt::detect::{join_path, path_join};
use crate::adopt::plan::strings_view;
use crate::text::{from_chars, lines, split_lines, to_chars, trim, trim_exec, views};

verus! {

/// The refs whose merge-base with `HEAD` is the base ref, in order of
/// preference.
pub open spec fn base_ref_candidates() -> Seq<Seq<char>> {
    seq!["@{upstream}"@, "origin/main"@, "origin/master"@]
}

/// `@{upstream}`, `origin/main`, `origin/master`.
pub fn base_ref_candidate_list() -> (r: Vec<&'static str>)
    ensures
        r@.map_values(|s: &str| s@) == base_ref_candidates(),
{
    let r = vec!["@{upstream}", "origin/main", "origin/master"];
    assert(r@.map_values(|s: &str| s@) =~= base_ref_candidates());
    r
}

pub open spec fn spec_merge_base_sha(success: bool, stdout: Seq<char>) -> Option<Seq<char>> {
    if success && trim(stdout).len() > 0 {
        Some(trim(stdout))
    } else {
        None
    }
}

/// The commit `git merge-base` printed, when it succeeded with output.
pub fn merge_base_sha(success: bool, stdout: &str) -> (r: Option<String>)
    ensures
        match r {
            Some(s) => spec_merge_base_sha(success, stdout@) == Some(s@),
            None => spec_merge_base_sha(success, stdout@) is None,
        },
{
    if !success {
        return None;
    }
    let t = trim_exec(&to_chars(stdout));
    if t.len() > 0 {
        Some(from_chars(&t))
    } else {
        None
    }
}

/// The first merge-base found, else `HEAD~1`.
pub open spec fn first_found(found: Seq<Option<Seq<char>>>) -> Seq<char>
    decreases found.len(),
{
    if found.len() == 0 {
        "HEAD~1"@
    } else {
        match found[0] {
            Some(s) => s,
            None => first_found(found.drop_first()),
        }
    }
}

/// The base ref from the merge-bases of the candidates, in candidate
/// order: the first one found, else `HEAD~1`.
pub fn compute_base_ref(merge_bases: &Vec<Option<String>>) -> (r: String)
    ensures
        r@ == first_found(merge_bases@.map_values(|o: Option<String>| crate::model::opt_view(o))),
{
    let ghost mv = merge_bases@.map_values(|o: Option<String>| crate::model::opt_view(o));
    let n = merge_bases.len();
    let mut i: usize = 0;
    assert(mv.skip(0) =~= mv);
    while i < n
        invariant
            n == merge_bases@.len(),
            i <= n,
            mv == merge_bases@.map_values(|o: Option<String>| crate::model::opt_view(o)),
            first_found(mv) == first_found(mv.skip(i as int)),
        decreases n - i,
    {
        assert(mv.skip(i as int)[0] == crate::model::opt_view(merge_bases@[i as int]));
        assert(mv.skip(i as int).drop_first() =~= mv.skip(i + 1));
        match &merge_bases[i] {
            Some(s) => return from_chars(&to_chars(s.as_str())),
            None => {},
        }
        i += 1;
    }
    from_chars(&to_chars("HEAD~1"))
}

/// The non-empty lines of the first `n`, joined onto the root.
pub open spec fn staged_upto(root: Seq<char>, ls: Seq<Seq<char>>, n: int) -> Seq<Seq<char>>
    decreases n,
{
    if n <= 0 {
        Seq::empty()
    } else {
        staged_upto(root, ls, n - 1) + if ls[n - 1].len() > 0 {
            seq![path_join(root, ls[n - 1])]
        } else {
            Seq::empty()
        }
    }
}

/// The staged files from `git diff --staged --name-only` output: each
/// non-empty line joined onto the repository root; none when git failed.
pub fn staged_files(root: &str, success: bool, stdout: &str) -> (r: Vec<String>)
    ensures
        strings_view(r@) == (if success {
            staged_upto(root@, lines(stdout@), lines(stdout@).len() as int)
        } else {
            Seq::empty()
        }),
{
    let mut out: Vec<String> = Vec::new();
    if !success {
        assert(strings_view(out@) =~= Seq::<Seq<char>>::empty());
        return out;
    }
    let ls = split_lines(&to_chars(stdout));
    let n = ls.len();
    for i in 0..n
        invariant
            n == ls@.len(),
            views(ls@) == lines(stdout@),
            strings_view(out@) == staged_upto(root@, views(ls@), i as int),
    {
        assert(views(ls@)[i as int] == ls@[i as int]@);
        let ghost before = strings_view(out@);
        if ls[i].len() > 0 {
            let line = from_chars(&ls[i]);
            out.push(join_path(root, line.as_str()));
            assert(strings_view(out@) =~= before.push(path_join(root@, ls@[i as int]@)));
        } else {
            assert(before + Seq::<Seq<char>>::empty() =~= before);
        }
    }
    out
}

} // verus!
