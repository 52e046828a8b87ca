//! The repository as detection sees it, and running every detector.

use vstd::prelude::*;

use crate::adopt::plan::{
    gates_view, AdoptionPlan, DetectedGate, DetectedGateView, HookStage, TriggerKind,
};
use crate::adopt::{detect_husky, detect_lefthook, detect_lint_staged};
use crate::text::{extend_str, from_chars, str_eq, to_chars};

verus! {

/// The files detection reads, as the caller found them: the repository
/// root, the directories that exist and the text of the files that exist,
/// both by path relative to the root.
#[derive(Clone, Debug, PartialEq, Eq)]
pub struct RepoFiles {
    pub root: String,
    pub dirs: Vec<String>,
    pub files: Vec<(String, String)>,
}

/// The text of the first entry for `rel`.
pub open spec fn file_at(entries: Seq<(String, String)>, rel: Seq<char>) -> Option<Seq<char>>
    decreases entries.len(),
{
    if entries.len() == 0 {
        None
    } else if entries[0].0@ == rel {
        Some(entries[0].1@)
    } else {
        file_at(entries.drop_first(), rel)
    }
}

pub open spec fn dir_at(dirs: Seq<String>, rel: Seq<char>) -> bool {
    exists|i: int| 0 <= i < dirs.len() && #[trigger] dirs[i]@ == rel
}

impl RepoFiles {
    pub open spec fn spec_file(&self, rel: Seq<char>) -> Option<Seq<char>> {
        file_at(self.files@, rel)
    }

    pub open spec fn spec_has_dir(&self, rel: Seq<char>) -> bool {
        dir_at(self.dirs@, rel)
    }

    /// The text of file `rel`, when it exists.
    pub fn file(&self, rel: &str) -> (r: Option<&str>)
        ensures
            match r {
                Some(t) => self.spec_file(rel@) == Some(t@),
                None => self.spec_file(rel@) is None,
            },
    {
        let n = self.files.len();
        let mut i: usize = 0;
        assert(self.files@.skip(0) =~= self.files@);
        while i < n
            invariant
                n == self.files@.len(),
                i <= n,
                self.spec_file(rel@) == file_at(self.files@.skip(i as int), rel@),
            decreases n - i,
        {
            assert(self.files@.skip(i as int)[0] == self.files@[i as int]);
            assert(self.files@.skip(i as int).drop_first() =~= self.files@.skip(i + 1));
            if str_eq(self.files[i].0.as_str(), rel) {
                return Some(self.files[i].1.as_str());
            }
            i += 1;
        }
        None
    }

    /// Whether directory `rel` exists.
    pub fn has_dir(&self, rel: &str) -> (r: bool)
        ensures
            r == self.spec_has_dir(rel@),
    {
        let n = self.dirs.len();
        for i in 0..n
            invariant
                n == self.dirs@.len(),
                forall|j: int| 0 <= j < i ==> self.dirs@[j]@ != rel@,
        {
            if str_eq(self.dirs[i].as_str(), rel) {
                return true;
            }
        }
        false
    }
}

/// `Path::join` of a relative path, with `/` separators.
pub open spec fn path_join(root: Seq<char>, rel: Seq<char>) -> Seq<char> {
    if root.len() == 0 {
        rel
    } else if root.last() == '/' {
        root + rel
    } else {
        root + "/"@ + rel
    }
}

/// `root` joined with the relative path `rel`.
pub fn join_path(root: &str, rel: &str) -> (r: String)
    ensures
        r@ == path_join(root@, rel@),
{
    let mut out = to_chars(root);
    if out.len() > 0 && out[out.len() - 1] != '/' {
        extend_str(&mut out, "/");
    }
    extend_str(&mut out, rel);
    from_chars(&out)
}

pub open spec fn spec_hook_to_trigger(stage: HookStage) -> TriggerKind {
    match stage {
        HookStage::PreCommit => TriggerKind::Commit,
        HookStage::PrePush => TriggerKind::Push,
    }
}

/// A `pre-commit` hook fires on commit, a `pre-push` hook on push.
pub fn hook_to_trigger(stage: HookStage) -> (r: TriggerKind)
    ensures
        r == spec_hook_to_trigger(stage),
{
    match stage {
        HookStage::PreCommit => TriggerKind::Commit,
        HookStage::PrePush => TriggerKind::Push,
    }
}

/// The first of `candidates` that exists as a file.
pub open spec fn first_existing(files: RepoFiles, candidates: Seq<&str>) -> Option<Seq<char>>
    decreases candidates.len(),
{
    if candidates.len() == 0 {
        None
    } else if files.spec_file(candidates[0]@) is Some {
        Some(candidates[0]@)
    } else {
        first_existing(files, candidates.drop_first())
    }
}

/// The first of `candidates` (paths relative to the root) that exists.
pub fn first_existing_file(files: &RepoFiles, candidates: &Vec<&'static str>) -> (r: Option<
    &'static str,
>)
    ensures
        match r {
            Some(c) => first_existing(*files, candidates@) == Some(c@),
            None => first_existing(*files, candidates@) is None,
        },
{
    let n = candidates.len();
    let mut i: usize = 0;
    assert(candidates@.skip(0) =~= candidates@);
    while i < n
        invariant
            n == candidates@.len(),
            i <= n,
            first_existing(*files, candidates@) == first_existing(*files, candidates@.skip(i as int)),
        decreases n - i,
    {
        assert(candidates@.skip(i as int)[0] == candidates@[i as int]);
        assert(candidates@.skip(i as int).drop_first() =~= candidates@.skip(i + 1));
        if files.file(candidates[i]).is_some() {
            return Some(candidates[i]);
        }
        i += 1;
    }
    None
}

/// Something that finds one kind of gate in a repository.
pub trait GateDetector {
    fn detect(&self, files: &RepoFiles) -> Vec<DetectedGate>;
}

pub open spec fn spec_detect_all(files: RepoFiles) -> Seq<DetectedGateView> {
    detect_husky::spec_detect(files) + detect_lefthook::spec_detect(files)
        + detect_lint_staged::spec_detect(files)
}

/// Every gate found: Husky hooks, then Lefthook, then lint-staged.
pub fn detect_all(files: &RepoFiles) -> (r: AdoptionPlan)
    ensures
        gates_view(r.findings@) == spec_detect_all(*files),
{
    let mut findings = detect_husky::detect(files);
    let mut lefthook = detect_lefthook::detect(files);
    let mut lint_staged = detect_lint_staged::detect(files);
    let ghost a = gates_view(findings@);
    let ghost b = gates_view(lefthook@);
    let ghost c = gates_view(lint_staged@);
    findings.append(&mut lefthook);
    assert(gates_view(findings@) =~= a + b);
    findings.append(&mut lint_staged);
    assert(gates_view(findings@) =~= a + b + c);
    AdoptionPlan { findings }
}

} // verus!
