//! lint-staged configured in a `.lintstagedrc*` file or under the
//! `"lint-staged"` key of `package.json`: one proposed shell check that
//! runs it with the repository's package manager.

use vstd::prelude::*;

use crate::adopt::detect::{
    first_existing, first_existing_file, join_path, path_join, RepoFiles,
};
use crate::adopt::plan::{
    checks_view, gates_view, strings_view, ChainSupport, DetectedGate, DetectedGateView, GateType,
    GateTypeView, ProposedCheck, ProposedCheckSource, ProposedCheckSourceView, ProposedCheckView,
    TriggerKind,
};
use crate::text::{
    contains, contains_str, extend_str, find_from, find_from_exec, from_chars,
    lemma_find_from_bounds, starts_with, starts_with_str, to_chars, trim_start, trim_start_exec,
};

verus! {

/// The standalone config files, in the order lint-staged looks for them.
pub open spec fn standalone_configs() -> Seq<&'static str> {
    seq![
        ".lintstagedrc",
        ".lintstagedrc.json",
        ".lintstagedrc.js",
        ".lintstagedrc.cjs",
        ".lintstagedrc.mjs",
        ".lintstagedrc.yaml",
        ".lintstagedrc.yml",
    ]
}

fn standalone_configs_exec() -> (r: Vec<&'static str>)
    ensures
        r@ == standalone_configs(),
{
    vec![
        ".lintstagedrc",
        ".lintstagedrc.json",
        ".lintstagedrc.js",
        ".lintstagedrc.cjs",
        ".lintstagedrc.mjs",
        ".lintstagedrc.yaml",
        ".lintstagedrc.yml",
    ]
}

/// Some `"lint-staged"` at or after `from` is followed (after whitespace)
/// by `:`, i.e. is an object key.
pub open spec fn key_from(s: Seq<char>, from: int) -> bool
    decreases s.len() + 1 - from,
{
    match find_from(s, "\"lint-staged\""@, from) {
        Some(p) => {
            proof {
                lemma_find_from_bounds(s, "\"lint-staged\""@, from);
            }
            if starts_with(trim_start(s.skip(p + "\"lint-staged\""@.len())), ":"@) {
                true
            } else if from < p + 1 {
                key_from(s, p + 1)
            } else {
                false
            }
        },
        None => false,
    }
}

pub open spec fn spec_has_lint_staged(contents: Seq<char>) -> bool {
    key_from(contents, 0)
}

/// Whether `package.json` has a `"lint-staged"` key: the quoted name must
/// be followed by `:`, so a value that merely mentions lint-staged does
/// not count.
pub fn package_json_has_lint_staged(contents: &str) -> (r: bool)
    ensures
        r == spec_has_lint_staged(contents@),
{
    let s = to_chars(contents);
    let marker = to_chars("\"lint-staged\"");
    let n = s.len();
    let mut from: usize = 0;
    while from <= n
        invariant
            n == s@.len(),
            s@ == contents@,
            marker@ == "\"lint-staged\""@,
            spec_has_lint_staged(contents@) == key_from(s@, from as int),
        decreases n + 1 - from,
    {
        proof {
            reveal_strlit("\"lint-staged\"");
            lemma_find_from_bounds(s@, marker@, from as int);
        }
        let p = match find_from_exec(&s, &marker, from) {
            Some(p) => p,
            None => return false,
        };
        assert(s@.len() == s.len());
        let rest = crate::text::slice(&s, p + marker.len(), n);
        assert(rest@ =~= s@.skip(p + marker@.len()));
        let t = trim_start_exec(&rest);
        if starts_with_str(&t, ":") {
            return true;
        }
        from = p + 1;
    }
    false
}

pub open spec fn spec_find_config(files: RepoFiles) -> Option<(Seq<char>, bool)> {
    match first_existing(files, standalone_configs()) {
        Some(name) => Some((path_join(files.root@, name), false)),
        None => match files.spec_file("package.json"@) {
            Some(c) => if spec_has_lint_staged(c) {
                Some((path_join(files.root@, "package.json"@), true))
            } else {
                None
            },
            None => None,
        },
    }
}

/// The lint-staged config: the first standalone file, else `package.json`
/// when it has the key; with whether it is `package.json`.
pub fn find_config(files: &RepoFiles) -> (r: Option<(String, bool)>)
    ensures
        match r {
            Some((p, b)) => spec_find_config(*files) == Some((p@, b)),
            None => spec_find_config(*files) is None,
        },
{
    let cands = standalone_configs_exec();
    match first_existing_file(files, &cands) {
        Some(name) => return Some((join_path(files.root.as_str(), name), false)),
        None => {},
    }
    match files.file("package.json") {
        Some(c) => if package_json_has_lint_staged(c) {
            Some((join_path(files.root.as_str(), "package.json"), true))
        } else {
            None
        },
        None => None,
    }
}

pub open spec fn spec_resolve_command(files: RepoFiles) -> Seq<char> {
    if files.spec_file("pnpm-lock.yaml"@) is Some {
        "pnpm exec lint-staged"@
    } else if files.spec_file("yarn.lock"@) is Some {
        "yarn lint-staged"@
    } else {
        "npx lint-staged"@
    }
}

/// `pnpm exec lint-staged` with a pnpm lockfile, `yarn lint-staged` with a
/// yarn lockfile, else `npx lint-staged`.
pub fn resolve_command(files: &RepoFiles) -> (r: String)
    ensures
        r@ == spec_resolve_command(*files),
{
    if files.file("pnpm-lock.yaml").is_some() {
        from_chars(&to_chars("pnpm exec lint-staged"))
    } else if files.file("yarn.lock").is_some() {
        from_chars(&to_chars("yarn lint-staged"))
    } else {
        from_chars(&to_chars("npx lint-staged"))
    }
}

pub open spec fn duplicate_warning() -> Seq<char> {
    "if Husky pre-commit also runs lint-staged, klasp will run it a second time on commit; either disable the Husky entry or remove this klasp check to avoid duplicate execution."@
}

pub open spec fn spec_build_warnings(files: RepoFiles) -> Seq<Seq<char>> {
    match files.spec_file(".husky/pre-commit"@) {
        Some(c) => if contains(c, "lint-staged"@) {
            seq![duplicate_warning()]
        } else {
            Seq::empty()
        },
        None => Seq::empty(),
    }
}

/// A warning when the Husky pre-commit hook runs lint-staged too.
pub fn build_warnings(files: &RepoFiles) -> (r: Vec<String>)
    ensures
        strings_view(r@) == spec_build_warnings(*files),
{
    let mut out: Vec<String> = Vec::new();
    match files.file(".husky/pre-commit") {
        Some(c) => if contains_str(&to_chars(c), "lint-staged") {
            out.push(
                from_chars(
                    &to_chars(
                        "if Husky pre-commit also runs lint-staged, klasp will run it a second time on commit; either disable the Husky entry or remove this klasp check to avoid duplicate execution.",
                    ),
                ),
            );
        },
        None => {},
    }
    assert(strings_view(out@) =~= spec_build_warnings(*files));
    out
}

pub open spec fn spec_proposed_check(command: Seq<char>) -> ProposedCheckView {
    ProposedCheckView {
        name: "lint-staged"@,
        triggers: seq![TriggerKind::Commit],
        timeout_secs: 120,
        source: ProposedCheckSourceView::Shell { command },
    }
}

/// The `lint-staged` check: on commit, 120 s, running `command`.
pub fn proposed_check(command: String) -> (r: ProposedCheck)
    ensures
        r@ == spec_proposed_check(command@),
{
    let r = ProposedCheck {
        name: from_chars(&to_chars("lint-staged")),
        triggers: vec![TriggerKind::Commit],
        timeout_secs: 120,
        source: ProposedCheckSource::Shell { command },
    };
    assert(r@.triggers =~= seq![TriggerKind::Commit]);
    r
}

pub open spec fn spec_manual_instructions(from_package_json: bool) -> Seq<char> {
    "klasp's proposed check runs lint-staged as a shell command that reads "@ + (
    if from_package_json {
        "your `package.json` `lint-staged` key"@
    } else {
        "your `.lintstagedrc*` file"@
    }) + ". If you also have a Husky pre-commit hook that runs lint-staged, remove one to avoid running lint-staged twice per commit."@
}

/// How to wire lint-staged and klasp together by hand.
pub fn manual_instructions(from_package_json: bool) -> (r: String)
    ensures
        r@ == spec_manual_instructions(from_package_json),
{
    let mut out = to_chars("klasp's proposed check runs lint-staged as a shell command that reads ");
    if from_package_json {
        extend_str(&mut out, "your `package.json` `lint-staged` key");
    } else {
        extend_str(&mut out, "your `.lintstagedrc*` file");
    }
    extend_str(
        &mut out,
        ". If you also have a Husky pre-commit hook that runs lint-staged, remove one to avoid running lint-staged twice per commit.",
    );
    from_chars(&out)
}

pub open spec fn spec_detect(files: RepoFiles) -> Seq<DetectedGateView> {
    match spec_find_config(files) {
        Some((path, from_pkg)) => seq![
            DetectedGateView {
                gate_type: GateTypeView::LintStaged,
                source_path: path,
                proposed_checks: seq![spec_proposed_check(spec_resolve_command(files))],
                chain_support: ChainSupport::ManualOnly,
                manual_chain_instructions: Some(spec_manual_instructions(from_pkg)),
                warnings: spec_build_warnings(files),
            },
        ],
        None => Seq::empty(),
    }
}

/// The lint-staged gate, when lint-staged is configured.
pub fn detect(files: &RepoFiles) -> (r: Vec<DetectedGate>)
    ensures
        gates_view(r@) == spec_detect(*files),
{
    let (source_path, from_pkg) = match find_config(files) {
        Some(found) => found,
        None => {
            let r: Vec<DetectedGate> = Vec::new();
            assert(gates_view(r@) =~= Seq::<DetectedGateView>::empty());
            return r;
        },
    };
    let check = proposed_check(resolve_command(files));
    let checks = vec![check];
    assert(checks_view(checks@) =~= seq![check@]);
    let gate = DetectedGate {
        gate_type: GateType::LintStaged,
        source_path,
        proposed_checks: checks,
        chain_support: ChainSupport::ManualOnly,
        manual_chain_instructions: Some(manual_instructions(from_pkg)),
        warnings: build_warnings(files),
    };
    let r = vec![gate];
    assert(gates_view(r@) =~= seq![gate@]);
    r
}

} // verus!
