//! Husky hooks (`.husky/pre-commit`, `.husky/pre-push`): one proposed
//! shell check per substantive command of the hook.

use vstd::prelude::*;

use crate::adopt::detect::{hook_to_trigger, join_path, path_join, spec_hook_to_trigger, RepoFiles};
use crate::adopt::detect_lint_staged::{package_json_has_lint_staged, spec_has_lint_staged};
use crate::adopt::plan::{
    checks_view, gates_view, spec_hook_stage_str, strings_view, ChainSupport, DetectedGate,
    DetectedGateView, GateType, GateTypeView, HookStage, ProposedCheck, ProposedCheckSource,
    ProposedCheckSourceView, ProposedCheckView, TriggerKind,
};
use crate::text::{
    char_is_alphanumeric, contains, contains_str, extend_str, from_chars, lines, split_char,
    split_lines, split_on_char, split_tokens, starts_with, starts_with_str, str_eq, to_chars,
    tokens, trim, trim_exec, unicode_alphanumeric, views, lemma_split_char_len,
};

verus! {

/// Lines Husky itself writes: the shebang, its `husky.sh` sourcing and its
/// environment set-up.
pub open spec fn is_bookkeeping_spec(line: Seq<char>) -> bool {
    ||| starts_with(line, "#!/"@)
    ||| starts_with(line, ". \"$(dirname -- \"$0\")/_/husky.sh\""@)
    ||| starts_with(line, ". \"$(dirname $0)/_/husky.sh\""@)
    ||| starts_with(line, "husky_skip_init="@)
    ||| starts_with(line, "[ -z \"$husky\""@)
    ||| starts_with(line, "export HUSKY"@)
    ||| starts_with(line, ". ~/.huskyrc"@)
    ||| starts_with(line, ". ~/"@)
}

/// Whether a (trimmed) hook line is Husky bookkeeping.
pub fn is_bookkeeping(line: &str) -> (r: bool)
    ensures
        r == is_bookkeeping_spec(line@),
{
    let l = to_chars(line);
    starts_with_str(&l, "#!/") || starts_with_str(&l, ". \"$(dirname -- \"$0\")/_/husky.sh\"")
        || starts_with_str(&l, ". \"$(dirname $0)/_/husky.sh\"") || starts_with_str(
        &l,
        "husky_skip_init=",
    ) || starts_with_str(&l, "[ -z \"$husky\"") || starts_with_str(&l, "export HUSKY")
        || starts_with_str(&l, ". ~/.huskyrc") || starts_with_str(&l, ". ~/")
}

pub open spec fn is_substantive(t: Seq<char>) -> bool {
    !(t.len() == 0 || starts_with(t, "#"@) || is_bookkeeping_spec(t))
}

/// The trimmed lines that are neither blank, comments nor bookkeeping.
pub open spec fn commands_of(ls: Seq<Seq<char>>) -> Seq<Seq<char>>
    decreases ls.len(),
{
    if ls.len() == 0 {
        Seq::empty()
    } else {
        commands_of(ls.drop_last()) + if is_substantive(trim(ls.last())) {
            seq![trim(ls.last())]
        } else {
            Seq::empty()
        }
    }
}

pub open spec fn spec_substantive_commands(body: Seq<char>) -> Seq<Seq<char>> {
    commands_of(lines(body))
}

/// The hook's commands: its trimmed lines, minus blanks, comments and
/// Husky bookkeeping.
pub fn substantive_commands(body: &str) -> (r: Vec<String>)
    ensures
        strings_view(r@) == spec_substantive_commands(body@),
{
    let ls = split_lines(&to_chars(body));
    let n = ls.len();
    let mut out: Vec<String> = Vec::new();
    for i in 0..n
        invariant
            n == ls@.len(),
            views(ls@) == lines(body@),
            strings_view(out@) == commands_of(views(ls@).take(i as int)),
    {
        assert(views(ls@).take(i + 1).drop_last() =~= views(ls@).take(i as int));
        assert(views(ls@).take(i + 1).last() == ls@[i as int]@);
        let t = trim_exec(&ls[i]);
        let ts = from_chars(&t);
        let keep = !(t.len() == 0 || starts_with_str(&t, "#") || is_bookkeeping(ts.as_str()));
        let ghost before = out@;
        if keep {
            out.push(ts);
            assert(strings_view(out@) =~= strings_view(before) + seq![t@]);
        } else {
            assert(strings_view(before) + Seq::<Seq<char>>::empty() =~= strings_view(before));
        }
    }
    assert(views(ls@).take(n as int) =~= views(ls@));
    out
}

pub open spec fn spec_classify_command(cmd: Seq<char>) -> Option<(Seq<char>, u64)> {
    if cmd == "npx lint-staged"@ || cmd == "npx lint-staged --"@ || cmd == "pnpm exec lint-staged"@
        || cmd == "yarn lint-staged"@ || cmd == "pnpm lint-staged"@ || starts_with(
        cmd,
        "npx lint-staged "@,
    ) || starts_with(cmd, "pnpm exec lint-staged "@) || starts_with(cmd, "yarn lint-staged "@) {
        Some(("lint-staged"@, 120))
    } else if cmd == "npm test"@ || cmd == "pnpm test"@ || cmd == "yarn test"@ || cmd
        == "pnpm run test"@ || starts_with(cmd, "npm test "@) || starts_with(cmd, "pnpm test "@)
        || starts_with(cmd, "yarn test "@) {
        Some(("test"@, 180))
    } else if cmd == "pnpm lint"@ || cmd == "npm run lint"@ || cmd == "yarn lint"@ || cmd
        == "pnpm run lint"@ || starts_with(cmd, "pnpm lint "@) || starts_with(cmd, "npm run lint "@)
        || starts_with(cmd, "yarn lint "@) {
        Some(("lint"@, 120))
    } else if starts_with(cmd, "cargo "@) {
        Some(("cargo"@, 300))
    } else if starts_with(cmd, "pytest"@) || starts_with(cmd, "python -m pytest"@) {
        Some(("pytest"@, 180))
    } else {
        None
    }
}

/// A well-known hook command: lint-staged, a test run, a lint run, cargo or
/// pytest, with the check name and timeout it gets.
pub fn classify_command(cmd: &str) -> (r: Option<(&'static str, u64)>)
    ensures
        match r {
            Some((n, t)) => spec_classify_command(cmd@) == Some((n@, t)),
            None => spec_classify_command(cmd@) is None,
        },
{
    let c = to_chars(cmd);
    if str_eq(cmd, "npx lint-staged") || str_eq(cmd, "npx lint-staged --") || str_eq(
        cmd,
        "pnpm exec lint-staged",
    ) || str_eq(cmd, "yarn lint-staged") || str_eq(cmd, "pnpm lint-staged") || starts_with_str(
        &c,
        "npx lint-staged ",
    ) || starts_with_str(&c, "pnpm exec lint-staged ") || starts_with_str(&c, "yarn lint-staged ") {
        return Some(("lint-staged", 120));
    }
    if str_eq(cmd, "npm test") || str_eq(cmd, "pnpm test") || str_eq(cmd, "yarn test") || str_eq(
        cmd,
        "pnpm run test",
    ) || starts_with_str(&c, "npm test ") || starts_with_str(&c, "pnpm test ") || starts_with_str(
        &c,
        "yarn test ",
    ) {
        return Some(("test", 180));
    }
    if str_eq(cmd, "pnpm lint") || str_eq(cmd, "npm run lint") || str_eq(cmd, "yarn lint")
        || str_eq(cmd, "pnpm run lint") || starts_with_str(&c, "pnpm lint ") || starts_with_str(
        &c,
        "npm run lint ",
    ) || starts_with_str(&c, "yarn lint ") {
        return Some(("lint", 120));
    }
    if starts_with_str(&c, "cargo ") {
        return Some(("cargo", 300));
    }
    if starts_with_str(&c, "pytest") || starts_with_str(&c, "python -m pytest") {
        return Some(("pytest", 180));
    }
    None
}

/// `c` when it may stand in a check name, else `-`.
pub open spec fn name_char(c: char) -> char {
    if unicode_alphanumeric(c) || c == '-' || c == '_' {
        c
    } else {
        '-'
    }
}

pub open spec fn sanitise(s: Seq<char>) -> Seq<char> {
    s.map_values(|c: char| name_char(c))
}

pub open spec fn all_dashes(s: Seq<char>) -> bool {
    forall|i: int| 0 <= i < s.len() ==> s[i] == '-'
}

pub open spec fn spec_derive_name(cmd: Seq<char>, hook: Seq<char>) -> Seq<char> {
    let toks = tokens(cmd);
    let first = if toks.len() > 0 {
        toks[0]
    } else {
        Seq::empty()
    };
    let segment = split_char(first, '/').last();
    if segment.len() == 0 || all_dashes(sanitise(segment)) {
        "husky-"@ + hook
    } else {
        sanitise(segment)
    }
}

/// A check name for an unrecognised command: the last path segment of its
/// program, with every character other than letters, digits, `-` and `_`
/// turned into `-`; `husky-<hook>` when nothing is left but dashes.
pub fn derive_name_from_command(cmd: &str, hook: &str) -> (r: String)
    ensures
        r@ == spec_derive_name(cmd@, hook@),
{
    let toks = split_tokens(&to_chars(cmd), false);
    let first: Vec<char> = if toks.len() > 0 {
        assert(views(toks@)[0] == toks@[0]@);
        crate::text::slice(&toks[0], 0, toks[0].len())
    } else {
        Vec::new()
    };
    assert(first@ == (if tokens(cmd@).len() > 0 {
        tokens(cmd@)[0]
    } else {
        Seq::<char>::empty()
    })) by {
        if toks@.len() > 0 {
            assert(first@ =~= toks@[0]@);
        } else {
            assert(first@ =~= Seq::<char>::empty());
        }
    }
    let pieces = split_on_char(&first, '/');
    proof {
        lemma_split_char_len(first@, '/');
    }
    let last = pieces.len() - 1;
    assert(views(pieces@).last() == pieces@[last as int]@);
    let segment = &pieces[last];
    let mut sanitised: Vec<char> = Vec::new();
    let mut all_dash = true;
    let m = segment.len();
    for i in 0..m
        invariant
            m == segment@.len(),
            sanitised@ == sanitise(segment@.take(i as int)),
            all_dash == all_dashes(sanitised@),
    {
        let c = segment[i];
        let keep = char_is_alphanumeric(c) || c == '-' || c == '_';
        let d = if keep {
            c
        } else {
            '-'
        };
        let ghost before = sanitised@;
        sanitised.push(d);
        if d != '-' {
            all_dash = false;
            assert(sanitised@[sanitised@.len() - 1] != '-');
        } else {
            assert(all_dashes(sanitised@) == all_dashes(before)) by {
                if all_dashes(before) {
                    assert forall|k: int| 0 <= k < sanitised@.len() implies sanitised@[k] == '-' by {
                        if k < before.len() {
                            assert(sanitised@[k] == before[k]);
                        }
                    }
                } else {
                    let k = choose|k: int| 0 <= k < before.len() && before[k] != '-';
                    assert(sanitised@[k] == before[k]);
                }
            }
        }
        assert(sanitise(segment@.take(i + 1)) =~= sanitise(segment@.take(i as int)).push(d));
    }
    assert(segment@.take(m as int) =~= segment@);
    if m == 0 || all_dash {
        let mut out = to_chars("husky-");
        extend_str(&mut out, hook);
        from_chars(&out)
    } else {
        from_chars(&sanitised)
    }
}

pub open spec fn spec_proposed(hook: Seq<char>, cmd: Seq<char>, trigger: TriggerKind) -> ProposedCheckView {
    let (name, timeout) = match spec_classify_command(cmd) {
        Some((n, t)) => (n, t),
        None => (spec_derive_name(cmd, hook), 120u64),
    };
    ProposedCheckView {
        name,
        triggers: seq![trigger],
        timeout_secs: timeout,
        source: ProposedCheckSourceView::Shell { command: cmd },
    }
}

pub open spec fn empty_hook_warning(hook: Seq<char>) -> Seq<char> {
    "Husky "@ + hook + " hook is empty; no checks proposed"@
}

pub open spec fn overlap_warning() -> Seq<char> {
    "klasp's lint-staged check will overlap with Husky's pre-commit hook; both run lint-staged at commit time — consider removing one"@
}

pub open spec fn spec_proposed_checks(
    hook: Seq<char>,
    cmds: Seq<Seq<char>>,
    trigger: TriggerKind,
    body: Seq<char>,
    package_json: Seq<char>,
) -> (Seq<ProposedCheckView>, Seq<Seq<char>>) {
    if cmds.len() == 0 {
        (Seq::empty(), seq![empty_hook_warning(hook)])
    } else {
        (
            cmds.map_values(|c: Seq<char>| spec_proposed(hook, c, trigger)),
            if contains(body, "lint-staged"@) && spec_has_lint_staged(package_json) {
                seq![overlap_warning()]
            } else {
                Seq::empty()
            },
        )
    }
}

/// The checks mirroring a hook's commands, and the warnings: an empty hook
/// proposes nothing; a hook running lint-staged while `package.json` also
/// configures it overlaps with klasp's own lint-staged check.
pub fn build_proposed_checks(
    hook: &str,
    cmds: &Vec<String>,
    trigger: TriggerKind,
    body: &str,
    package_json: &str,
) -> (r: (Vec<ProposedCheck>, Vec<String>))
    ensures
        checks_view(r.0@) == spec_proposed_checks(hook@, strings_view(cmds@), trigger, body@, package_json@).0,
        strings_view(r.1@) == spec_proposed_checks(hook@, strings_view(cmds@), trigger, body@, package_json@).1,
{
    let mut warnings: Vec<String> = Vec::new();
    if cmds.len() == 0 {
        let mut w = to_chars("Husky ");
        extend_str(&mut w, hook);
        extend_str(&mut w, " hook is empty; no checks proposed");
        warnings.push(from_chars(&w));
        assert(strings_view(warnings@) =~= seq![empty_hook_warning(hook@)]);
        let none: Vec<ProposedCheck> = Vec::new();
        assert(checks_view(none@) =~= Seq::<ProposedCheckView>::empty());
        return (none, warnings);
    }
    if contains_str(&to_chars(body), "lint-staged") && package_json_has_lint_staged(package_json) {
        warnings.push(
            from_chars(
                &to_chars(
                    "klasp's lint-staged check will overlap with Husky's pre-commit hook; both run lint-staged at commit time — consider removing one",
                ),
            ),
        );
        assert(strings_view(warnings@) =~= seq![overlap_warning()]);
    } else {
        assert(strings_view(warnings@) =~= Seq::<Seq<char>>::empty());
    }
    let n = cmds.len();
    let mut checks: Vec<ProposedCheck> = Vec::new();
    for i in 0..n
        invariant
            n == cmds@.len(),
            checks_view(checks@) == strings_view(cmds@).take(i as int).map_values(
                |c: Seq<char>| spec_proposed(hook@, c, trigger),
            ),
    {
        let cmd = cmds[i].as_str();
        let (name, timeout_secs) = match classify_command(cmd) {
            Some((n, t)) => (from_chars(&to_chars(n)), t),
            None => (derive_name_from_command(cmd, hook), 120),
        };
        let c = ProposedCheck {
            name,
            triggers: vec![trigger],
            timeout_secs,
            source: ProposedCheckSource::Shell { command: from_chars(&to_chars(cmd)) },
        };
        assert(c@.triggers =~= seq![trigger]);
        assert(c@ == spec_proposed(hook@, cmds@[i as int]@, trigger));
        let ghost before = checks@;
        checks.push(c);
        assert(checks_view(checks@) =~= checks_view(before) + seq![c@]);
        assert(strings_view(cmds@).take(i + 1).map_values(|c: Seq<char>| spec_proposed(hook@, c, trigger))
            =~= strings_view(cmds@).take(i as int).map_values(|c: Seq<char>| spec_proposed(hook@, c, trigger))
            + seq![c@]);
    }
    assert(strings_view(cmds@).take(n as int) =~= strings_view(cmds@));
    (checks, warnings)
}

pub open spec fn husky_instructions(hook: Seq<char>) -> Seq<char> {
    "Add `klasp install` to your CI pipeline and wire klasp manually into `.husky/"@ + hook
        + "` by appending `klasp gate` after your existing commands. See https://github.com/klasp-dev/klasp for details."@
}

pub open spec fn spec_build_gate(
    stage: HookStage,
    hook: Seq<char>,
    source_path: Seq<char>,
    body: Seq<char>,
    package_json: Seq<char>,
) -> DetectedGateView {
    let r = spec_proposed_checks(
        hook,
        spec_substantive_commands(body),
        spec_hook_to_trigger(stage),
        body,
        package_json,
    );
    DetectedGateView {
        gate_type: GateTypeView::Husky { hook: stage },
        source_path,
        proposed_checks: r.0,
        chain_support: ChainSupport::ManualOnly,
        manual_chain_instructions: Some(husky_instructions(hook)),
        warnings: r.1,
    }
}

/// The detection result for one Husky hook file; chaining is manual.
pub fn build_gate(
    stage: HookStage,
    hook_name: &str,
    source_path: String,
    body: &str,
    package_json: &str,
) -> (r: DetectedGate)
    ensures
        r@ == spec_build_gate(stage, hook_name@, source_path@, body@, package_json@),
{
    let trigger = hook_to_trigger(stage);
    let cmds = substantive_commands(body);
    let (proposed_checks, warnings) = build_proposed_checks(hook_name, &cmds, trigger, body, package_json);
    let mut instr = to_chars("Add `klasp install` to your CI pipeline and wire klasp manually into `.husky/");
    extend_str(&mut instr, hook_name);
    extend_str(
        &mut instr,
        "` by appending `klasp gate` after your existing commands. See https://github.com/klasp-dev/klasp for details.",
    );
    DetectedGate {
        gate_type: GateType::Husky { hook: stage },
        source_path,
        proposed_checks,
        chain_support: ChainSupport::ManualOnly,
        manual_chain_instructions: Some(from_chars(&instr)),
        warnings,
    }
}

pub open spec fn husky_gate_for(files: RepoFiles, stage: HookStage) -> Seq<DetectedGateView> {
    let name = spec_hook_stage_str(stage);
    match files.spec_file(".husky/"@ + name) {
        Some(body) => seq![
            spec_build_gate(
                stage,
                name,
                path_join(path_join(files.root@, ".husky"@), name),
                body,
                match files.spec_file("package.json"@) {
                    Some(p) => p,
                    None => Seq::empty(),
                },
            ),
        ],
        None => Seq::empty(),
    }
}

pub open spec fn spec_detect(files: RepoFiles) -> Seq<DetectedGateView> {
    if !files.spec_has_dir(".husky"@) {
        Seq::empty()
    } else {
        husky_gate_for(files, HookStage::PreCommit) + husky_gate_for(files, HookStage::PrePush)
    }
}

fn push_hook(out: &mut Vec<DetectedGate>, files: &RepoFiles, stage: HookStage)
    ensures
        gates_view(final(out)@) == gates_view(old(out)@) + husky_gate_for(*files, stage),
{
    let name = stage.as_str();
    let mut rel = to_chars(".husky/");
    extend_str(&mut rel, name);
    let rel = from_chars(&rel);
    match files.file(rel.as_str()) {
        Some(body) => {
            proof {
                reveal_strlit("");
            }
            let pkg = match files.file("package.json") {
                Some(p) => p,
                None => "",
            };
            let husky_dir = join_path(files.root.as_str(), ".husky");
            let path = join_path(husky_dir.as_str(), name);
            let g = build_gate(stage, name, path, body, pkg);
            assert(rel@ =~= ".husky/"@ + spec_hook_stage_str(stage));
            assert(pkg@ == match files.spec_file("package.json"@) {
                Some(p) => p,
                None => Seq::<char>::empty(),
            }) by {
                assert(""@ =~= Seq::<char>::empty());
            }
            let ghost before = out@;
            out.push(g);
            assert(gates_view(out@) =~= gates_view(before) + seq![g@]);
        },
        None => {
            assert(rel@ =~= ".husky/"@ + spec_hook_stage_str(stage));
            assert(gates_view(out@) + Seq::<DetectedGateView>::empty() =~= gates_view(out@));
        },
    }
}

/// The Husky gates of a repository: one per hook file present under
/// `.husky/` (pre-commit, then pre-push); none without a `.husky`
/// directory.
pub fn detect(files: &RepoFiles) -> (r: Vec<DetectedGate>)
    ensures
        gates_view(r@) == spec_detect(*files),
{
    let mut out: Vec<DetectedGate> = Vec::new();
    if !files.has_dir(".husky") {
        assert(gates_view(out@) =~= Seq::<DetectedGateView>::empty());
        return out;
    }
    push_hook(&mut out, files, HookStage::PreCommit);
    push_hook(&mut out, files, HookStage::PrePush);
    assert(gates_view(out@) =~= spec_detect(*files));
    out
}

/// A hook line that runs the package manager's test script (`npm test`,
/// `pnpm test`, `yarn test`, `pnpm run test`, the first three also with
/// arguments) proposes a check named `test` with a 180 s timeout.
pub proof fn lemma_husky_test_runs_become_test_checks(cmd: Seq<char>)
    requires
        cmd == "npm test"@ || cmd == "pnpm test"@ || cmd == "yarn test"@ || cmd == "pnpm run test"@
            || starts_with(cmd, "npm test "@) || starts_with(cmd, "pnpm test "@) || starts_with(
            cmd,
            "yarn test "@,
        ),
    ensures
        spec_classify_command(cmd) == Some(("test"@, 180u64)),
{
    reveal_strlit("npx lint-staged");
    reveal_strlit("npx lint-staged --");
    reveal_strlit("pnpm exec lint-staged");
    reveal_strlit("yarn lint-staged");
    reveal_strlit("pnpm lint-staged");
    reveal_strlit("npx lint-staged ");
    reveal_strlit("pnpm exec lint-staged ");
    reveal_strlit("yarn lint-staged ");
    reveal_strlit("npm test");
    reveal_strlit("pnpm test");
    reveal_strlit("yarn test");
    reveal_strlit("pnpm run test");
    reveal_strlit("npm test ");
    reveal_strlit("pnpm test ");
    reveal_strlit("yarn test ");
    lemma_prefix_chars(cmd, "npm test "@);
    lemma_prefix_chars(cmd, "pnpm test "@);
    lemma_prefix_chars(cmd, "yarn test "@);
    lemma_prefix_chars(cmd, "npx lint-staged "@);
    lemma_prefix_chars(cmd, "pnpm exec lint-staged "@);
    lemma_prefix_chars(cmd, "yarn lint-staged "@);
    let c0 = cmd[0];
    let c2 = cmd[2];
    let c5 = cmd[5];
    assert(!(cmd == "npx lint-staged"@ || cmd == "npx lint-staged --"@ || cmd == "pnpm exec lint-staged"@
        || cmd == "yarn lint-staged"@ || cmd == "pnpm lint-staged"@));
    assert(!starts_with(cmd, "npx lint-staged "@));
    assert(!starts_with(cmd, "pnpm exec lint-staged "@));
    assert(!starts_with(cmd, "yarn lint-staged "@));
}

/// A string that starts with `p` agrees with it on its first characters.
proof fn lemma_prefix_chars(cmd: Seq<char>, p: Seq<char>)
    ensures
        starts_with(cmd, p) ==> forall|i: int| 0 <= i < p.len() ==> #[trigger] cmd[i] == p[i],
{
    if starts_with(cmd, p) {
        assert forall|i: int| 0 <= i < p.len() implies #[trigger] cmd[i] == p[i] by {
            assert(cmd.subrange(0, p.len() as int)[i] == cmd[i]);
        }
    }
}

} // verus!
