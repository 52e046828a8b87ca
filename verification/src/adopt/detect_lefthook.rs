//! Lefthook (`lefthook.yml` / `lefthook.yaml`): one proposed shell check
//! per `run:` command under a `pre-commit:` or `pre-push:` stanza.
//!
//! The file is read line by line with a small indentation-driven state
//! machine rather than a YAML parser: a top-level hook key opens a hook, a
//! `commands:` line inside it opens the command list, each key under that
//! opens an entry, and an entry's `run: <command>` line yields a check.
//! Other keys of an entry (`glob:`, `run-if:`, ...) are left alone with a
//! warning advising manual review.

use vstd::prelude::*;

use crate::adopt::detect::{
    first_existing, first_existing_file, hook_to_trigger, join_path, path_join,
    spec_hook_to_trigger, RepoFiles,
};
use crate::adopt::plan::{
    checks_view, gates_view, strings_view, ChainSupport, DetectedGate, DetectedGateView, GateType,
    GateTypeView, HookStage, ProposedCheck, ProposedCheckSource, ProposedCheckSourceView,
    ProposedCheckView, TriggerKind,
};
use crate::text::{
    contains, contains_str, eq_str, extend, extend_str, find_char_exec, find_char_from,
    from_chars, lemma_find_char_from, lines, slice, split_lines, starts_with, starts_with_str,
    strip_leading, strip_leading_exec, strip_trailing, strip_trailing_exec, to_chars, trim,
    trim_exec, trim_start, trim_start_exec, views,
};

verus! {

/// Where the scanner is.
pub enum LefthookState {
    Idle,
    InHook(TriggerKind),
    InCommands(TriggerKind),
    InEntry(TriggerKind, Seq<char>),
}

/// What the scan has found so far.
pub struct LefthookFound {
    pub checks: Seq<ProposedCheckView>,
    pub warnings: Seq<Seq<char>>,
    pub recognised: bool,
}

/// How many spaces `line` starts with.
pub open spec fn spec_leading_spaces(line: Seq<char>) -> nat
    decreases line.len(),
{
    if line.len() > 0 && line[0] == ' ' {
        1 + spec_leading_spaces(line.drop_first())
    } else {
        0
    }
}

/// Count the spaces a line starts with.
pub fn leading_spaces(line: &Vec<char>) -> (r: usize)
    ensures
        r == spec_leading_spaces(line@),
{
    let n = line.len();
    let mut i: usize = 0;
    assert(line@.skip(0) =~= line@);
    while i < n && line[i] == ' '
        invariant
            i <= n == line@.len(),
            spec_leading_spaces(line@) == i + spec_leading_spaces(line@.skip(i as int)),
        decreases n - i,
    {
        assert(line@.skip(i as int).drop_first() =~= line@.skip(i + 1));
        i += 1;
    }
    i
}

/// The key of a `key:` or `key: value` line, trimmed.
pub open spec fn spec_extract_key_name(t: Seq<char>) -> Option<Seq<char>> {
    let k = find_char_from(t, ':', 0);
    if k < t.len() {
        Some(trim(t.take(k)))
    } else {
        None
    }
}

/// The key of a `key:` / `key: value` line; `None` without a colon.
pub fn extract_key_name(t: &Vec<char>) -> (r: Option<Vec<char>>)
    ensures
        match r {
            Some(k) => spec_extract_key_name(t@) == Some(k@),
            None => spec_extract_key_name(t@) is None,
        },
{
    let k = find_char_exec(t, ':', 0);
    if k < t.len() {
        proof {
            lemma_find_char_from(t@, ':', 0);
        }
        let head = slice(t, 0, k);
        assert(head@ =~= t@.take(k as int));
        Some(trim_exec(&head))
    } else {
        None
    }
}

pub open spec fn spec_hook_stage(t: Seq<char>) -> Option<HookStage> {
    if t == "pre-commit:"@ {
        Some(HookStage::PreCommit)
    } else if t == "pre-push:"@ {
        Some(HookStage::PrePush)
    } else {
        None
    }
}

/// `pre-commit:` and `pre-push:` open a hook stanza.
pub fn hook_stage(t: &Vec<char>) -> (r: Option<HookStage>)
    ensures
        r == spec_hook_stage(t@),
{
    if eq_str(t, "pre-commit:") {
        Some(HookStage::PreCommit)
    } else if eq_str(t, "pre-push:") {
        Some(HookStage::PrePush)
    } else {
        None
    }
}

/// `str::trim_matches(c)`.
pub open spec fn trim_char(s: Seq<char>, c: char) -> Seq<char> {
    strip_trailing(strip_leading(s, c), c)
}

/// The command of a `run: <command>` line, unquoted.
pub open spec fn run_value(t: Seq<char>) -> Seq<char> {
    trim_char(trim_char(trim(t.skip(5)), '"'), '\'')
}

pub open spec fn template_warning(name: Seq<char>, run: Seq<char>) -> Seq<char> {
    "lefthook command `"@ + name + "` uses Go template syntax (`"@ + run
        + "`); klasp cannot expand templates — verify the generated command manually"@
}

/// An entry key klasp does not translate (`glob:`, `run-if:`, ...).
pub open spec fn unknown_key_warning(name: Seq<char>, key: Seq<char>) -> Seq<char> {
    "lefthook command `"@ + name + "` sets `"@ + key
        + ":`, which klasp does not translate; review it manually"@
}

/// A key of an entry other than `run`, inside the entry.
pub open spec fn unknown_entry_key(indent: nat, t: Seq<char>) -> Option<Seq<char>> {
    if indent > 4 {
        match spec_extract_key_name(t) {
            Some(k) => if k.len() > 0 && k != "run"@ {
                Some(k)
            } else {
                None
            },
            None => None,
        }
    } else {
        None
    }
}

pub open spec fn lefthook_check(name: Seq<char>, trigger: TriggerKind, run: Seq<char>) -> ProposedCheckView {
    ProposedCheckView {
        name,
        triggers: seq![trigger],
        timeout_secs: 120,
        source: ProposedCheckSourceView::Shell { command: run },
    }
}

/// One line of the scan.
pub open spec fn lefthook_step(st: LefthookState, acc: LefthookFound, line: Seq<char>) -> (
    LefthookState,
    LefthookFound,
) {
    if trim(line).len() == 0 || starts_with(trim_start(line), "#"@) {
        (st, acc)
    } else {
        let indent = spec_leading_spaces(line);
        let t = trim(line);
        if indent == 0 {
            match spec_hook_stage(t) {
                Some(stage) => (
                    LefthookState::InHook(spec_hook_to_trigger(stage)),
                    LefthookFound { checks: acc.checks, warnings: acc.warnings, recognised: true },
                ),
                None => (LefthookState::Idle, acc),
            }
        } else {
            match st {
                LefthookState::Idle => (st, acc),
                LefthookState::InHook(tr) => if t == "commands:"@ || t == "commands: {}"@ {
                    (LefthookState::InCommands(tr), acc)
                } else {
                    (st, acc)
                },
                LefthookState::InCommands(tr) => match spec_extract_key_name(t) {
                    Some(n) => if n.len() > 0 {
                        (LefthookState::InEntry(tr, n), acc)
                    } else {
                        (st, acc)
                    },
                    None => (st, acc),
                },
                LefthookState::InEntry(tr, name) => {
                    let acc2 = if starts_with(t, "run: "@) {
                        let rv = run_value(t);
                        LefthookFound {
                            checks: acc.checks.push(lefthook_check(name, tr, rv)),
                            warnings: if contains(rv, "{{"@) && contains(rv, "}}"@) {
                                acc.warnings.push(template_warning(name, rv))
                            } else {
                                acc.warnings
                            },
                            recognised: acc.recognised,
                        }
                    } else {
                        match unknown_entry_key(indent, t) {
                            Some(k) => LefthookFound {
                                checks: acc.checks,
                                warnings: acc.warnings.push(unknown_key_warning(name, k)),
                                recognised: acc.recognised,
                            },
                            None => acc,
                        }
                    };
                    let st2 = if indent <= 4 {
                        match spec_extract_key_name(t) {
                            Some(nn) => if nn.len() > 0 && nn != "run"@ {
                                LefthookState::InEntry(tr, nn)
                            } else {
                                st
                            },
                            None => st,
                        }
                    } else {
                        st
                    };
                    (st2, acc2)
                },
            }
        }
    }
}

pub open spec fn lefthook_run(st: LefthookState, acc: LefthookFound, ls: Seq<Seq<char>>) -> LefthookFound
    decreases ls.len(),
{
    if ls.len() == 0 {
        acc
    } else {
        let (s2, a2) = lefthook_step(st, acc, ls[0]);
        lefthook_run(s2, a2, ls.drop_first())
    }
}

pub open spec fn spec_parse_lefthook(body: Seq<char>) -> LefthookFound {
    lefthook_run(
        LefthookState::Idle,
        LefthookFound { checks: Seq::empty(), warnings: Seq::empty(), recognised: false },
        lines(body),
    )
}

/// A blank line, or a comment.
pub open spec fn skipped_line(line: Seq<char>) -> bool {
    trim(line).len() == 0 || starts_with(trim_start(line), "#"@)
}

/// The lines the scan reads: blank and comment lines left out.
pub open spec fn scanned_lines(ls: Seq<Seq<char>>) -> Seq<Seq<char>>
    decreases ls.len(),
{
    if ls.len() == 0 {
        Seq::empty()
    } else if skipped_line(ls[0]) {
        scanned_lines(ls.drop_first())
    } else {
        seq![ls[0]] + scanned_lines(ls.drop_first())
    }
}

proof fn lemma_run_skips(st: LefthookState, acc: LefthookFound, ls: Seq<Seq<char>>)
    ensures
        lefthook_run(st, acc, ls) == lefthook_run(st, acc, scanned_lines(ls)),
    decreases ls.len(),
{
    if ls.len() > 0 {
        let (s2, a2) = lefthook_step(st, acc, ls[0]);
        if skipped_line(ls[0]) {
            lemma_run_skips(st, acc, ls.drop_first());
        } else {
            lemma_run_skips(s2, a2, ls.drop_first());
            let sc = seq![ls[0]] + scanned_lines(ls.drop_first());
            assert(sc[0] == ls[0]);
            assert(sc.drop_first() =~= scanned_lines(ls.drop_first()));
        }
    }
}

/// Blank and comment lines do not matter: two files whose other lines
/// are the same, in the same order, scan alike (same checks, warnings
/// and stanza flag), however many blank or comment lines either holds.
pub proof fn lemma_lefthook_ignores_blank_and_comment_lines(body1: Seq<char>, body2: Seq<char>)
    requires
        scanned_lines(lines(body1)) == scanned_lines(lines(body2)),
    ensures
        spec_parse_lefthook(body1) == spec_parse_lefthook(body2),
{
    let st = LefthookState::Idle;
    let acc = LefthookFound { checks: Seq::empty(), warnings: Seq::empty(), recognised: false };
    lemma_run_skips(st, acc, lines(body1));
    lemma_run_skips(st, acc, lines(body2));
}

/// What a scan of a Lefthook file yields.
#[derive(Clone, Debug, PartialEq, Eq)]
pub struct ParseResult {
    pub checks: Vec<ProposedCheck>,
    pub warnings: Vec<String>,
    pub has_recognised_stanza: bool,
}

enum ScanState {
    Idle,
    InHook(TriggerKind),
    InCommands(TriggerKind),
    InEntry(TriggerKind, Vec<char>),
}

spec fn scan_state_view(s: ScanState) -> LefthookState {
    match s {
        ScanState::Idle => LefthookState::Idle,
        ScanState::InHook(t) => LefthookState::InHook(t),
        ScanState::InCommands(t) => LefthookState::InCommands(t),
        ScanState::InEntry(t, n) => LefthookState::InEntry(t, n@),
    }
}

fn trim_char_exec(s: &Vec<char>, c: char) -> (r: Vec<char>)
    ensures
        r@ == trim_char(s@, c),
{
    let a = strip_leading_exec(s, c);
    strip_trailing_exec(&a, c)
}

/// Scan a Lefthook file: the proposed checks, the warnings (a Go template
/// in a `run:` command cannot be expanded; an entry key other than `run`,
/// such as `glob:` or `run-if:`, is not translated and needs manual
/// review), and whether any `pre-commit:` or `pre-push:` stanza was seen.
pub fn parse_lefthook(body: &str) -> (r: ParseResult)
    ensures
        checks_view(r.checks@) == spec_parse_lefthook(body@).checks,
        strings_view(r.warnings@) == spec_parse_lefthook(body@).warnings,
        r.has_recognised_stanza == spec_parse_lefthook(body@).recognised,
{
    let ls = split_lines(&to_chars(body));
    let n = ls.len();
    let mut state = ScanState::Idle;
    let mut checks: Vec<ProposedCheck> = Vec::new();
    let mut warnings: Vec<String> = Vec::new();
    let mut recognised = false;
    let mut i: usize = 0;
    assert(views(ls@).skip(0) =~= views(ls@));
    assert(checks_view(checks@) =~= Seq::<ProposedCheckView>::empty());
    assert(strings_view(warnings@) =~= Seq::<Seq<char>>::empty());
    while i < n
        invariant
            n == ls@.len(),
            i <= n,
            views(ls@) == lines(body@),
            lefthook_run(
                scan_state_view(state),
                LefthookFound {
                    checks: checks_view(checks@),
                    warnings: strings_view(warnings@),
                    recognised,
                },
                views(ls@).skip(i as int),
            ) == spec_parse_lefthook(body@),
        decreases n - i,
    {
        let ghost rest = views(ls@).skip(i as int);
        let ghost st0 = scan_state_view(state);
        let ghost acc0 = LefthookFound {
            checks: checks_view(checks@),
            warnings: strings_view(warnings@),
            recognised,
        };
        assert(rest[0] == ls@[i as int]@);
        assert(rest.drop_first() =~= views(ls@).skip(i + 1));
        let line = &ls[i];
        let t = trim_exec(line);
        let ts = trim_start_exec(line);
        if t.len() == 0 || starts_with_str(&ts, "#") {
            i += 1;
            continue;
        }
        let indent = leading_spaces(line);
        if indent == 0 {
            match hook_stage(&t) {
                Some(stage) => {
                    recognised = true;
                    state = ScanState::InHook(hook_to_trigger(stage));
                },
                None => {
                    state = ScanState::Idle;
                },
            }
            i += 1;
            continue;
        }
        match state {
            ScanState::Idle => {},
            ScanState::InHook(tr) => {
                if eq_str(&t, "commands:") || eq_str(&t, "commands: {}") {
                    state = ScanState::InCommands(tr);
                }
            },
            ScanState::InCommands(tr) => {
                match extract_key_name(&t) {
                    Some(nm) => {
                        if nm.len() > 0 {
                            state = ScanState::InEntry(tr, nm);
                        }
                    },
                    None => {},
                }
            },
            ScanState::InEntry(tr, name) => {
                let ghost name_v = name@;
                if starts_with_str(&t, "run: ") {
                    proof {
                        reveal_strlit("run: ");
                    }
                    let after = slice(&t, 5, t.len());
                    assert(after@ =~= t@.skip(5));
                    let rv = trim_char_exec(&trim_char_exec(&trim_exec(&after), '"'), '\'');
                    if contains_str(&rv, "{{") && contains_str(&rv, "}}") {
                        let mut w = to_chars("lefthook command `");
                        extend(&mut w, &name);
                        extend_str(&mut w, "` uses Go template syntax (`");
                        extend(&mut w, &rv);
                        extend_str(
                            &mut w,
                            "`); klasp cannot expand templates — verify the generated command manually",
                        );
                        let ghost wb = warnings@;
                        warnings.push(from_chars(&w));
                        assert(strings_view(warnings@) =~= strings_view(wb).push(
                            template_warning(name@, rv@),
                        ));
                    }
                    let c = ProposedCheck {
                        name: from_chars(&name),
                        triggers: vec![tr],
                        timeout_secs: 120,
                        source: ProposedCheckSource::Shell { command: from_chars(&rv) },
                    };
                    assert(c@.triggers =~= seq![tr]);
                    let ghost cb = checks@;
                    checks.push(c);
                    assert(checks_view(checks@) =~= checks_view(cb).push(
                        lefthook_check(name@, tr, rv@),
                    ));
                } else if indent > 4 {
                    match extract_key_name(&t) {
                        Some(k) => {
                            if k.len() > 0 && !eq_str(&k, "run") {
                                let mut w = to_chars("lefthook command `");
                                extend(&mut w, &name);
                                extend_str(&mut w, "` sets `");
                                extend(&mut w, &k);
                                extend_str(&mut w, ":`, which klasp does not translate; review it manually");
                                let ghost wb = warnings@;
                                warnings.push(from_chars(&w));
                                assert(strings_view(warnings@) =~= strings_view(wb).push(
                                    unknown_key_warning(name@, k@),
                                ));
                            }
                        },
                        None => {},
                    }
                }
                let mut next = ScanState::InEntry(tr, name);
                if indent <= 4 {
                    match extract_key_name(&t) {
                        Some(nn) => {
                            if nn.len() > 0 && !eq_str(&nn, "run") {
                                next = ScanState::InEntry(tr, nn);
                            }
                        },
                        None => {},
                    }
                }
                state = next;
            },
        }
        i += 1;
    }
    assert(views(ls@).skip(n as int) =~= Seq::<Seq<char>>::empty());
    ParseResult { checks, warnings, has_recognised_stanza: recognised }
}

pub open spec fn lefthook_instructions() -> Seq<char> {
    "Add `klasp install` to your CI pipeline. To chain klasp into Lefthook, append a `klasp gate` command entry under the relevant hook stanza in `lefthook.yml`. See https://github.com/klasp-dev/klasp for details."@
}

pub open spec fn no_stanza_warning() -> Seq<char> {
    "lefthook.yml contains no recognised pre-commit / pre-push hook stanza; review manually and add shell checks to klasp.toml"@
}

pub open spec fn spec_build_gate(source_path: Seq<char>, body: Seq<char>) -> DetectedGateView {
    let found = spec_parse_lefthook(body);
    DetectedGateView {
        gate_type: GateTypeView::Lefthook,
        source_path,
        proposed_checks: found.checks,
        chain_support: ChainSupport::ManualOnly,
        manual_chain_instructions: Some(lefthook_instructions()),
        warnings: if found.recognised {
            found.warnings
        } else {
            found.warnings.push(no_stanza_warning())
        },
    }
}

/// The Lefthook gate for a file; a file without a recognised hook stanza
/// gets a warning.
pub fn build_gate(source_path: String, body: &str) -> (r: DetectedGate)
    ensures
        r@ == spec_build_gate(source_path@, body@),
{
    let found = parse_lefthook(body);
    let mut warnings = found.warnings;
    if !found.has_recognised_stanza {
        let ghost wb = warnings@;
        warnings.push(
            from_chars(
                &to_chars(
                    "lefthook.yml contains no recognised pre-commit / pre-push hook stanza; review manually and add shell checks to klasp.toml",
                ),
            ),
        );
        assert(strings_view(warnings@) =~= strings_view(wb).push(no_stanza_warning()));
    }
    DetectedGate {
        gate_type: GateType::Lefthook,
        source_path,
        proposed_checks: found.checks,
        chain_support: ChainSupport::ManualOnly,
        manual_chain_instructions: Some(
            from_chars(
                &to_chars(
                    "Add `klasp install` to your CI pipeline. To chain klasp into Lefthook, append a `klasp gate` command entry under the relevant hook stanza in `lefthook.yml`. See https://github.com/klasp-dev/klasp for details.",
                ),
            ),
        ),
        warnings,
    }
}

pub open spec fn lefthook_files() -> Seq<&'static str> {
    seq!["lefthook.yml", "lefthook.yaml"]
}

pub open spec fn spec_detect(files: RepoFiles) -> Seq<DetectedGateView> {
    match first_existing(files, lefthook_files()) {
        Some(name) => seq![
            spec_build_gate(path_join(files.root@, name), files.spec_file(name)->0),
        ],
        None => Seq::empty(),
    }
}

proof fn lemma_first_existing_present(files: RepoFiles, cands: Seq<&str>)
    ensures
        first_existing(files, cands) matches Some(n) ==> files.spec_file(n) is Some,
    decreases cands.len(),
{
    if cands.len() > 0 && files.spec_file(cands[0]@) is None {
        lemma_first_existing_present(files, cands.drop_first());
    }
}

/// The Lefthook gate: `lefthook.yml`, else `lefthook.yaml`; none when
/// neither exists.
pub fn detect(files: &RepoFiles) -> (r: Vec<DetectedGate>)
    ensures
        gates_view(r@) == spec_detect(*files),
{
    let cands: Vec<&'static str> = vec!["lefthook.yml", "lefthook.yaml"];
    assert(cands@ == lefthook_files());
    proof {
        lemma_first_existing_present(*files, cands@);
    }
    let name = match first_existing_file(files, &cands) {
        Some(n) => n,
        None => {
            let r: Vec<DetectedGate> = Vec::new();
            assert(gates_view(r@) =~= Seq::<DetectedGateView>::empty());
            return r;
        },
    };
    let body = match files.file(name) {
        Some(b) => b,
        None => {
            let r: Vec<DetectedGate> = Vec::new();
            return r;
        },
    };
    let g = build_gate(join_path(files.root.as_str(), name), body);
    let r = vec![g];
    assert(gates_view(r@) =~= seq![g@]);
    r
}

} // verus!
