//! The sequence of one `klasp gate` run, as a step function: each step
//! takes what the last piece of outside work gave (an environment value,
//! stdin, the staged files, a loaded config, the verdicts of a group's
//! checks) and says what to do next. The caller does the work; every
//! decision about it is made here.

use vstd::prelude::*;

use crate::gate::{
    check_schema, classify_command, configs_view, gate_command, group_by_config, groups_upto,
    groups_view, resolve_event, spec_classify_command, spec_gate_command, spec_resolve_event,
    GateNotice, Groups, Outcome,
};
use crate::model::{spec_merge, verdicts_view, GitEvent, Verdict, VerdictPolicy, VerdictView};
use crate::text::{decimal, parse_unsigned, trim};

verus! {

/// The config groups of a run, and the verdicts of those already run.
pub struct GroupRun {
    pub builtin: Option<GitEvent>,
    /// Nothing was staged: the repository's own `klasp.toml` is the one
    /// group, and a failure to load it ends the run.
    pub fallback: bool,
    pub groups: Vec<(String, Vec<String>)>,
    /// The group being loaded or run.
    pub next: usize,
    /// One merged verdict per group run so far.
    pub verdicts: Vec<Verdict>,
}

pub struct GroupRunView {
    pub builtin: Option<GitEvent>,
    pub fallback: bool,
    pub groups: Groups,
    pub next: nat,
    pub verdicts: Seq<VerdictView>,
}

impl View for GroupRun {
    type V = GroupRunView;

    open spec fn view(&self) -> GroupRunView {
        GroupRunView {
            builtin: self.builtin,
            fallback: self.fallback,
            groups: groups_view(self.groups@),
            next: self.next as nat,
            verdicts: verdicts_view(self.verdicts@),
        }
    }
}

/// Where a run stands between two pieces of outside work.
pub enum GatePhase {
    /// `KLASP_GATE_SCHEMA` is to be read.
    Start,
    /// The schema matched; the tool call on stdin is to be read.
    SchemaChecked,
    /// The command was classified; the repository root is to be found.
    Classified { builtin: Option<GitEvent> },
    /// The root is known; the staged files are to be listed.
    Rooted { builtin: Option<GitEvent> },
    /// A group's config is loading.
    Loading { run: GroupRun },
    /// A group's checks are running.
    Running { run: GroupRun },
    /// The run is over.
    Done { outcome: Outcome },
}

pub enum GatePhaseView {
    Start,
    SchemaChecked,
    Classified(Option<GitEvent>),
    Rooted(Option<GitEvent>),
    Loading(GroupRunView),
    Running(GroupRunView),
    Done(Outcome),
}

impl View for GatePhase {
    type V = GatePhaseView;

    open spec fn view(&self) -> GatePhaseView {
        match self {
            GatePhase::Start => GatePhaseView::Start,
            GatePhase::SchemaChecked => GatePhaseView::SchemaChecked,
            GatePhase::Classified { builtin } => GatePhaseView::Classified(*builtin),
            GatePhase::Rooted { builtin } => GatePhaseView::Rooted(*builtin),
            GatePhase::Loading { run } => GatePhaseView::Loading(run@),
            GatePhase::Running { run } => GatePhaseView::Running(run@),
            GatePhase::Done { outcome } => GatePhaseView::Done(*outcome),
        }
    }
}

/// What the last piece of outside work gave.
pub enum GateEvent {
    /// The value of `KLASP_GATE_SCHEMA`, if set.
    SchemaRead(Option<String>),
    /// Stdin, or why it could not be read.
    InputRead(Result<String, String>),
    /// Whether a repository root was found.
    RepoRoot { found: bool },
    /// The staged files, each with the `klasp.toml` that governs it.
    Staged(Vec<(String, Option<String>)>),
    /// The config loaded, with one flag per user trigger telling whether it
    /// matches the command; or why it did not load.
    ConfigLoaded(Result<Vec<bool>, String>),
    /// The verdicts of the group's checks.
    ChecksRan(Vec<Verdict>),
}

/// The next piece of outside work.
pub enum GateAction {
    ReadInput,
    FindRepoRoot,
    ListStaged,
    /// Load the repository's own `klasp.toml`.
    LoadRootConfig,
    /// Load the `klasp.toml` at this path.
    LoadConfig(String),
    /// Run the loaded config's checks for this event, scoped to these files.
    RunChecks { event: GitEvent, files: Vec<String> },
    /// Report the verdict (when there is one) and end with the outcome.
    Finish { verdict: Option<Verdict>, outcome: Outcome },
}

pub enum GateActionView {
    ReadInput,
    FindRepoRoot,
    ListStaged,
    LoadRootConfig,
    LoadConfig(Seq<char>),
    RunChecks(GitEvent, Seq<Seq<char>>),
    Finish(Option<VerdictView>, Outcome),
}

pub open spec fn action_view(a: GateAction) -> GateActionView {
    match a {
        GateAction::ReadInput => GateActionView::ReadInput,
        GateAction::FindRepoRoot => GateActionView::FindRepoRoot,
        GateAction::ListStaged => GateActionView::ListStaged,
        GateAction::LoadRootConfig => GateActionView::LoadRootConfig,
        GateAction::LoadConfig(p) => GateActionView::LoadConfig(p@),
        GateAction::RunChecks { event, files } => GateActionView::RunChecks(
            event,
            files@.map_values(|f: String| f@),
        ),
        GateAction::Finish { verdict, outcome } => GateActionView::Finish(
            match verdict {
                Some(v) => Some(v@),
                None => None,
            },
            outcome,
        ),
    }
}

/// A notice as a mathematical value.
pub enum NoticeView {
    SchemaMismatch(Seq<char>),
    SchemaUnreadable(Seq<char>),
    StdinUnreadable(Seq<char>),
    InputUnparseable(Seq<char>),
    NoRepoRoot,
    ConfigError(Seq<char>),
    GroupConfigError(Seq<char>, Seq<char>),
    NoConfigFor(Seq<char>),
    Other,
}

pub open spec fn notice_view(n: GateNotice) -> NoticeView {
    match n {
        GateNotice::SchemaMismatch(e) => NoticeView::SchemaMismatch(e@),
        GateNotice::SchemaUnreadable(e) => NoticeView::SchemaUnreadable(e@),
        GateNotice::StdinUnreadable(e) => NoticeView::StdinUnreadable(e@),
        GateNotice::InputUnparseable(e) => NoticeView::InputUnparseable(e@),
        GateNotice::NoRepoRoot => NoticeView::NoRepoRoot,
        GateNotice::ConfigError(e) => NoticeView::ConfigError(e@),
        GateNotice::GroupConfigError { path, error } => NoticeView::GroupConfigError(path@, error@),
        GateNotice::NoConfigFor(p) => NoticeView::NoConfigFor(p@),
        _ => NoticeView::Other,
    }
}

pub open spec fn notices_view(ns: Seq<GateNotice>) -> Seq<NoticeView> {
    ns.map_values(|n: GateNotice| notice_view(n))
}

/// One step: the phase after it, the notices it prints, the next work.
pub type StepView = (GatePhaseView, Seq<NoticeView>, GateActionView);

pub open spec fn outcome_for(v: VerdictView) -> Outcome {
    if v.is_blocking() {
        Outcome::Block
    } else {
        Outcome::Pass
    }
}

/// The call goes ahead, with these notices and no report.
pub open spec fn let_through(notices: Seq<NoticeView>) -> StepView {
    (GatePhaseView::Done(Outcome::Pass), notices, GateActionView::Finish(None, Outcome::Pass))
}

/// On to the next group, or, after the last, the verdict merged across
/// the groups (one failing group blocks).
pub open spec fn advance(run: GroupRunView, notices: Seq<NoticeView>) -> StepView {
    let next = run.next + 1;
    if !run.fallback && next < run.groups.len() {
        (
            GatePhaseView::Loading(GroupRunView { next: next as nat, ..run }),
            notices,
            GateActionView::LoadConfig(run.groups[next as int].0),
        )
    } else {
        let v = spec_merge(run.verdicts, VerdictPolicy::AnyFail);
        (GatePhaseView::Done(outcome_for(v)), notices, GateActionView::Finish(Some(v), outcome_for(v)))
    }
}

/// The schema notice for a value of `KLASP_GATE_SCHEMA`, if it does not
/// match.
pub open spec fn schema_notice(value: Option<Seq<char>>) -> Option<NoticeView> {
    match value {
        None => Some(NoticeView::SchemaUnreadable("KLASP_GATE_SCHEMA is not set"@)),
        Some(v) => if parse_unsigned(trim(v), u32::MAX as int) == Some(
            crate::model::GATE_SCHEMA_VERSION as int,
        ) {
            None
        } else {
            Some(
                NoticeView::SchemaMismatch(
                    "expected "@ + decimal(crate::model::GATE_SCHEMA_VERSION as nat) + ", got "@ + v,
                ),
            )
        },
    }
}

/// A `no klasp.toml for <file>` notice for each of the first `n` staged
/// files no config governs.
pub open spec fn missing_config_notices(staged: Seq<(String, Option<String>)>, n: int) -> Seq<
    NoticeView,
>
    decreases n,
{
    if n <= 0 {
        Seq::empty()
    } else {
        missing_config_notices(staged, n - 1) + match staged[n - 1].1 {
            None => seq![NoticeView::NoConfigFor(staged[n - 1].0@)],
            Some(_) => Seq::empty(),
        }
    }
}

pub open spec fn staged_files_view(staged: Seq<(String, Option<String>)>) -> Seq<Seq<char>> {
    staged.map_values(|p: (String, Option<String>)| p.0@)
}

pub open spec fn staged_configs_view(staged: Seq<(String, Option<String>)>) -> Seq<Option<Seq<char>>> {
    staged.map_values(|p: (String, Option<String>)| crate::model::opt_view(p.1))
}

/// What a run does with each event in each phase. An event the phase
/// does not wait for ends the run and lets the call through.
pub open spec fn spec_gate_step(phase: GatePhaseView, event: GateEvent) -> StepView {
    match (phase, event) {
        (GatePhaseView::Start, GateEvent::SchemaRead(value)) => match schema_notice(
            crate::model::opt_view(value),
        ) {
            Some(n) => let_through(seq![n]),
            None => (GatePhaseView::SchemaChecked, Seq::empty(), GateActionView::ReadInput),
        },
        (GatePhaseView::SchemaChecked, GateEvent::InputRead(read)) => match read {
            Err(e) => let_through(seq![NoticeView::StdinUnreadable(e@)]),
            Ok(text) => match spec_gate_command(text@) {
                Err(e) => let_through(seq![NoticeView::InputUnparseable(e)]),
                Ok(None) => let_through(Seq::empty()),
                Ok(Some(c)) => (
                    GatePhaseView::Classified(spec_classify_command(c)),
                    Seq::empty(),
                    GateActionView::FindRepoRoot,
                ),
            },
        },
        (GatePhaseView::Classified(b), GateEvent::RepoRoot { found }) => if found {
            (GatePhaseView::Rooted(b), Seq::empty(), GateActionView::ListStaged)
        } else {
            let_through(seq![NoticeView::NoRepoRoot])
        },
        (GatePhaseView::Rooted(b), GateEvent::Staged(staged)) => if staged@.len() == 0 {
            (
                GatePhaseView::Loading(
                    GroupRunView {
                        builtin: b,
                        fallback: true,
                        groups: Seq::empty(),
                        next: 0,
                        verdicts: Seq::empty(),
                    },
                ),
                Seq::empty(),
                GateActionView::LoadRootConfig,
            )
        } else {
            let notices = missing_config_notices(staged@, staged@.len() as int);
            let groups = groups_upto(
                staged_files_view(staged@),
                staged_configs_view(staged@),
                staged@.len() as int,
            );
            if groups.len() == 0 {
                let_through(notices)
            } else {
                (
                    GatePhaseView::Loading(
                        GroupRunView {
                            builtin: b,
                            fallback: false,
                            groups,
                            next: 0,
                            verdicts: Seq::empty(),
                        },
                    ),
                    notices,
                    GateActionView::LoadConfig(groups[0].0),
                )
            }
        },
        (GatePhaseView::Loading(run), GateEvent::ConfigLoaded(loaded)) => match loaded {
            Err(e) => if run.fallback {
                let_through(seq![NoticeView::ConfigError(e@)])
            } else {
                advance(run, seq![NoticeView::GroupConfigError(run.groups[run.next as int].0, e@)])
            },
            Ok(user_matches) => match spec_resolve_event(run.builtin, user_matches@) {
                None => if run.fallback {
                    let_through(Seq::empty())
                } else {
                    advance(run, Seq::empty())
                },
                Some(ev) => (
                    GatePhaseView::Running(run),
                    Seq::empty(),
                    GateActionView::RunChecks(
                        ev,
                        if run.fallback {
                            Seq::empty()
                        } else {
                            run.groups[run.next as int].1
                        },
                    ),
                ),
            },
        },
        (GatePhaseView::Running(run), GateEvent::ChecksRan(vs)) => advance(
            GroupRunView {
                verdicts: run.verdicts.push(spec_merge(verdicts_view(vs@), VerdictPolicy::AnyFail)),
                ..run
            },
            Seq::empty(),
        ),
        (GatePhaseView::Done(o), _) => (GatePhaseView::Done(o), Seq::empty(), GateActionView::Finish(None, o)),
        _ => let_through(Seq::empty()),
    }
}

/// A group run is well formed: the group being worked on exists.
pub open spec fn run_ok(run: GroupRunView) -> bool {
    run.fallback || run.next < run.groups.len()
}

pub open spec fn phase_ok(phase: GatePhaseView) -> bool {
    match phase {
        GatePhaseView::Loading(run) => run_ok(run),
        GatePhaseView::Running(run) => run_ok(run),
        _ => true,
    }
}

pub open spec fn step_view(r: (GatePhase, Vec<GateNotice>, GateAction)) -> StepView {
    (r.0@, notices_view(r.1@), action_view(r.2))
}

fn copy_strings(v: &Vec<String>) -> (r: Vec<String>)
    ensures
        r@.map_values(|s: String| s@) == v@.map_values(|s: String| s@),
{
    let mut out: Vec<String> = Vec::new();
    let mut i: usize = 0;
    while i < v.len()
        invariant
            i <= v.len(),
            out.len() == i,
            forall|k: int| 0 <= k < i ==> #[trigger] out@[k]@ == v@[k]@,
        decreases v.len() - i,
    {
        out.push(v[i].as_str().to_owned());
        i += 1;
    }
    assert(out@.map_values(|s: String| s@) =~= v@.map_values(|s: String| s@));
    out
}

fn let_through_exec(notices: Vec<GateNotice>) -> (r: (GatePhase, Vec<GateNotice>, GateAction))
    ensures
        step_view(r) == let_through(notices_view(notices@)),
        phase_ok(r.0@),
{
    (GatePhase::Done { outcome: Outcome::Pass }, notices, GateAction::Finish { verdict: None, outcome: Outcome::Pass })
}

fn one_notice(n: GateNotice) -> (r: Vec<GateNotice>)
    ensures
        notices_view(r@) == seq![notice_view(n)],
{
    let mut r: Vec<GateNotice> = Vec::new();
    r.push(n);
    assert(notices_view(r@) =~= seq![notice_view(n)]);
    r
}

fn advance_exec(run: GroupRun, notices: Vec<GateNotice>) -> (r: (GatePhase, Vec<GateNotice>, GateAction))
    requires
        run_ok(run@),
    ensures
        step_view(r) == advance(run@, notices_view(notices@)),
        phase_ok(r.0@),
{
    if run.fallback {
        return finish_exec(run.verdicts, notices);
    }
    let n = run.groups.len();
    assert(run@.groups.len() == n);
    let next = run.next + 1;
    if next < n {
        let path = run.groups[next].0.as_str().to_owned();
        let GroupRun { builtin, fallback, groups, next: _, verdicts } = run;
        (
            GatePhase::Loading { run: GroupRun { builtin, fallback, groups, next, verdicts } },
            notices,
            GateAction::LoadConfig(path),
        )
    } else {
        finish_exec(run.verdicts, notices)
    }
}

fn finish_exec(verdicts: Vec<Verdict>, notices: Vec<GateNotice>) -> (r: (GatePhase, Vec<GateNotice>, GateAction))
    ensures
        ({
            let v = spec_merge(verdicts_view(verdicts@), VerdictPolicy::AnyFail);
            step_view(r) == (
                GatePhaseView::Done(outcome_for(v)),
                notices_view(notices@),
                GateActionView::Finish(Some(v), outcome_for(v)),
            )
        }),
        phase_ok(r.0@),
{
    let v = Verdict::merge(verdicts, VerdictPolicy::AnyFail);
    let outcome = crate::gate::outcome_of(&v);
    (GatePhase::Done { outcome }, notices, GateAction::Finish { verdict: Some(v), outcome })
}

/// One step of a run: the phase after `event`, the notices to print, and
/// the next piece of outside work, as [`spec_gate_step`] lays them out.
/// A run starts at [`GatePhase::Start`] with the value of
/// `KLASP_GATE_SCHEMA`.
pub fn gate_step(phase: GatePhase, event: GateEvent) -> (r: (GatePhase, Vec<GateNotice>, GateAction))
    requires
        phase_ok(phase@),
    ensures
        step_view(r) == spec_gate_step(phase@, event),
        phase_ok(r.0@),
{
    match phase {
        GatePhase::Start => match event {
            GateEvent::SchemaRead(value) => {
                let v = match &value {
                    Some(v) => Some(v.as_str()),
                    None => None,
                };
                match check_schema(v) {
                    Some(n) => let_through_exec(one_notice(n)),
                    None => (GatePhase::SchemaChecked, Vec::new(), GateAction::ReadInput),
                }
            },
            _ => let_through_exec(Vec::new()),
        },
        GatePhase::SchemaChecked => match event {
            GateEvent::InputRead(read) => match read {
                Err(e) => let_through_exec(one_notice(GateNotice::StdinUnreadable(e))),
                Ok(text) => match gate_command(text.as_str()) {
                    Err(e) => let_through_exec(one_notice(GateNotice::InputUnparseable(e))),
                    Ok(None) => let_through_exec(Vec::new()),
                    Ok(Some(c)) => (
                        GatePhase::Classified { builtin: classify_command(c.as_str()) },
                        Vec::new(),
                        GateAction::FindRepoRoot,
                    ),
                },
            },
            _ => let_through_exec(Vec::new()),
        },
        GatePhase::Classified { builtin } => match event {
            GateEvent::RepoRoot { found } => if found {
                (GatePhase::Rooted { builtin }, Vec::new(), GateAction::ListStaged)
            } else {
                let_through_exec(one_notice(GateNotice::NoRepoRoot))
            },
            _ => let_through_exec(Vec::new()),
        },
        GatePhase::Rooted { builtin } => match event {
            GateEvent::Staged(staged) => staged_step(builtin, &staged),
            _ => let_through_exec(Vec::new()),
        },
        GatePhase::Loading { run } => match event {
            GateEvent::ConfigLoaded(loaded) => loaded_step(run, loaded),
            _ => let_through_exec(Vec::new()),
        },
        GatePhase::Running { run } => match event {
            GateEvent::ChecksRan(vs) => {
                let ghost old_run = run@;
                let merged = Verdict::merge(vs, VerdictPolicy::AnyFail);
                let GroupRun { builtin, fallback, groups, next, verdicts } = run;
                let mut verdicts = verdicts;
                verdicts.push(merged);
                let run = GroupRun { builtin, fallback, groups, next, verdicts };
                assert(run@.verdicts =~= old_run.verdicts.push(merged@));
                advance_exec(run, Vec::new())
            },
            _ => let_through_exec(Vec::new()),
        },
        GatePhase::Done { outcome } => (
            GatePhase::Done { outcome },
            Vec::new(),
            GateAction::Finish { verdict: None, outcome },
        ),
    }
}

fn staged_step(builtin: Option<GitEvent>, staged: &Vec<(String, Option<String>)>) -> (r: (
    GatePhase,
    Vec<GateNotice>,
    GateAction,
))
    ensures
        step_view(r) == spec_gate_step(GatePhaseView::Rooted(builtin), GateEvent::Staged(*staged)),
        phase_ok(r.0@),
{
    if staged.len() == 0 {
        let run = GroupRun { builtin, fallback: true, groups: Vec::new(), next: 0, verdicts: Vec::new() };
        proof {
            assert(run@.groups =~= Seq::empty());
            assert(run@.verdicts =~= Seq::empty());
        }
        return (GatePhase::Loading { run }, Vec::new(), GateAction::LoadRootConfig);
    }
    let mut notices: Vec<GateNotice> = Vec::new();
    let mut files: Vec<String> = Vec::new();
    let mut configs: Vec<Option<String>> = Vec::new();
    let mut i: usize = 0;
    while i < staged.len()
        invariant
            i <= staged.len(),
            files.len() == i,
            configs.len() == i,
            notices_view(notices@) == missing_config_notices(staged@, i as int),
            files@.map_values(|s: String| s@) == staged_files_view(staged@).take(i as int),
            configs_view(configs@) == staged_configs_view(staged@).take(i as int),
        decreases staged.len() - i,
    {
        let file = staged[i].0.as_str().to_owned();
        let config = match &staged[i].1 {
            Some(c) => Some(c.as_str().to_owned()),
            None => None,
        };
        let ghost before = notices@;
        if config.is_none() {
            notices.push(GateNotice::NoConfigFor(staged[i].0.as_str().to_owned()));
            assert(notices_view(notices@) =~= notices_view(before) + seq![
                NoticeView::NoConfigFor(staged@[i as int].0@),
            ]);
        } else {
            assert(notices_view(notices@) =~= notices_view(before) + Seq::<NoticeView>::empty());
        }
        files.push(file);
        configs.push(config);
        i += 1;
        assert(files@.map_values(|s: String| s@) =~= staged_files_view(staged@).take(i as int));
        assert(configs_view(configs@) =~= staged_configs_view(staged@).take(i as int));
    }
    assert(staged_files_view(staged@).take(i as int) =~= staged_files_view(staged@));
    assert(staged_configs_view(staged@).take(i as int) =~= staged_configs_view(staged@));
    let groups = group_by_config(&files, &configs);
    if groups.len() == 0 {
        return let_through_exec(notices);
    }
    let path = groups[0].0.as_str().to_owned();
    let run = GroupRun { builtin, fallback: false, groups, next: 0, verdicts: Vec::new() };
    assert(run@.verdicts =~= Seq::empty());
    (GatePhase::Loading { run }, notices, GateAction::LoadConfig(path))
}

fn loaded_step(run: GroupRun, loaded: Result<Vec<bool>, String>) -> (r: (
    GatePhase,
    Vec<GateNotice>,
    GateAction,
))
    requires
        run_ok(run@),
    ensures
        step_view(r) == spec_gate_step(GatePhaseView::Loading(run@), GateEvent::ConfigLoaded(loaded)),
        phase_ok(r.0@),
{
    match loaded {
        Err(e) => if run.fallback {
            let_through_exec(one_notice(GateNotice::ConfigError(e)))
        } else {
            let path = run.groups[run.next].0.as_str().to_owned();
            advance_exec(run, one_notice(GateNotice::GroupConfigError { path, error: e }))
        },
        Ok(user_matches) => match resolve_event(run.builtin, &user_matches) {
            None => if run.fallback {
                let_through_exec(Vec::new())
            } else {
                advance_exec(run, Vec::new())
            },
            Some(event) => {
                let files = if run.fallback {
                    Vec::new()
                } else {
                    copy_strings(&run.groups[run.next].1)
                };
                proof {
                    if run.fallback {
                        assert(files@.map_values(|s: String| s@) =~= Seq::empty());
                    }
                }
                (GatePhase::Running { run }, Vec::new(), GateAction::RunChecks { event, files })
            },
        },
    }
}

/// A notice that a piece of tooling failed: the schema, stdin, the tool
/// call, the repository root or the repository's own config.
pub open spec fn is_tooling_failure(n: NoticeView) -> bool {
    ||| n is SchemaMismatch
    ||| n is SchemaUnreadable
    ||| n is StdinUnreadable
    ||| n is InputUnparseable
    ||| n is NoRepoRoot
    ||| n is ConfigError
}

proof fn lemma_missing_config_notices(staged: Seq<(String, Option<String>)>, n: int)
    requires
        0 <= n <= staged.len(),
    ensures
        forall|i: int|
            0 <= i < missing_config_notices(staged, n).len() ==> #[trigger] missing_config_notices(
                staged,
                n,
            )[i] is NoConfigFor,
    decreases n,
{
    if n > 0 {
        lemma_missing_config_notices(staged, n - 1);
    }
}

/// Every tooling failure fails open: a step that prints one lets the call
/// through, with no report.
pub proof fn lemma_gate_fails_open(phase: GatePhaseView, event: GateEvent)
    requires
        phase_ok(phase),
    ensures
        (exists|i: int|
            0 <= i < spec_gate_step(phase, event).1.len() && is_tooling_failure(
                #[trigger] spec_gate_step(phase, event).1[i],
            )) ==> spec_gate_step(phase, event) == let_through(spec_gate_step(phase, event).1),
{
    if let (GatePhaseView::Rooted(_), GateEvent::Staged(staged)) = (phase, event) {
        lemma_missing_config_notices(staged@, staged@.len() as int);
    }
}

/// A step that ends the run reports the outcome it ends with, and blocks
/// only with a blocking verdict in the report.
pub open spec fn ends_as_reported(step: StepView) -> bool {
    match step.0 {
        GatePhaseView::Done(o) => match step.2 {
            GateActionView::Finish(v, o2) => o2 == o && (o == Outcome::Block ==> match v {
                Some(w) => w.is_blocking(),
                None => false,
            }),
            _ => false,
        },
        _ => true,
    }
}

/// A call is blocked only with a blocking verdict. Whenever a step ends
/// the run, the outcome it hands back is the one the run ends with, and a
/// blocked call comes with a failing verdict.
pub proof fn lemma_gate_blocks_only_on_failing_verdict(phase: GatePhaseView, event: GateEvent)
    requires
        phase_ok(phase),
        !(phase is Done),
    ensures
        ends_as_reported(spec_gate_step(phase, event)),
{
}

/// With nothing staged, the repository's own config is loaded next, and
/// a failure to load it lets the call through.
pub proof fn lemma_gate_falls_back_to_root_config(
    builtin: Option<GitEvent>,
    staged: Vec<(String, Option<String>)>,
    error: String,
)
    requires
        staged@.len() == 0,
    ensures
        spec_gate_step(GatePhaseView::Rooted(builtin), GateEvent::Staged(staged)).2
            == GateActionView::LoadRootConfig,
        spec_gate_step(
            spec_gate_step(GatePhaseView::Rooted(builtin), GateEvent::Staged(staged)).0,
            GateEvent::ConfigLoaded(Err(error)),
        ) == let_through(seq![NoticeView::ConfigError(error@)]),
{
}

/// A group whose config does not load is skipped: the verdicts gathered so
/// far stand, and the run goes on with the next group or ends with them.
pub proof fn lemma_gate_skips_unloadable_group(run: GroupRunView, error: String)
    requires
        run_ok(run),
        !run.fallback,
    ensures
        spec_gate_step(GatePhaseView::Loading(run), GateEvent::ConfigLoaded(Err(error)))
            == advance(run, seq![NoticeView::GroupConfigError(run.groups[run.next as int].0, error@)]),
        match spec_gate_step(GatePhaseView::Loading(run), GateEvent::ConfigLoaded(Err(error))).0 {
            GatePhaseView::Loading(r2) => r2.verdicts == run.verdicts && r2.next == run.next + 1,
            GatePhaseView::Done(o) => o == outcome_for(spec_merge(run.verdicts, VerdictPolicy::AnyFail)),
            _ => false,
        },
{
}

} // verus!
