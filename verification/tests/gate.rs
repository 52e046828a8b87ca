use klasp::gate::{
    exit_code, group_by_config, outcome_of, resolve_event, triggered_checks, triggers_match,
    Outcome,
};
use klasp::git::{base_ref_candidate_list, compute_base_ref, merge_base_sha, staged_files};
use klasp::model::{
    CheckConfig, CheckSourceConfig, Finding, GitEvent, Severity, TriggerConfig, Verdict,
    VerdictPolicy,
};
use klasp::output::terminal::render;

fn check_with_triggers(on: Vec<&str>) -> CheckConfig {
    CheckConfig {
        name: "demo".into(),
        triggers: if on.is_empty() {
            vec![]
        } else {
            vec![TriggerConfig { on: on.into_iter().map(String::from).collect() }]
        },
        source: CheckSourceConfig::Shell { command: "true".into() },
        timeout_secs: None,
    }
}

#[test]
fn empty_triggers_match_every_event() {
    let c = check_with_triggers(vec![]);
    assert!(triggers_match(&c, GitEvent::Commit));
    assert!(triggers_match(&c, GitEvent::Push));
}

#[test]
fn commit_trigger_matches_only_commit() {
    let c = check_with_triggers(vec!["commit"]);
    assert!(triggers_match(&c, GitEvent::Commit));
    assert!(!triggers_match(&c, GitEvent::Push));
}

#[test]
fn push_trigger_matches_only_push() {
    let c = check_with_triggers(vec!["push"]);
    assert!(!triggers_match(&c, GitEvent::Commit));
    assert!(triggers_match(&c, GitEvent::Push));
}

#[test]
fn either_trigger_matches_both_events() {
    let c = check_with_triggers(vec!["commit", "push"]);
    assert!(triggers_match(&c, GitEvent::Commit));
    assert!(triggers_match(&c, GitEvent::Push));
}

#[test]
fn unknown_trigger_name_matches_nothing() {
    let c = check_with_triggers(vec!["pre-merge"]);
    assert!(!triggers_match(&c, GitEvent::Commit));
    assert!(!triggers_match(&c, GitEvent::Push));
}

#[test]
fn triggered_checks_lists_matching_indices_in_order() {
    let checks = vec![
        check_with_triggers(vec!["push"]),
        check_with_triggers(vec![]),
        check_with_triggers(vec!["commit"]),
    ];
    assert_eq!(triggered_checks(&checks, GitEvent::Commit), vec![1, 2]);
    assert_eq!(triggered_checks(&checks, GitEvent::Push), vec![0, 1]);
}

#[test]
fn resolve_event_prefers_builtin_then_user_triggers() {
    assert_eq!(resolve_event(Some(GitEvent::Push), &vec![true]), Some(GitEvent::Push));
    assert_eq!(resolve_event(None, &vec![false, true]), Some(GitEvent::Commit));
    assert_eq!(resolve_event(None, &vec![false, false]), None);
    assert_eq!(resolve_event(None, &vec![]), None);
}

#[test]
fn group_by_config_scopes_files_to_nearest_config() {
    let alpha = "/repo/packages/alpha/klasp.toml".to_string();
    let beta = "/repo/packages/beta/klasp.toml".to_string();
    let staged = vec![
        "/repo/packages/alpha/index.ts".to_string(),
        "/repo/packages/beta/index.ts".to_string(),
    ];
    let configs = vec![Some(alpha.clone()), Some(beta.clone())];
    let groups = group_by_config(&staged, &configs);
    assert_eq!(groups.len(), 2, "expected two groups");
    for (config_path, files) in &groups {
        if config_path.starts_with("/repo/packages/alpha") {
            assert_eq!(files.len(), 1, "alpha group must contain exactly one file");
            assert_eq!(files[0], staged[0], "alpha group file mismatch");
        } else if config_path.starts_with("/repo/packages/beta") {
            assert_eq!(files.len(), 1, "beta group must contain exactly one file");
            assert_eq!(files[0], staged[1], "beta group file mismatch");
        } else {
            panic!("unexpected group config path: {}", config_path);
        }
    }
}

#[test]
fn group_by_config_merges_same_config_and_drops_ungoverned() {
    let staged: Vec<String> = vec!["/r/a.ts".into(), "/r/x/b.ts".into(), "/r/c.ts".into()];
    let configs = vec![Some("/r/klasp.toml".to_string()), None, Some("/r/klasp.toml".to_string())];
    let groups = group_by_config(&staged, &configs);
    assert_eq!(
        groups,
        vec![("/r/klasp.toml".to_string(), vec!["/r/a.ts".to_string(), "/r/c.ts".to_string()])]
    );
}

fn error(rule: &str, msg: &str) -> Finding {
    Finding { rule: rule.into(), message: msg.into(), file: None, line: None, severity: Severity::Error }
}

#[test]
fn outcome_blocks_only_on_fail() {
    let fail = Verdict::Fail { findings: vec![], message: "x".into() };
    let warn = Verdict::Warn { findings: vec![], message: None };
    assert_eq!(outcome_of(&fail), Outcome::Block);
    assert_eq!(outcome_of(&warn), Outcome::Pass);
    assert_eq!(outcome_of(&Verdict::Pass), Outcome::Pass);
    assert_eq!(exit_code(Outcome::Block), 2);
    assert_eq!(exit_code(Outcome::Pass), 0);
}

#[test]
fn merge_any_fail_blocks_and_keeps_every_finding() {
    let merged = Verdict::merge(
        vec![
            Verdict::Warn { findings: vec![error("w", "warned")], message: Some("careful".into()) },
            Verdict::Fail { findings: vec![error("a", "one")], message: "first".into() },
            Verdict::Pass,
            Verdict::Fail { findings: vec![error("b", "two")], message: "second".into() },
        ],
        VerdictPolicy::AnyFail,
    );
    assert_eq!(
        merged,
        Verdict::Fail {
            findings: vec![error("w", "warned"), error("a", "one"), error("b", "two")],
            message: "first\nsecond".into(),
        }
    );
}

#[test]
fn merge_warnings_only_warns() {
    let merged = Verdict::merge(
        vec![
            Verdict::Pass,
            Verdict::Warn { findings: vec![], message: Some("m1".into()) },
            Verdict::Warn { findings: vec![error("r", "x")], message: None },
        ],
        VerdictPolicy::AnyFail,
    );
    assert_eq!(
        merged,
        Verdict::Warn { findings: vec![error("r", "x")], message: Some("m1".into()) }
    );
}

#[test]
fn merge_of_passes_and_of_nothing_passes() {
    assert_eq!(Verdict::merge(vec![], VerdictPolicy::AnyFail), Verdict::Pass);
    assert_eq!(
        Verdict::merge(vec![Verdict::Pass, Verdict::Pass], VerdictPolicy::AnyFail),
        Verdict::Pass
    );
}

#[test]
fn render_pass_is_empty() {
    assert_eq!(render(&Verdict::Pass, VerdictPolicy::AnyFail), "");
}

#[test]
fn render_warn_lists_findings() {
    let v = Verdict::Warn {
        findings: vec![Finding {
            rule: "lint".into(),
            message: "style".into(),
            file: Some("a.rs".into()),
            line: Some(3),
            severity: Severity::Warn,
        }],
        message: Some("note".into()),
    };
    assert_eq!(
        render(&v, VerdictPolicy::AnyFail),
        "klasp-gate: warnings (1 findings):\n  note\n  - [lint] style\n"
    );
}

#[test]
fn render_fail_counts_errors_and_shows_locations() {
    let v = Verdict::Fail {
        findings: vec![
            Finding {
                rule: "tsc".into(),
                message: "bad".into(),
                file: Some("src/a.ts".into()),
                line: Some(12),
                severity: Severity::Error,
            },
            Finding {
                rule: "lint".into(),
                message: "meh".into(),
                file: Some("src/b.ts".into()),
                line: None,
                severity: Severity::Warn,
            },
            Finding { rule: "x".into(), message: "fyi".into(), file: None, line: None, severity: Severity::Info },
        ],
        message: "checks failed".into(),
    };
    assert_eq!(
        render(&v, VerdictPolicy::AnyFail),
        "klasp-gate: blocked (1 errors, 3 findings total, policy=AnyFail):\nchecks failed\n  - [error][tsc] bad (src/a.ts:12)\n  - [warn][lint] meh (src/b.ts)\n  - [info][x] fyi\n"
    );
}

// ---------------------------------------------------------------------------
// git
// ---------------------------------------------------------------------------

#[test]
fn base_ref_candidates_in_preference_order() {
    assert_eq!(base_ref_candidate_list(), vec!["@{upstream}", "origin/main", "origin/master"]);
}

#[test]
fn merge_base_sha_needs_success_and_output() {
    assert_eq!(merge_base_sha(true, "abc123\n").as_deref(), Some("abc123"));
    assert_eq!(merge_base_sha(true, "  \n"), None);
    assert_eq!(merge_base_sha(false, "abc123\n"), None);
}

#[test]
fn compute_base_ref_falls_back_to_head_tilde_one_without_remote() {
    assert_eq!(compute_base_ref(&vec![None, None, None]), "HEAD~1");
}

#[test]
fn compute_base_ref_uses_upstream_when_available() {
    let expected = "0123456789abcdef0123456789abcdef01234567".to_string();
    assert_eq!(compute_base_ref(&vec![Some(expected.clone()), None, None]), expected);
}

#[test]
fn compute_base_ref_takes_first_candidate_found() {
    assert_eq!(
        compute_base_ref(&vec![None, Some("main-sha".into()), Some("master-sha".into())]),
        "main-sha"
    );
}

#[test]
fn staged_files_joins_each_line_onto_root() {
    assert_eq!(
        staged_files("/repo", true, "a.rs\n\nsrc/b.rs\n"),
        vec!["/repo/a.rs".to_string(), "/repo/src/b.rs".to_string()]
    );
    assert!(staged_files("/repo", false, "a.rs\n").is_empty());
}

// ---------------------------------------------------------------------------
// the tool call
// ---------------------------------------------------------------------------

use klasp::gate::{check_schema, classify_command, config_candidates, gate_command, GateNotice};

#[test]
fn classify_finds_git_commit_and_push() {
    assert_eq!(classify_command("git commit -m 'x'"), Some(GitEvent::Commit));
    assert_eq!(classify_command("git push origin main"), Some(GitEvent::Push));
    assert_eq!(classify_command("git add . && git commit -am wip"), Some(GitEvent::Commit));
    assert_eq!(classify_command("/usr/bin/git -C repo -c user.name=x commit"), Some(GitEvent::Commit));
    assert_eq!(classify_command("git --no-pager push"), Some(GitEvent::Push));
    assert_eq!(classify_command("git status"), None);
    assert_eq!(classify_command("echo commit"), None);
    assert_eq!(classify_command("git -C"), None);
    assert_eq!(classify_command(""), None);
}

#[test]
fn gate_command_reads_tool_input() {
    assert_eq!(
        gate_command(r#"{"tool_name":"Bash","tool_input":{"command":"git commit"}}"#),
        Ok(Some("git commit".to_string()))
    );
    assert_eq!(gate_command(r#"{"tool_name":"Edit","tool_input":{"file_path":"a"}}"#), Ok(None));
    assert!(gate_command("not json").is_err());
}

#[test]
fn schema_must_match_this_build() {
    assert_eq!(check_schema(Some("1")), None);
    assert_eq!(check_schema(Some(" 1\n")), None);
    assert_eq!(check_schema(Some("2")), Some(GateNotice::SchemaMismatch("expected 1, got 2".into())));
    assert_eq!(
        check_schema(None),
        Some(GateNotice::SchemaUnreadable("KLASP_GATE_SCHEMA is not set".into()))
    );
}

#[test]
fn config_candidates_walk_up_to_root() {
    assert_eq!(
        config_candidates("/repo/packages/alpha/src/index.ts", "/repo"),
        vec![
            "/repo/packages/alpha/src/klasp.toml".to_string(),
            "/repo/packages/alpha/klasp.toml".to_string(),
            "/repo/packages/klasp.toml".to_string(),
            "/repo/klasp.toml".to_string(),
        ]
    );
    assert_eq!(config_candidates("/repo/a.rs", "/repo"), vec!["/repo/klasp.toml".to_string()]);
    assert!(config_candidates("/elsewhere/a.rs", "/repo").is_empty());
}

use klasp::gate_run::{gate_step, GateAction, GateEvent, GatePhase};

fn fail_verdict(msg: &str) -> Verdict {
    Verdict::Fail {
        findings: vec![Finding {
            rule: "r".into(),
            message: msg.into(),
            file: None,
            line: None,
            severity: Severity::Error,
        }],
        message: msg.into(),
    }
}

fn to_rooted() -> GatePhase {
    let (p, n, a) = gate_step(GatePhase::Start, GateEvent::SchemaRead(Some("1".into())));
    assert!(n.is_empty());
    assert!(matches!(a, GateAction::ReadInput));
    let input = r#"{"tool_name":"Bash","tool_input":{"command":"git commit -m wip"}}"#;
    let (p, n, a) = gate_step(p, GateEvent::InputRead(Ok(input.into())));
    assert!(n.is_empty());
    assert!(matches!(a, GateAction::FindRepoRoot));
    let (p, n, a) = gate_step(p, GateEvent::RepoRoot { found: true });
    assert!(n.is_empty());
    assert!(matches!(a, GateAction::ListStaged));
    p
}

#[test]
fn gate_run_with_nothing_staged_checks_the_root_config_and_blocks_on_fail() {
    let p = to_rooted();
    let (p, _, a) = gate_step(p, GateEvent::Staged(vec![]));
    assert!(matches!(a, GateAction::LoadRootConfig));
    let (p, _, a) = gate_step(p, GateEvent::ConfigLoaded(Ok(vec![])));
    match a {
        GateAction::RunChecks { event, files } => {
            assert_eq!(event, GitEvent::Commit);
            assert!(files.is_empty());
        }
        _ => panic!("expected RunChecks"),
    }
    let (p, n, a) = gate_step(p, GateEvent::ChecksRan(vec![Verdict::Pass, fail_verdict("boom")]));
    assert!(n.is_empty());
    match a {
        GateAction::Finish { verdict: Some(v), outcome } => {
            assert_eq!(outcome, Outcome::Block);
            assert!(v.is_blocking());
        }
        _ => panic!("expected Finish with a verdict"),
    }
    assert!(matches!(p, GatePhase::Done { outcome: Outcome::Block }));
}

#[test]
fn gate_run_fails_open_on_schema_and_root_config_errors() {
    let (_, n, a) = gate_step(GatePhase::Start, GateEvent::SchemaRead(None));
    assert_eq!(n, vec![GateNotice::SchemaUnreadable("KLASP_GATE_SCHEMA is not set".into())]);
    assert!(matches!(a, GateAction::Finish { verdict: None, outcome: Outcome::Pass }));
    let (_, n, a) = gate_step(GatePhase::Start, GateEvent::SchemaRead(Some("7".into())));
    assert_eq!(n, vec![GateNotice::SchemaMismatch("expected 1, got 7".into())]);
    assert!(matches!(a, GateAction::Finish { verdict: None, outcome: Outcome::Pass }));
    let p = to_rooted();
    let (p, _, _) = gate_step(p, GateEvent::Staged(vec![]));
    let (_, n, a) = gate_step(p, GateEvent::ConfigLoaded(Err("bad toml".into())));
    assert_eq!(n, vec![GateNotice::ConfigError("bad toml".into())]);
    assert!(matches!(a, GateAction::Finish { verdict: None, outcome: Outcome::Pass }));
}

#[test]
fn gate_run_lets_non_git_commands_and_bad_input_through() {
    let (p, _, _) = gate_step(GatePhase::Start, GateEvent::SchemaRead(Some("1".into())));
    let input = r#"{"tool_name":"Bash","tool_input":{"command":"ls -la"}}"#;
    let (p, _, a) = gate_step(p, GateEvent::InputRead(Ok(input.into())));
    assert!(matches!(a, GateAction::FindRepoRoot));
    let (p, _, _) = gate_step(p, GateEvent::RepoRoot { found: true });
    let (p, _, _) = gate_step(p, GateEvent::Staged(vec![]));
    let (_, n, a) = gate_step(p, GateEvent::ConfigLoaded(Ok(vec![])));
    assert!(n.is_empty());
    assert!(matches!(a, GateAction::Finish { verdict: None, outcome: Outcome::Pass }));

    let (p, _, _) = gate_step(GatePhase::Start, GateEvent::SchemaRead(Some("1".into())));
    let (_, n, a) = gate_step(p, GateEvent::InputRead(Ok("not json".into())));
    assert_eq!(n.len(), 1);
    assert!(matches!(&n[0], GateNotice::InputUnparseable(_)));
    assert!(matches!(a, GateAction::Finish { verdict: None, outcome: Outcome::Pass }));

    let (p, _, _) = gate_step(GatePhase::Start, GateEvent::SchemaRead(Some("1".into())));
    let input = r#"{"tool_name":"Bash","tool_input":{"command":"git push"}}"#;
    let (p, _, _) = gate_step(p, GateEvent::InputRead(Ok(input.into())));
    let (_, n, a) = gate_step(p, GateEvent::RepoRoot { found: false });
    assert_eq!(n, vec![GateNotice::NoRepoRoot]);
    assert!(matches!(a, GateAction::Finish { verdict: None, outcome: Outcome::Pass }));
}

#[test]
fn gate_run_groups_staged_files_and_skips_a_group_whose_config_fails() {
    let p = to_rooted();
    let staged = vec![
        ("a/x.rs".to_string(), Some("a/klasp.toml".to_string())),
        ("stray.rs".to_string(), None),
        ("b/y.rs".to_string(), Some("b/klasp.toml".to_string())),
    ];
    let (p, n, a) = gate_step(p, GateEvent::Staged(staged));
    assert_eq!(n, vec![GateNotice::NoConfigFor("stray.rs".into())]);
    assert!(matches!(&a, GateAction::LoadConfig(path) if path == "a/klasp.toml"));
    let (p, n, a) = gate_step(p, GateEvent::ConfigLoaded(Err("broken".into())));
    assert_eq!(n, vec![GateNotice::GroupConfigError { path: "a/klasp.toml".into(), error: "broken".into() }]);
    assert!(matches!(&a, GateAction::LoadConfig(path) if path == "b/klasp.toml"));
    let (p, _, a) = gate_step(p, GateEvent::ConfigLoaded(Ok(vec![])));
    match a {
        GateAction::RunChecks { event, files } => {
            assert_eq!(event, GitEvent::Commit);
            assert_eq!(files, vec!["b/y.rs".to_string()]);
        }
        _ => panic!("expected RunChecks"),
    }
    let (_, _, a) = gate_step(p, GateEvent::ChecksRan(vec![Verdict::Pass]));
    match a {
        GateAction::Finish { verdict: Some(v), outcome } => {
            assert_eq!(outcome, Outcome::Pass);
            assert_eq!(v, Verdict::Pass);
        }
        _ => panic!("expected Finish with a verdict"),
    }
}

#[test]
fn gate_run_with_only_unconfigured_files_passes_without_report() {
    let p = to_rooted();
    let (_, n, a) = gate_step(p, GateEvent::Staged(vec![("x.rs".to_string(), None)]));
    assert_eq!(n, vec![GateNotice::NoConfigFor("x.rs".into())]);
    assert!(matches!(a, GateAction::Finish { verdict: None, outcome: Outcome::Pass }));
}
