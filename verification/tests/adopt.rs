use klasp::adopt::detect::{detect_all, RepoFiles};
use klasp::adopt::detect_agents::{detect_installed_agents, AgentHome};
use klasp::adopt::detect_husky;
use klasp::adopt::detect_lefthook;
use klasp::adopt::detect_lint_staged::{self, package_json_has_lint_staged, proposed_check};
use klasp::adopt::mode::chain_unsupported_message;
use klasp::adopt::plan::{
    AdoptMode, AdoptionPlan, ChainSupport, DetectedGate, GateType, HookStage, ProposedCheck,
    ProposedCheckSource, TriggerKind,
};
use klasp::adopt::render::render_plan;

fn repo(dirs: &[&str], files: &[(&str, &str)]) -> RepoFiles {
    RepoFiles {
        root: "/repo".to_string(),
        dirs: dirs.iter().map(|d| d.to_string()).collect(),
        files: files.iter().map(|(p, c)| (p.to_string(), c.to_string())).collect(),
    }
}

fn husky(hook: &str, body: &str) -> RepoFiles {
    let path = format!(".husky/{hook}");
    repo(&[".husky"], &[(path.as_str(), body)])
}

// ---------------------------------------------------------------------------
// agents
// ---------------------------------------------------------------------------

#[test]
fn no_home_dir_returns_all_three() {
    let agents = detect_installed_agents(None);
    assert_eq!(agents, vec!["claude_code", "codex", "aider"]);
}

#[test]
fn empty_home_returns_all_three_fallback() {
    let agents = detect_installed_agents(Some(AgentHome { claude_code: false, codex: false, aider: false }));
    assert_eq!(agents, vec!["claude_code", "codex", "aider"]);
}

#[test]
fn claude_only_home_returns_claude_code() {
    let agents = detect_installed_agents(Some(AgentHome { claude_code: true, codex: false, aider: false }));
    assert_eq!(agents, vec!["claude_code"]);
}

#[test]
fn codex_only_home_returns_codex() {
    let agents = detect_installed_agents(Some(AgentHome { claude_code: false, codex: true, aider: false }));
    assert_eq!(agents, vec!["codex"]);
}

#[test]
fn aider_conf_yml_detected() {
    let agents = detect_installed_agents(Some(AgentHome { claude_code: false, codex: false, aider: true }));
    assert_eq!(agents, vec!["aider"]);
    let paths = klasp::adopt::detect_agents::aider_probe_paths("/home/u");
    assert_eq!(paths, vec!["/home/u/.aider", "/home/u/.aider.conf.yml", "/home/u/.aiderignore"]);
}

#[test]
fn all_three_detected() {
    let agents = detect_installed_agents(Some(AgentHome { claude_code: true, codex: true, aider: true }));
    assert_eq!(agents, vec!["claude_code", "codex", "aider"]);
}

#[test]
fn claude_and_codex_detected() {
    let agents = detect_installed_agents(Some(AgentHome { claude_code: true, codex: true, aider: false }));
    assert_eq!(agents, vec!["claude_code", "codex"]);
}

// ---------------------------------------------------------------------------
// husky
// ---------------------------------------------------------------------------

#[test]
fn no_husky_dir_returns_empty() {
    assert!(detect_husky::detect(&repo(&[], &[])).is_empty());
}

#[test]
fn pre_commit_with_npx_lint_staged() {
    let result = detect_husky::detect(&husky("pre-commit", "#!/bin/sh\nnpx lint-staged\n"));
    assert_eq!(result.len(), 1);
    let gate = &result[0];
    assert!(matches!(&gate.gate_type, GateType::Husky { hook } if *hook == HookStage::PreCommit));
    assert_eq!(gate.source_path, "/repo/.husky/pre-commit");
    assert_eq!(gate.proposed_checks.len(), 1);
    let check = &gate.proposed_checks[0];
    assert_eq!(check.name, "lint-staged");
    assert_eq!(check.triggers, vec![TriggerKind::Commit]);
    assert!(matches!(&check.source, ProposedCheckSource::Shell { command } if command == "npx lint-staged"));
}

#[test]
fn pre_push_with_pnpm_test() {
    let result = detect_husky::detect(&husky("pre-push", "#!/bin/sh\npnpm test\n"));
    assert_eq!(result.len(), 1);
    let gate = &result[0];
    assert!(matches!(&gate.gate_type, GateType::Husky { hook } if *hook == HookStage::PrePush));
    let check = &gate.proposed_checks[0];
    assert_eq!(check.name, "test");
    assert_eq!(check.timeout_secs, 180);
    assert_eq!(check.triggers, vec![TriggerKind::Push]);
}

#[test]
fn empty_hook_body_produces_no_checks_and_warning() {
    let result = detect_husky::detect(&husky("pre-commit", "#!/bin/sh\n# nothing here\n"));
    assert_eq!(result.len(), 1);
    let gate = &result[0];
    assert!(gate.proposed_checks.is_empty());
    assert!(gate.warnings.iter().any(|w| w.contains("empty")));
}

#[test]
fn lint_staged_in_hook_and_package_json_triggers_duplicate_warning() {
    let files = repo(
        &[".husky"],
        &[(".husky/pre-commit", "#!/bin/sh\nnpx lint-staged\n"), ("package.json", r#"{"lint-staged": {"*.ts": "tsc"}}"#)],
    );
    let result = detect_husky::detect(&files);
    let gate = &result[0];
    assert!(gate.warnings.iter().any(|w| w.contains("overlap")));
}

#[test]
fn only_bookkeeping_comments_produces_no_checks() {
    let result = detect_husky::detect(&husky("pre-commit", "#!/bin/sh\n# klasp adopted: ignored\n# another comment\n"));
    assert!(result[0].proposed_checks.is_empty());
}

#[test]
fn husky_bookkeeping_lines_are_not_commands() {
    let body = "#!/usr/bin/env sh\n. \"$(dirname -- \"$0\")/_/husky.sh\"\n\ncargo fmt --check\n";
    let result = detect_husky::detect(&husky("pre-commit", body));
    assert_eq!(result[0].proposed_checks.len(), 1);
    assert_eq!(result[0].proposed_checks[0].name, "cargo");
    assert_eq!(result[0].proposed_checks[0].timeout_secs, 300);
}

#[test]
fn unrecognised_command_yields_one_check_with_shell_source() {
    let result = detect_husky::detect(&husky("pre-commit", "#!/bin/sh\nmycustomlinter --fix\n"));
    let gate = &result[0];
    assert_eq!(gate.proposed_checks.len(), 1);
    let check = &gate.proposed_checks[0];
    assert_eq!(check.name, "mycustomlinter");
    assert!(matches!(&check.source, ProposedCheckSource::Shell { command } if command == "mycustomlinter --fix"));
}

#[test]
fn derived_names_keep_last_path_segment_and_sanitise() {
    assert_eq!(detect_husky::derive_name_from_command("./node_modules/.bin/my+lint --x", "pre-commit"), "my-lint");
    assert_eq!(detect_husky::derive_name_from_command("./bin/", "pre-commit"), "husky-pre-commit");
    assert_eq!(detect_husky::derive_name_from_command("+++ x", "pre-push"), "husky-pre-push");
}

#[test]
fn recognised_command_has_correct_timeout() {
    let result = detect_husky::detect(&husky("pre-commit", "#!/bin/sh\nnpm run lint\n"));
    assert_eq!(result[0].proposed_checks[0].timeout_secs, 120);
}

#[test]
fn chain_support_is_always_manual_only() {
    let result = detect_husky::detect(&husky("pre-commit", "#!/bin/sh\npnpm test\n"));
    assert!(matches!(result[0].chain_support, ChainSupport::ManualOnly));
}

#[test]
fn multi_line_pnpm_lint_and_pnpm_test_produces_two_checks() {
    let result = detect_husky::detect(&husky("pre-commit", "#!/bin/sh\npnpm lint\npnpm test\n"));
    assert_eq!(result.len(), 1);
    let gate = &result[0];
    assert_eq!(gate.proposed_checks.len(), 2);
    assert_eq!(gate.proposed_checks[0].name, "lint");
    assert_eq!(gate.proposed_checks[1].name, "test");
    assert!(matches!(&gate.proposed_checks[0].source, ProposedCheckSource::Shell { command } if command == "pnpm lint"));
    assert!(matches!(&gate.proposed_checks[1].source, ProposedCheckSource::Shell { command } if command == "pnpm test"));
}

#[test]
fn multi_line_lint_staged_and_pnpm_test_produces_two_named_checks() {
    let result = detect_husky::detect(&husky("pre-commit", "#!/bin/sh\nnpx lint-staged\npnpm test\n"));
    let gate = &result[0];
    assert_eq!(gate.proposed_checks.len(), 2);
    assert_eq!(gate.proposed_checks[0].name, "lint-staged");
    assert_eq!(gate.proposed_checks[1].name, "test");
}

// ---------------------------------------------------------------------------
// lefthook
// ---------------------------------------------------------------------------

#[test]
fn no_lefthook_file_returns_empty() {
    assert!(detect_lefthook::detect(&repo(&[], &[])).is_empty());
}

#[test]
fn simple_pre_commit_block_two_checks() {
    let files = repo(&[], &[("lefthook.yml", "pre-commit:\n  commands:\n    lint:\n      run: pnpm lint\n    test:\n      run: pnpm test\n")]);
    let result = detect_lefthook::detect(&files);
    assert_eq!(result.len(), 1);
    let gate = &result[0];
    assert_eq!(gate.proposed_checks.len(), 2);
    let lint = gate.proposed_checks.iter().find(|c| c.name == "lint").unwrap();
    assert_eq!(lint.triggers, vec![TriggerKind::Commit]);
    assert!(matches!(&lint.source, ProposedCheckSource::Shell { command } if command == "pnpm lint"));
    let test = gate.proposed_checks.iter().find(|c| c.name == "test").unwrap();
    assert_eq!(test.triggers, vec![TriggerKind::Commit]);
    assert!(matches!(&test.source, ProposedCheckSource::Shell { command } if command == "pnpm test"));
}

#[test]
fn pre_push_block_yields_push_trigger() {
    let files = repo(&[], &[("lefthook.yml", "pre-push:\n  commands:\n    build:\n      run: cargo build\n")]);
    let result = detect_lefthook::detect(&files);
    assert_eq!(result.len(), 1);
    assert_eq!(result[0].proposed_checks.len(), 1);
    assert_eq!(result[0].proposed_checks[0].triggers, vec![TriggerKind::Push]);
}

#[test]
fn templated_run_emits_warning_and_check() {
    let files = repo(&[], &[("lefthook.yml", "pre-commit:\n  commands:\n    fmt:\n      run: \"{{ .somevar }}\"\n")]);
    let result = detect_lefthook::detect(&files);
    let gate = &result[0];
    assert!(gate.warnings.iter().any(|w| w.contains("template")));
    assert_eq!(gate.proposed_checks.len(), 1);
    assert!(matches!(&gate.proposed_checks[0].source, ProposedCheckSource::Shell { command } if command.contains("{{ .somevar }}")));
}

#[test]
fn file_with_no_hook_stanza_has_warning_and_no_checks() {
    let files = repo(&[], &[("lefthook.yml", "output:\n  - execution\n  - skipped_hook\n")]);
    let result = detect_lefthook::detect(&files);
    let gate = &result[0];
    assert!(gate.proposed_checks.is_empty());
    assert!(gate.warnings.iter().any(|w| w.contains("no recognised")));
}

#[test]
fn prefers_yml_over_yaml() {
    let files = repo(
        &[],
        &[
            ("lefthook.yaml", "pre-push:\n  commands:\n    test:\n      run: pnpm test\n"),
            ("lefthook.yml", "pre-commit:\n  commands:\n    lint:\n      run: pnpm lint\n"),
        ],
    );
    let result = detect_lefthook::detect(&files);
    assert_eq!(result.len(), 1);
    assert!(result[0].source_path.ends_with("lefthook.yml"));
}

#[test]
fn chain_support_is_manual_only() {
    let files = repo(&[], &[("lefthook.yml", "pre-commit:\n  commands:\n    lint:\n      run: eslint .\n")]);
    let result = detect_lefthook::detect(&files);
    assert!(matches!(result[0].chain_support, ChainSupport::ManualOnly));
}

#[test]
fn yaml_extension_also_detected() {
    let files = repo(&[], &[("lefthook.yaml", "pre-push:\n  commands:\n    typecheck:\n      run: tsc --noEmit\n")]);
    let result = detect_lefthook::detect(&files);
    assert_eq!(result.len(), 1);
    assert_eq!(result[0].proposed_checks.len(), 1);
    assert_eq!(result[0].proposed_checks[0].name, "typecheck");
}

#[test]
fn lefthook_parse_ignores_comments_and_other_stanzas() {
    let body = "# top comment\npre-commit:\n  parallel: true\n  commands:\n    # skip me\n    lint:\n      glob: \"*.ts\"\n      run: 'eslint .'\ncommit-msg:\n  commands:\n    msg:\n      run: check-msg\n";
    let r = detect_lefthook::parse_lefthook(body);
    assert!(r.has_recognised_stanza);
    assert_eq!(r.checks.len(), 1);
    assert_eq!(r.checks[0].name, "lint");
    assert!(matches!(&r.checks[0].source, ProposedCheckSource::Shell { command } if command == "eslint ."));
    assert_eq!(
        r.warnings,
        vec!["lefthook command `lint` sets `glob:`, which klasp does not translate; review it manually"]
    );
}

#[test]
fn lefthook_unknown_entry_keys_are_kept_with_a_warning() {
    let body = "pre-commit:\n  commands:\n    lint:\n      glob: \"*.js\"\n      run: eslint\n";
    let r = detect_lefthook::parse_lefthook(body);
    assert_eq!(
        r.checks,
        vec![ProposedCheck {
            name: "lint".to_string(),
            triggers: vec![TriggerKind::Commit],
            timeout_secs: 120,
            source: ProposedCheckSource::Shell { command: "eslint".to_string() },
        }]
    );
    assert!(!r.warnings.is_empty());
    assert!(r.warnings[0].contains("glob:"));
    assert!(r.warnings[0].contains("review it manually"));
}

#[test]
fn lefthook_run_if_warns_and_run_only_entry_does_not() {
    let with_run_if = "pre-push:\n  commands:\n    test:\n      run: cargo test\n      run-if: \"true\"\n";
    let r = detect_lefthook::parse_lefthook(with_run_if);
    assert_eq!(r.checks.len(), 1);
    assert_eq!(r.warnings.len(), 1);
    assert!(r.warnings[0].contains("`test` sets `run-if:`"));
    let plain = "pre-push:\n  commands:\n    test:\n      run: cargo test\n";
    assert!(detect_lefthook::parse_lefthook(plain).warnings.is_empty());
}

#[test]
fn lefthook_blank_and_comment_lines_do_not_change_the_scan() {
    let a = "pre-commit:\n  commands:\n    lint:\n      run: eslint\n";
    let b = "# header\n\npre-commit:\n  commands:\n\n    # note\n    lint:\n      run: eslint\n\n";
    let ra = detect_lefthook::parse_lefthook(a);
    let rb = detect_lefthook::parse_lefthook(b);
    assert_eq!(ra.checks, rb.checks);
    assert_eq!(ra.warnings, rb.warnings);
    assert_eq!(ra.has_recognised_stanza, rb.has_recognised_stanza);
}

// ---------------------------------------------------------------------------
// lint-staged
// ---------------------------------------------------------------------------

const PKG: &str = r#"{ "lint-staged": {} }"#;

#[test]
fn empty_repo_yields_no_findings() {
    assert!(detect_lint_staged::detect(&repo(&[], &[])).is_empty());
}

#[test]
fn package_json_with_lint_staged_key_yields_one_finding() {
    let findings = detect_lint_staged::detect(&repo(&[], &[("package.json", r#"{ "lint-staged": { "*.ts": "eslint" } }"#)]));
    assert_eq!(findings.len(), 1);
    assert_eq!(findings[0].gate_type, GateType::LintStaged);
    assert_eq!(findings[0].source_path, "/repo/package.json");
}

fn command_of(files: &RepoFiles) -> String {
    let findings = detect_lint_staged::detect(files);
    match &findings[0].proposed_checks[0].source {
        ProposedCheckSource::Shell { command } => command.clone(),
        other => panic!("expected shell source, got {other:?}"),
    }
}

#[test]
fn command_defaults_to_npx_when_no_lockfile() {
    assert_eq!(command_of(&repo(&[], &[("package.json", PKG)])), "npx lint-staged");
}

#[test]
fn command_uses_pnpm_when_pnpm_lockfile_present() {
    assert_eq!(command_of(&repo(&[], &[("package.json", PKG), ("pnpm-lock.yaml", "")])), "pnpm exec lint-staged");
}

#[test]
fn command_uses_yarn_when_yarn_lock_present() {
    assert_eq!(command_of(&repo(&[], &[("package.json", PKG), ("yarn.lock", "")])), "yarn lint-staged");
}

#[test]
fn standalone_lintstagedrc_json_detected() {
    let findings = detect_lint_staged::detect(&repo(&[], &[(".lintstagedrc.json", r#"{"*.ts": "eslint"}"#)]));
    assert_eq!(findings.len(), 1);
    assert_eq!(findings[0].source_path, "/repo/.lintstagedrc.json");
}

#[test]
fn standalone_lintstagedrc_bare_detected() {
    let findings = detect_lint_staged::detect(&repo(&[], &[(".lintstagedrc", r#"{"*.ts": "eslint"}"#)]));
    assert_eq!(findings.len(), 1);
    assert_eq!(findings[0].source_path, "/repo/.lintstagedrc");
}

#[test]
fn standalone_takes_priority_over_package_json() {
    let findings = detect_lint_staged::detect(&repo(&[], &[("package.json", PKG), (".lintstagedrc.json", r#"{"*.ts": "eslint"}"#)]));
    assert_eq!(findings.len(), 1, "must not produce two findings");
    assert_eq!(findings[0].source_path, "/repo/.lintstagedrc.json");
    assert!(findings[0].manual_chain_instructions.as_deref().unwrap().contains("your `.lintstagedrc*` file"));
}

#[test]
fn duplicate_warning_fires_when_husky_hook_references_lint_staged() {
    let findings = detect_lint_staged::detect(&repo(
        &[".husky"],
        &[("package.json", PKG), (".husky/pre-commit", "#!/bin/sh\nnpx lint-staged\n")],
    ));
    assert!(!findings[0].warnings.is_empty());
    assert!(findings[0].warnings[0].contains("twice") || findings[0].warnings[0].contains("duplicate"));
}

#[test]
fn no_duplicate_warning_when_husky_hook_does_not_reference_lint_staged() {
    let findings = detect_lint_staged::detect(&repo(
        &[".husky"],
        &[("package.json", PKG), (".husky/pre-commit", "#!/bin/sh\nnpm test\n")],
    ));
    assert!(findings[0].warnings.is_empty());
}

#[test]
fn no_duplicate_warning_when_husky_hook_absent() {
    let findings = detect_lint_staged::detect(&repo(&[], &[("package.json", PKG)]));
    assert!(findings[0].warnings.is_empty());
}

#[test]
fn package_json_without_lint_staged_key_yields_no_findings() {
    let findings = detect_lint_staged::detect(&repo(&[], &[("package.json", r#"{ "scripts": { "test": "jest" } }"#)]));
    assert!(findings.is_empty());
}

#[test]
fn does_not_false_positive_on_value_containing_lint_staged_name() {
    let findings = detect_lint_staged::detect(&repo(
        &[],
        &[("package.json", r#"{ "description": "This project uses lint-staged for formatting." }"#)],
    ));
    assert!(
        findings.is_empty(),
        "should not match when lint-staged appears only in a value, not as a key"
    );
    assert!(!package_json_has_lint_staged(r#"{ "description": "uses \"lint-staged\" style" }"#));
}

#[test]
fn proposed_check_name_and_triggers() {
    let findings = detect_lint_staged::detect(&repo(&[], &[("package.json", r#"{ "lint-staged": {} }"#)]));
    let check = &findings[0].proposed_checks[0];
    assert_eq!(check.name, "lint-staged");
    assert_eq!(check.triggers, vec![TriggerKind::Commit]);
    assert_eq!(check.timeout_secs, 120);
    assert_eq!(proposed_check("npx lint-staged".to_string()).name, "lint-staged");
}

// ---------------------------------------------------------------------------
// plan, mode, render
// ---------------------------------------------------------------------------

fn gate_with_instructions(instructions: &str) -> DetectedGate {
    DetectedGate {
        gate_type: GateType::Husky { hook: HookStage::PreCommit },
        source_path: ".husky/pre-commit".to_string(),
        proposed_checks: vec![ProposedCheck {
            name: "husky-pre-commit".to_string(),
            triggers: vec![TriggerKind::Commit],
            timeout_secs: 120,
            source: ProposedCheckSource::Shell { command: "pnpm exec lint-staged".to_string() },
        }],
        chain_support: ChainSupport::ManualOnly,
        manual_chain_instructions: Some(instructions.to_string()),
        warnings: vec![],
    }
}

fn gate_without_instructions() -> DetectedGate {
    DetectedGate {
        gate_type: GateType::PreCommitFramework,
        source_path: ".pre-commit-config.yaml".to_string(),
        proposed_checks: vec![ProposedCheck {
            name: "pre-commit".to_string(),
            triggers: vec![TriggerKind::Commit],
            timeout_secs: 120,
            source: ProposedCheckSource::PreCommit { hook_stage: None, config_path: None },
        }],
        chain_support: ChainSupport::ManualOnly,
        manual_chain_instructions: None,
        warnings: vec![],
    }
}

fn plain_hook_gate() -> DetectedGate {
    DetectedGate {
        gate_type: GateType::PlainGitHook { hook: HookStage::PrePush },
        source_path: ".git/hooks/pre-push".to_string(),
        proposed_checks: vec![],
        chain_support: ChainSupport::Unsafe,
        manual_chain_instructions: Some("Append `klasp gate` calls to .git/hooks/pre-push manually.".to_string()),
        warnings: vec![
            "klasp will not overwrite this hook".to_string(),
            "run with --mode chain to append a managed block, or mirror the command manually".to_string(),
        ],
    }
}

#[test]
fn adoption_plan_default_is_empty() {
    let plan = AdoptionPlan::default();
    assert!(plan.findings.is_empty());
}

#[test]
fn detected_gate_clone_round_trips() {
    let gate = DetectedGate {
        gate_type: GateType::PreCommitFramework,
        source_path: ".pre-commit-config.yaml".to_string(),
        proposed_checks: vec![ProposedCheck {
            name: "pre-commit".to_string(),
            triggers: vec![TriggerKind::Commit],
            timeout_secs: 120,
            source: ProposedCheckSource::PreCommit { hook_stage: None, config_path: None },
        }],
        chain_support: ChainSupport::ManualOnly,
        manual_chain_instructions: Some("Follow the manual steps.".to_string()),
        warnings: vec!["duplicate execution risk".to_string()],
    };
    let cloned = gate.clone();
    assert_eq!(gate, cloned);
}

#[test]
fn adopt_mode_variants_are_distinct() {
    assert_ne!(AdoptMode::Inspect, AdoptMode::Mirror);
    assert_ne!(AdoptMode::Mirror, AdoptMode::Chain);
    assert_ne!(AdoptMode::Inspect, AdoptMode::Chain);
}

#[test]
fn chain_support_copy_semantics() {
    let cs = ChainSupport::ManualOnly;
    let cs2 = cs;
    assert_eq!(cs, cs2);
}

#[test]
fn trigger_kind_as_str() {
    assert_eq!(TriggerKind::Commit.as_str(), "commit");
    assert_eq!(TriggerKind::Push.as_str(), "push");
}

#[test]
fn hook_stage_as_str() {
    assert_eq!(HookStage::PreCommit.as_str(), "pre-commit");
    assert_eq!(HookStage::PrePush.as_str(), "pre-push");
}

#[test]
fn contains_rejection_sentence() {
    let msg = chain_unsupported_message(&AdoptionPlan::default());
    assert!(msg.contains("chain mode is not supported in v1"));
    assert!(msg.contains("--mode mirror"));
}

#[test]
fn empty_plan_has_no_manual_section() {
    let msg = chain_unsupported_message(&AdoptionPlan::default());
    assert!(!msg.contains("Manual integration instructions:"));
}

#[test]
fn gates_without_instructions_skipped() {
    let plan = AdoptionPlan { findings: vec![gate_without_instructions()] };
    assert!(!chain_unsupported_message(&plan).contains("Manual integration instructions:"));
}

#[test]
fn gates_with_instructions_shown() {
    let plan = AdoptionPlan {
        findings: vec![gate_with_instructions("Append `klasp gate --agent codex --trigger commit \"$@\"` to .husky/pre-commit")],
    };
    let msg = chain_unsupported_message(&plan);
    assert!(msg.contains("Manual integration instructions:"));
    assert!(msg.contains("Append `klasp gate"));
}

#[test]
fn none_instructions_skipped_mixed() {
    let plan = AdoptionPlan {
        findings: vec![gate_without_instructions(), gate_with_instructions("Do X manually"), gate_without_instructions()],
    };
    let msg = chain_unsupported_message(&plan);
    assert!(msg.contains("Manual integration instructions:"));
    assert!(msg.contains("Do X manually"));
    assert_eq!(msg.matches("Manual integration instructions:").count(), 1);
    assert!(msg.ends_with("\nManual integration instructions:\n  Do X manually\n"));
}

#[test]
fn empty_plan_renders_no_gates_message() {
    let rendered = render_plan(&AdoptionPlan::default());
    assert!(rendered.contains("No existing gates detected"));
    assert!(!rendered.contains("Next:"));
}

#[test]
fn pre_commit_gate_renders_ok_label() {
    let rendered = render_plan(&AdoptionPlan { findings: vec![gate_without_instructions()] });
    assert!(rendered.contains("OK  pre-commit framework"));
    assert!(rendered.contains(".pre-commit-config.yaml"));
    assert!(rendered.contains("mirror: type = \"pre_commit\""));
}

#[test]
fn unsafe_chain_gate_renders_warn_label() {
    let rendered = render_plan(&AdoptionPlan { findings: vec![plain_hook_gate()] });
    assert!(rendered.contains("WARN  plain git hook (pre-push)"));
    assert!(rendered.contains("mirror: (no checks proposed; inspect only)"));
    assert!(rendered.contains("klasp will not overwrite this hook"));
}

#[test]
fn next_block_present_for_non_empty_plan() {
    let rendered = render_plan(&AdoptionPlan { findings: vec![gate_without_instructions()] });
    assert!(rendered.contains("Next:"));
    assert!(rendered.contains("klasp init --adopt --mode mirror"));
    assert!(rendered.contains("klasp install --agent all"));
    assert!(rendered.contains("klasp doctor"));
}

#[test]
fn shell_source_renders_command() {
    let gate = DetectedGate {
        gate_type: GateType::LintStaged,
        source_path: "package.json".to_string(),
        proposed_checks: vec![ProposedCheck {
            name: "lint-staged".to_string(),
            triggers: vec![TriggerKind::Commit],
            timeout_secs: 120,
            source: ProposedCheckSource::Shell { command: "pnpm exec lint-staged".to_string() },
        }],
        chain_support: ChainSupport::ManualOnly,
        manual_chain_instructions: None,
        warnings: vec![],
    };
    let plan = AdoptionPlan { findings: vec![gate] };
    let rendered = render_plan(&plan);
    assert!(rendered.contains("mirror: command = \"pnpm exec lint-staged\""));
}

#[test]
fn multiple_gates_all_appear() {
    let rendered = render_plan(&AdoptionPlan { findings: vec![gate_without_instructions(), plain_hook_gate()] });
    assert!(rendered.contains("pre-commit framework"));
    assert!(rendered.contains("plain git hook (pre-push)"));
    assert_eq!(rendered.matches("Next:").count(), 1);
}

#[test]
fn warning_on_gate_forces_warn_label() {
    let mut gate = gate_without_instructions();
    gate.warnings.push("duplicate execution risk".to_string());
    let rendered = render_plan(&AdoptionPlan { findings: vec![gate] });
    assert!(rendered.contains("WARN  pre-commit framework"));
    assert!(rendered.contains("duplicate execution risk"));
}

#[test]
fn rendered_gate_exact_text() {
    let rendered = render_plan(&AdoptionPlan { findings: vec![gate_without_instructions()] });
    assert_eq!(
        rendered,
        "Detected existing gates:\n\nOK  pre-commit framework\n    .pre-commit-config.yaml\n    mirror: type = \"pre_commit\"\n\nNext:\n  klasp init --adopt --mode mirror\n  klasp install --agent all\n  klasp doctor\n"
    );
}

#[test]
fn detect_all_orders_husky_lefthook_lint_staged() {
    let files = repo(
        &[".husky"],
        &[
            (".husky/pre-commit", "pnpm test\n"),
            ("lefthook.yml", "pre-commit:\n  commands:\n    lint:\n      run: pnpm lint\n"),
            ("package.json", PKG),
        ],
    );
    let plan = detect_all(&files);
    assert_eq!(plan.findings.len(), 3);
    assert!(matches!(plan.findings[0].gate_type, GateType::Husky { .. }));
    assert_eq!(plan.findings[1].gate_type, GateType::Lefthook);
    assert_eq!(plan.findings[2].gate_type, GateType::LintStaged);
}
