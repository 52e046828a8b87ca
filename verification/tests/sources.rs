use klasp::sources::plugin::{plugin_exit_error, plugin_timeout_secs};
use klasp::model::{
    CheckConfig, CheckSourceConfig, Finding, GitEvent, Severity, ShellOutcome, TriggerConfig,
    Verdict,
};
use klasp::sources::cargo::{
    self, build_command, collect_compiler_diagnostics, outcome_to_verdict, summarise_diagnostics,
    summarise_test_output, CargoSource, MAX_FINDINGS,
};
use klasp::sources::fallow::{self, FallowSource};
use klasp::sources::plugin::{
    convert_plugin_output, gate_verdict, plugin_gate_input, plugin_gate_input_json, PluginFinding,
    PluginGateOutput, PluginSource, PluginVerdict,
};
use klasp::sources::pre_commit::{self, parse_failed_hooks, PreCommitSource};
use klasp::sources::pytest::junit::{attr_value, collect_failures, summarise_failures};
use klasp::sources::pytest::{self, PytestSource};
use klasp::sources::recipe_util::{self, fail_with_optional_warning, finding, note, shell_quote};
use klasp::sources::shell::{exit_status_to_verdict, extract_verdict_path, ShellSource};
use klasp::sources::{CheckSourceError, SourceRegistry, SourceStep};
use klasp::json::{parse_json, JsonNumber, JsonValue};
use klasp::sources::plugin::describe_version;

fn outcome(code: Option<i32>, stdout: &str, stderr: &str) -> ShellOutcome {
    ShellOutcome { status_code: code, stdout: stdout.into(), stderr: stderr.into() }
}

fn config(name: &str, source: CheckSourceConfig) -> CheckConfig {
    CheckConfig { name: name.into(), triggers: vec![], source, timeout_secs: None }
}

fn shell_check() -> CheckConfig {
    config("shell", CheckSourceConfig::Shell { command: "true".into() })
}

fn cargo_check_config(subcommand: &str) -> CheckConfig {
    config(
        "build",
        CheckSourceConfig::Cargo { subcommand: subcommand.into(), extra_args: None, package: None },
    )
}

fn mk_finding(severity: Severity) -> Finding {
    Finding { rule: "r".into(), message: "m".into(), file: None, line: None, severity }
}

// ---------------------------------------------------------------------------
// recipe_util
// ---------------------------------------------------------------------------

#[test]
fn recipe_util_shell_quote_handles_embedded_single_quotes() {
    assert_eq!(shell_quote("a'b"), "'a'\\''b'");
}

#[test]
fn shell_quote_wraps_plain_value() {
    assert_eq!(shell_quote("origin/main"), "'origin/main'");
}

#[test]
fn note_uses_top_level_rule() {
    let f = note("cargo", "build", "boom", Severity::Error);
    assert_eq!(f.rule, "cargo:build");
    assert_eq!(f.severity, Severity::Error);
    assert!(f.file.is_none());
    assert!(f.line.is_none());
}

#[test]
fn finding_with_suffix_nests_rule() {
    let f = finding(
        "fallow",
        "audit",
        "complexity",
        "too complex",
        Some("src/x.ts".into()),
        Some(7),
        Severity::Warn,
    );
    assert_eq!(f.rule, "fallow:audit:complexity");
    assert_eq!(f.file.as_deref(), Some("src/x.ts"));
    assert_eq!(f.line, Some(7));
}

#[test]
fn finding_empty_suffix_matches_note() {
    let a = finding("pytest", "tests", "", "msg", None, None, Severity::Error);
    let b = note("pytest", "tests", "msg", Severity::Error);
    assert_eq!(a.rule, b.rule);
    assert_eq!(a.message, b.message);
}

#[test]
fn fail_with_optional_warning_prepends_warn_row() {
    let v = fail_with_optional_warning("cargo", "build", "boom".into(), Some("old cargo"));
    match v {
        Verdict::Fail { findings, message } => {
            assert_eq!(findings.len(), 2);
            assert_eq!(findings[0].severity, Severity::Warn);
            assert!(findings[0].message.contains("old cargo"));
            assert_eq!(findings[1].severity, Severity::Error);
            assert_eq!(message, "boom");
        }
        other => panic!("expected Fail, got {other:?}"),
    }
}

#[test]
fn fail_with_optional_warning_omits_warn_when_none() {
    let v = fail_with_optional_warning("pre_commit", "lint", "detail".into(), None);
    match v {
        Verdict::Fail { findings, .. } => {
            assert_eq!(findings.len(), 1);
            assert_eq!(findings[0].rule, "pre_commit:lint");
        }
        other => panic!("expected Fail, got {other:?}"),
    }
}

#[test]
fn recipe_util_parse_version_extracts_major_minor() {
    assert_eq!(recipe_util::parse_version("pre-commit 3.8.0"), Some((3, 8)));
    assert_eq!(recipe_util::parse_version("fallow 2.62.0\n"), Some((2, 62)));
    assert_eq!(
        recipe_util::parse_version("cargo 1.79.0 (ded6ed5ec 2024-04-19)"),
        Some((1, 79))
    );
    assert_eq!(recipe_util::parse_version("pytest 8.3.2\n"), Some((8, 3)));
    assert_eq!(
        recipe_util::parse_version("This is pytest version 8.0.1, imported from …"),
        Some((8, 0))
    );
    assert_eq!(recipe_util::parse_version(""), None);
    assert_eq!(recipe_util::parse_version("not a version"), None);
}

#[test]
fn version_warning_names_tool_and_minimum() {
    let w = recipe_util::version_warning("pytest", (7, 0), "pytest 6.2.5");
    assert_eq!(
        w.as_deref(),
        Some("pytest 6.2 is older than the minimum tested version 7.0; output parsing may be incomplete")
    );
    assert_eq!(recipe_util::version_warning("pytest", (7, 0), "pytest 8.1.0"), None);
    assert_eq!(recipe_util::version_warning("pytest", (7, 0), "garbage"), None);
}

// ---------------------------------------------------------------------------
// cargo
// ---------------------------------------------------------------------------

#[test]
fn supports_config_only_for_cargo() {
    let source = CargoSource::new();
    assert!(source.supports_config(&cargo_check_config("check")));
    assert!(!source.supports_config(&shell_check()));
}

#[test]
fn build_command_workspace_default() {
    let cmd = build_command("check", None, None);
    assert_eq!(cmd, "cargo check --workspace --message-format=json");
}

#[test]
fn build_command_with_package_skips_workspace() {
    let cmd = build_command("clippy", Some("klasp-core"), None);
    assert_eq!(cmd, "cargo clippy -p 'klasp-core' --message-format=json");
}

#[test]
fn build_command_test_skips_message_format() {
    let cmd = build_command("test", None, None);
    assert_eq!(cmd, "cargo test --workspace");
}

#[test]
fn build_command_appends_extra_args_last() {
    let cmd = build_command("clippy", None, Some("-- -D warnings"));
    assert_eq!(cmd, "cargo clippy --workspace --message-format=json -- -D warnings");
}

#[test]
fn cargo_build_command_drops_blank_extra_args() {
    let cmd = build_command("check", None, Some("   "));
    assert_eq!(cmd, "cargo check --workspace --message-format=json");
}

#[test]
fn cargo_build_command_keeps_user_message_format() {
    let cmd = build_command("check", None, Some("--message-format=short"));
    assert_eq!(cmd, "cargo check --workspace --message-format=short");
}

#[test]
fn cargo_shell_quote_handles_embedded_single_quotes() {
    assert_eq!(cargo::shell_quote("a'b"), "'a'\\''b'");
}

#[test]
fn unknown_subcommand_fails_without_running_cargo() {
    let cfg = cargo_check_config("uninstall");
    let step = CargoSource::new()
        .start(&cfg, None)
        .expect("start must succeed");
    match step {
        SourceStep::Done(result) => match result.verdict {
            Verdict::Fail { message, .. } => {
                assert!(message.contains("uninstall"));
                assert!(message.contains("expected one of"));
            }
            other => panic!("expected Fail, got {other:?}"),
        },
        other => panic!("expected Done, got {other:?}"),
    }
}

#[test]
fn cargo_start_spawns_command_with_default_timeout() {
    let step = CargoSource::new().start(&cargo_check_config("check"), None).unwrap();
    assert_eq!(
        step,
        SourceStep::Spawn {
            command: "cargo check --workspace --message-format=json".into(),
            timeout_secs: 120,
        }
    );
}

#[test]
fn cargo_start_rejects_other_check_types() {
    match CargoSource::new().start(&shell_check(), None) {
        Err(CheckSourceError::Other(m)) => assert_eq!(m, "CargoSource cannot run a `shell` check"),
        other => panic!("expected error, got {other:?}"),
    }
}

#[test]
fn empty_stdout_yields_no_findings() {
    assert!(collect_compiler_diagnostics("build", "").is_empty());
}

#[test]
fn non_compiler_message_lines_skipped() {
    let stdout = &[
        r#"{"reason":"compiler-artifact","package_id":"foo","target":{}}"#,
        "\n",
        r#"{"reason":"build-finished","success":true}"#,
        "\n"
    ].concat();
    assert!(collect_compiler_diagnostics("build", stdout).is_empty());
}

#[test]
fn compiler_message_with_error_yields_finding() {
    let stdout = &[
        r#"{"reason":"compiler-message","message":{"message":"cannot find value `x`","code":{"code":"E0425"},"level":"error","spans":[{"file_name":"src/lib.rs","line_start":7,"is_primary":true}]}}"#,
        "\n"
    ].concat();
    let findings = collect_compiler_diagnostics("build", stdout);
    assert_eq!(findings.len(), 1);
    assert_eq!(findings[0].severity, Severity::Error);
    assert!(findings[0].message.contains("E0425"));
    assert_eq!(findings[0].file.as_deref(), Some("src/lib.rs"));
    assert_eq!(findings[0].line, Some(7));
    assert!(findings[0].rule.contains("E0425"));
    assert_eq!(findings[0].rule, "cargo:build:E0425");
    assert_eq!(findings[0].message, "error[E0425]: cannot find value `x`");
}

#[test]
fn compiler_message_with_warning_uses_warn_severity() {
    let stdout = &[
        r#"{"reason":"compiler-message","message":{"message":"unused variable","level":"warning","spans":[{"file_name":"a.rs","line_start":1,"is_primary":true}]}}"#,
        "\n"
    ].concat();
    let findings = collect_compiler_diagnostics("build", stdout);
    assert_eq!(findings.len(), 1);
    assert_eq!(findings[0].severity, Severity::Warn);
    assert_eq!(findings[0].rule, "cargo:build:warning");
    assert_eq!(findings[0].message, "warning: unused variable");
}

#[test]
fn compiler_message_help_and_note_levels_are_skipped() {
    let stdout = &[
        r#"{"reason":"compiler-message","message":{"message":"consider borrowing","level":"help","spans":[]}}"#,
        "\n",
        r#"{"reason":"compiler-message","message":{"message":"defined here","level":"note","spans":[]}}"#,
        "\n",
        r#"{"reason":"compiler-message","message":{"message":"boom","level":"error","spans":[]}}"#,
        "\n",
    ].concat();
    let findings = collect_compiler_diagnostics("build", stdout);
    assert_eq!(findings.len(), 1);
    assert_eq!(findings[0].severity, Severity::Error);
    assert_eq!(findings[0].message, "error: boom");
}

#[test]
fn compiler_message_skipped_when_no_level() {
    let stdout = r#"{"reason":"compiler-message","message":{"message":"odd","spans":[]}}"#;
    assert!(collect_compiler_diagnostics("build", stdout).is_empty());
}

#[test]
fn malformed_json_lines_silently_skipped() {
    let stdout = &[
        "garbage\n",
        r#"{"reason":"compiler-message","message":{"message":"a","level":"error","spans":[]}}"#,
        "\n",
        "more garbage\n",
    ].concat();
    let findings = collect_compiler_diagnostics("build", stdout);
    assert_eq!(findings.len(), 1);
}

#[test]
fn first_span_used_when_no_primary_marker() {
    let stdout = &[
        r#"{"reason":"compiler-message","message":{"message":"x","level":"error","spans":[{"file_name":"a.rs","line_start":2,"is_primary":false},{"file_name":"b.rs","line_start":9,"is_primary":false}]}}"#,
        "\n"
    ].concat();
    let findings = collect_compiler_diagnostics("b", stdout);
    assert_eq!(findings[0].file.as_deref(), Some("a.rs"));
    assert_eq!(findings[0].line, Some(2));
}

#[test]
fn primary_span_preferred_over_first() {
    let stdout = r#"{"reason":"compiler-message","message":{"message":"x","level":"error","spans":[{"file_name":"a.rs","line_start":2,"is_primary":false},{"file_name":"b.rs","line_start":9,"is_primary":true}]}}"#;
    let findings = collect_compiler_diagnostics("b", stdout);
    assert_eq!(findings[0].file.as_deref(), Some("b.rs"));
    assert_eq!(findings[0].line, Some(9));
}

#[test]
fn cap_limits_diagnostic_count() {
    let mut stdout = String::new();
    for _ in 0..70 {
        stdout.push_str(
            r#"{"reason":"compiler-message","message":{"message":"x","level":"error","spans":[]}}"#,
        );
        stdout.push('\n');
    }
    let findings = collect_compiler_diagnostics("b", &stdout);
    assert_eq!(findings.len(), MAX_FINDINGS);
}

#[test]
fn summarise_diagnostics_pluralisation() {
    let one_err = vec![mk_finding(Severity::Error)];
    assert_eq!(summarise_diagnostics("clippy", &one_err), "cargo clippy reported 1 error");
    let many = vec![mk_finding(Severity::Error), mk_finding(Severity::Error), mk_finding(Severity::Warn)];
    let s = summarise_diagnostics("clippy", &many);
    assert!(s.contains("2 errors"));
    assert!(s.contains("1 warning"));
    assert_eq!(s, "cargo clippy reported 2 errors, 1 warning");
    let notes = vec![mk_finding(Severity::Info), mk_finding(Severity::Info)];
    assert_eq!(summarise_diagnostics("check", &notes), "cargo check reported 2 info notes");
    let warns = vec![mk_finding(Severity::Warn)];
    assert_eq!(summarise_diagnostics("check", &warns), "cargo check reported 1 warning");
}

#[test]
fn summarise_test_output_extracts_failed_count() {
    let stdout = &[
        "running 5 tests\n",
        "test foo ... ok\n",
        "test bar ... FAILED\n",
        "test result: FAILED. 4 passed; 1 failed; 0 ignored; 0 measured; 0 filtered out; finished in 0.04s\n",
    ].concat();
    let summary = summarise_test_output(stdout).expect("summary line should parse");
    assert!(summary.contains("4 passed"));
    assert!(summary.contains("1 failed"));
    assert_eq!(summary, "cargo test failed (4 passed, 1 failed)");
}

#[test]
fn summarise_test_output_returns_none_when_summary_missing() {
    assert!(summarise_test_output("running 5 tests\nthread 'main' panicked").is_none());
}

#[test]
fn summarise_test_output_reports_ignored_when_passing() {
    let stdout = "test result: ok. 3 passed; 0 failed; 2 ignored\n";
    assert_eq!(summarise_test_output(stdout).as_deref(), Some("cargo test passed (3 passed, 2 ignored)"));
    let plain = "  test result: ok. 3 passed; 0 failed; 0 ignored  \n";
    assert_eq!(summarise_test_output(plain).as_deref(), Some("test result: ok. 3 passed; 0 failed; 0 ignored"));
}

#[test]
fn verdict_pass_with_version_warning_is_warn() {
    let v = outcome_to_verdict("build", "check", &outcome(Some(0), "", ""), Some("old"));
    assert!(matches!(v, Verdict::Warn { .. }));
    let v = pytest::outcome_to_verdict("tests", &outcome(Some(0), "", ""), None, Some("too old"));
    assert!(matches!(v, Verdict::Warn { .. }));
}

#[test]
fn check_failure_with_diagnostic_yields_finding() {
    let stdout = &[
        r#"{"reason":"compiler-message","message":{"message":"cannot find value `x`","code":{"code":"E0425"},"level":"error","spans":[{"file_name":"src/lib.rs","line_start":3,"is_primary":true}]}}"#,
        "\n",
    ].concat();
    let v = outcome_to_verdict("build", "check", &outcome(Some(101), stdout, ""), None);
    match v {
        Verdict::Fail { findings, message } => {
            assert!(findings.iter().any(|f| f.message.contains("E0425")));
            assert!(message.contains("cargo check"));
        }
        other => panic!("expected Fail, got {other:?}"),
    }
}

#[test]
fn check_failure_without_parseable_stdout_falls_back_to_generic() {
    let v = outcome_to_verdict("build", "check", &outcome(Some(101), "", "boom"), None);
    match v {
        Verdict::Fail { findings, message } => {
            assert_eq!(findings.len(), 1);
            assert!(findings[0].message.contains("boom"));
            assert!(message.contains("exit 101"));
            assert_eq!(message, "cargo check `build` failed (exit 101): boom");
        }
        other => panic!("expected Fail, got {other:?}"),
    }
}

#[test]
fn test_failure_uses_summary_line() {
    let stdout = &["running 5 tests\n", "test result: FAILED. 4 passed; 1 failed; 0 ignored\n"].concat();
    let v = outcome_to_verdict("tests", "test", &outcome(Some(101), stdout, ""), None);
    match v {
        Verdict::Fail { message, .. } => assert!(message.contains("1 failed")),
        other => panic!("expected Fail, got {other:?}"),
    }
}

#[test]
fn verdict_fail_with_version_warning_prepends_warn_finding() {
    let v = outcome_to_verdict("build", "check", &outcome(Some(101), "", "boom"), Some("old cargo"));
    match v {
        Verdict::Fail { findings, .. } => {
            assert!(findings.len() >= 2);
            assert_eq!(findings[0].severity, Severity::Warn);
        }
        other => panic!("expected Fail, got {other:?}"),
    }
    let v = pytest::outcome_to_verdict("tests", &outcome(Some(1), "", "boom"), None, Some("old pytest"));
    match v {
        Verdict::Fail { findings, .. } => {
            assert!(findings.len() >= 2);
            assert_eq!(findings[0].severity, Severity::Warn);
        }
        other => panic!("expected Fail, got {other:?}"),
    }
}

#[test]
fn verdict_no_exit_code_is_fail() {
    let v = outcome_to_verdict("build", "check", &outcome(None, "", ""), None);
    assert!(matches!(v, Verdict::Fail { .. }));
    let v = pytest::outcome_to_verdict("tests", &outcome(None, "", ""), None, None);
    assert!(matches!(v, Verdict::Fail { .. }));
}

#[test]
fn verdict_parse_version_extracts_major_minor() {
    assert_eq!(cargo::parse_version("cargo 1.79.0 (ded6ed5ec 2024-04-19)"), Some((1, 79)));
    assert_eq!(cargo::parse_version("cargo 1.95.0\n"), Some((1, 95)));
    assert_eq!(cargo::parse_version(""), None);
    assert_eq!(cargo::parse_version("not a version"), None);
    assert_eq!(recipe_util::parse_version("pytest 7.4.0"), Some((7, 4)));
    assert_eq!(recipe_util::parse_version("pytest 8.3.2\n"), Some((8, 3)));
    assert_eq!(
        recipe_util::parse_version("This is pytest version 8.0.1, imported from …"),
        Some((8, 0))
    );
    assert_eq!(recipe_util::parse_version(""), None);
    assert_eq!(recipe_util::parse_version("not a version"), None);
}

#[test]
fn cargo_parse_version_reads_first_nonblank_line_only() {
    assert_eq!(cargo::parse_version("\n  \ncargo x\ncargo 1.80.0"), None);
    assert_eq!(recipe_util::parse_version("\n  \ncargo x\ncargo 1.80.0"), Some((1, 80)));
}

// ---------------------------------------------------------------------------
// fallow
// ---------------------------------------------------------------------------

#[test]
fn supports_config_only_for_fallow() {
    let source = FallowSource::new();
    assert!(source.supports_config(&config("audit", CheckSourceConfig::Fallow { config_path: None, base: None })));
    assert!(!source.supports_config(&shell_check()));
}

#[test]
fn build_command_commit_trigger_omits_base() {
    let cmd = fallow::build_command(GitEvent::Commit, None, None);
    assert_eq!(cmd, "fallow audit --format json --quiet");
    assert!(!cmd.contains("--base"));
}

#[test]
fn build_command_push_trigger_uses_klasp_base_ref_by_default() {
    let cmd = fallow::build_command(GitEvent::Push, None, None);
    assert_eq!(cmd, "fallow audit --format json --quiet --base ${KLASP_BASE_REF}");
}

#[test]
fn build_command_push_trigger_uses_explicit_base_when_set() {
    let cmd = fallow::build_command(GitEvent::Push, Some("origin/main"), None);
    assert!(cmd.contains("--base 'origin/main'"));
}

#[test]
fn fallow_build_command_push_trigger_passes_config_path() {
    let cmd = fallow::build_command(GitEvent::Push, None, Some("tools/.fallowrc.json"));
    assert!(cmd.ends_with("-c 'tools/.fallowrc.json'"));
}

#[test]
fn fallow_build_command_commit_trigger_passes_config_path() {
    let cmd = fallow::build_command(GitEvent::Commit, None, Some("tools/.fallowrc.json"));
    assert_eq!(cmd, "fallow audit --format json --quiet -c 'tools/.fallowrc.json'");
}

#[test]
fn fallow_shell_quote_handles_embedded_single_quotes() {
    assert_eq!(shell_quote("a'b"), "'a'\\''b'");
}

#[test]
fn pass_verdict_with_version_warning_is_warn() {
    let json = r#"{"verdict":"pass","summary":{}}"#;
    let v = fallow::outcome_to_verdict("audit", &outcome(Some(0), json, ""), Some("too new"));
    match v {
        Verdict::Warn { findings, message } => {
            assert_eq!(findings.len(), 1);
            assert_eq!(findings[0].severity, Severity::Warn);
            assert_eq!(message.as_deref(), Some("too new"));
        }
        other => panic!("expected Warn, got {other:?}"),
    }
}

#[test]
fn fail_verdict_demotes_to_generic_finding_when_no_severity_rows() {
    let json = r#"{"verdict":"fail","summary":{}}"#;
    let v = fallow::outcome_to_verdict("audit", &outcome(Some(1), json, ""), None);
    match v {
        Verdict::Fail { findings, message } => {
            assert!(!findings.is_empty());
            assert!(findings.iter().any(|f| f.severity == Severity::Error));
            assert_eq!(message, "fallow `audit` reported a fail verdict");
        }
        other => panic!("expected Fail, got {other:?}"),
    }
}

#[test]
fn unparseable_stdout_is_fail_with_generic_finding() {
    let v = fallow::outcome_to_verdict("audit", &outcome(Some(1), "not json", "boom"), None);
    match v {
        Verdict::Fail { findings, message } => {
            assert_eq!(findings.len(), 1);
            assert!(message.contains("unparseable"));
            assert!(findings[0].message.contains("boom"));
            assert_eq!(message, "fallow `audit` produced unparseable JSON (exit 1): boom");
        }
        other => panic!("expected Fail, got {other:?}"),
    }
}

#[test]
fn fallow_fail_with_version_warning_prepends_warn_finding() {
    let json = r#"{
        "verdict": "fail",
        "summary": {"dead_code_issues": 1, "complexity_findings": 0, "duplication_clone_groups": 0},
        "dead_code": {"unused_exports": [{"path": "src/a.ts", "line": 3, "export_name": "foo"}]}
    }"#;
    let v = fallow::outcome_to_verdict("audit", &outcome(Some(1), json, ""), Some("old fallow"));
    match v {
        Verdict::Fail { findings, message } => {
            assert!(findings.len() >= 2);
            assert_eq!(findings[0].severity, Severity::Warn);
            assert!(findings[0].message.contains("old fallow"));
            assert_eq!(findings[1].message, "unused exports: `foo`");
            assert_eq!(findings[1].rule, "fallow:audit:unused_exports");
            assert_eq!(findings[1].file.as_deref(), Some("src/a.ts"));
            assert_eq!(findings[1].line, Some(3));
            assert_eq!(message, "fallow audit failed (1 dead-code, 0 complexity, 0 duplication)");
        }
        other => panic!("expected Fail, got {other:?}"),
    }
}

#[test]
fn unknown_verdict_falls_through_to_fail() {
    let json = r#"{"verdict":"unknown","summary":{}}"#;
    let v = fallow::outcome_to_verdict("audit", &outcome(Some(1), json, ""), None);
    match v {
        Verdict::Fail { message, .. } => assert!(message.contains("unexpected verdict")),
        other => panic!("expected Fail, got {other:?}"),
    }
}

#[test]
fn fallow_warn_verdict_demotes_errors_and_reads_every_section() {
    let json = r#"{
        "verdict": "warn",
        "summary": {"dead_code_issues": 1, "complexity_findings": 1, "duplication_clone_groups": 1},
        "complexity": {"findings": [{"name": "big", "path": "a.ts", "line": 4, "cyclomatic": 30, "cognitive": 25, "severity": "high"}]},
        "dead_code": {"unused_files": [{"path": "old.ts"}]},
        "duplication": {"clone_groups": [{"lines": 12, "sites": [{"path": "x.ts", "start_line": 7}, {"path": "y.ts", "start_line": 9}]}]}
    }"#;
    let v = fallow::outcome_to_verdict("audit", &outcome(Some(0), json, ""), None);
    match v {
        Verdict::Warn { findings, message } => {
            assert_eq!(findings.len(), 3);
            assert!(findings.iter().all(|f| f.severity != Severity::Error));
            assert_eq!(findings[0].message, "complexity: function `big` (cyclomatic=30, cognitive=25)");
            assert_eq!(findings[1].message, "unused files: old.ts");
            assert_eq!(findings[2].message, "duplication: 2 clones across 12 lines");
            assert_eq!(findings[2].file.as_deref(), Some("x.ts"));
            assert_eq!(message.as_deref(), Some("fallow audit warned (1 dead-code, 1 complexity, 1 duplication)"));
        }
        other => panic!("expected Warn, got {other:?}"),
    }
}

#[test]
fn fallow_parse_version_extracts_major_minor() {
    assert_eq!(recipe_util::parse_version("fallow 2.62.0"), Some((2, 62)));
    assert_eq!(recipe_util::parse_version("fallow 3.0.1\n"), Some((3, 0)));
    assert_eq!(recipe_util::parse_version(""), None);
    assert_eq!(recipe_util::parse_version("not a version"), None);
}

// ---------------------------------------------------------------------------
// registry and plugins
// ---------------------------------------------------------------------------

fn source_id_for(check: &CheckConfig) -> String {
    SourceRegistry::default_v1().find_for(check).expect("every check has a source").source_id().to_string()
}

#[test]
fn registry_dispatches_shell_check_to_shell_source() {
    assert_eq!(source_id_for(&shell_check()), "shell");
}

#[test]
fn registry_dispatches_pre_commit_check_to_pre_commit_source() {
    let c = config("lint", CheckSourceConfig::PreCommit { hook_stage: None, config_path: None });
    assert_eq!(source_id_for(&c), "pre_commit");
}

#[test]
fn registry_dispatches_fallow_check_to_fallow_source() {
    let c = config("audit", CheckSourceConfig::Fallow { config_path: None, base: None });
    assert_eq!(source_id_for(&c), "fallow");
}

#[test]
fn registry_dispatches_pytest_check_to_pytest_source() {
    let c = config("tests", CheckSourceConfig::Pytest { extra_args: None, config_path: None, junit_xml: None });
    assert_eq!(source_id_for(&c), "pytest");
}

#[test]
fn registry_dispatches_cargo_check_to_cargo_source() {
    assert_eq!(source_id_for(&cargo_check_config("check")), "cargo");
}

#[test]
fn registry_dispatches_plugin_check_to_plugin_source() {
    let c = config("my-check", CheckSourceConfig::Plugin { name: "my-linter".into(), args: vec![], settings: None });
    assert_eq!(source_id_for(&c), "plugin:my-linter");
}

#[test]
fn registry_returns_none_for_unknown_non_plugin_config() {
    assert!(SourceRegistry::default_v1().find_for(&shell_check()).is_some());
}

fn plugin_check(name: &str) -> CheckConfig {
    config(&format!("plugin-check-{name}"), CheckSourceConfig::Plugin { name: name.to_string(), args: vec![], settings: None })
}

#[test]
fn plugin_source_supports_matching_plugin_config() {
    assert!(PluginSource::new("my-linter").supports_config(&plugin_check("my-linter")));
}

#[test]
fn plugin_source_does_not_support_other_plugin_name() {
    assert!(!PluginSource::new("my-linter").supports_config(&plugin_check("other-plugin")));
}

#[test]
fn plugin_source_does_not_support_shell_config() {
    assert!(!PluginSource::new("my-linter").supports_config(&shell_check()));
}

#[test]
fn source_id_has_plugin_prefix() {
    let source = PluginSource::new("my-linter");
    assert_eq!(source.source_id(), "plugin:my-linter");
    assert_eq!(source.binary_name(), "klasp-plugin-my-linter");
}

#[test]
fn convert_plugin_output_pass() {
    let output = PluginGateOutput { protocol_version: 0, verdict: PluginVerdict::Pass, findings: vec![] };
    assert!(matches!(convert_plugin_output(output), Verdict::Pass));
}

#[test]
fn convert_plugin_output_fail_builds_message() {
    let output = PluginGateOutput {
        protocol_version: 0,
        verdict: PluginVerdict::Fail,
        findings: vec![
            PluginFinding { severity: Severity::Error, rule: "test/rule".into(), file: None, line: None, message: "something broke".into() },
            PluginFinding { severity: Severity::Warn, rule: "test/other".into(), file: Some("a.rs".into()), line: Some(2), message: "and this".into() },
        ],
    };
    match convert_plugin_output(output) {
        Verdict::Fail { message, findings } => {
            assert!(message.contains("something broke"));
            assert_eq!(message, "something broke\nand this");
            assert_eq!(findings.len(), 2);
            assert_eq!(findings[1].file.as_deref(), Some("a.rs"));
        }
        other => panic!("expected Fail, got {other:?}"),
    }
    let empty = PluginGateOutput { protocol_version: 0, verdict: PluginVerdict::Fail, findings: vec![] };
    match convert_plugin_output(empty) {
        Verdict::Fail { message, .. } => assert_eq!(message, "plugin check failed"),
        other => panic!("expected Fail, got {other:?}"),
    }
}

#[test]
fn plugin_protocol_mismatch_warns_instead_of_blocking() {
    let output = PluginGateOutput { protocol_version: 9, verdict: PluginVerdict::Fail, findings: vec![] };
    match gate_verdict("lint", output) {
        Verdict::Warn { findings, message } => {
            assert_eq!(findings.len(), 1);
            assert_eq!(findings[0].rule, "plugin:lint");
            assert!(message.unwrap().contains("protocol_version=9"));
        }
        other => panic!("expected Warn, got {other:?}"),
    }
}

// ---------------------------------------------------------------------------
// pre-commit
// ---------------------------------------------------------------------------

#[test]
fn supports_config_only_for_pre_commit() {
    let source = PreCommitSource::new();
    assert!(source.supports_config(&config("lint", CheckSourceConfig::PreCommit { hook_stage: None, config_path: None })));
    assert!(!source.supports_config(&shell_check()));
}

#[test]
fn build_command_commit_trigger_omits_ref_range() {
    let cmd = pre_commit::build_command(GitEvent::Commit, "pre-commit", None);
    assert_eq!(cmd, "pre-commit run --hook-stage 'pre-commit'");
    assert!(!cmd.contains("--from-ref"));
    assert!(!cmd.contains("--to-ref"));
}

#[test]
fn build_command_push_trigger_includes_ref_range() {
    let cmd = pre_commit::build_command(GitEvent::Push, "pre-commit", None);
    assert_eq!(cmd, "pre-commit run --hook-stage 'pre-commit' --from-ref ${KLASP_BASE_REF} --to-ref HEAD");
}

#[test]
fn pre_commit_build_command_push_trigger_passes_config_path() {
    let cmd = pre_commit::build_command(GitEvent::Push, "pre-push", Some("tools/p.yaml"));
    assert_eq!(
        cmd,
        "pre-commit run --hook-stage 'pre-push' --from-ref ${KLASP_BASE_REF} --to-ref HEAD -c 'tools/p.yaml'"
    );
}

#[test]
fn pre_commit_build_command_commit_trigger_passes_config_path() {
    let cmd = pre_commit::build_command(GitEvent::Commit, "pre-commit", Some("tools/p.yaml"));
    assert_eq!(cmd, "pre-commit run --hook-stage 'pre-commit' -c 'tools/p.yaml'");
}

#[test]
fn pre_commit_shell_quote_handles_embedded_single_quotes() {
    assert_eq!(shell_quote("a'b"), "'a'\\''b'");
}

#[test]
fn outcome_zero_with_version_warning_is_warn() {
    let v = pre_commit::outcome_to_verdict("lint", &outcome(Some(0), "", ""), Some("too new"));
    match v {
        Verdict::Warn { findings, message } => {
            assert_eq!(findings.len(), 1);
            assert_eq!(findings[0].severity, Severity::Warn);
            assert_eq!(message.as_deref(), Some("too new"));
        }
        other => panic!("expected Warn, got {other:?}"),
    }
}

#[test]
fn outcome_one_with_failed_hooks_yields_findings() {
    let stdout = &[
        "trim trailing whitespace.................................................Passed\n",
        "ruff.....................................................................Failed\n",
        "mypy.....................................................................Failed\n",
    ].concat();
    let v = pre_commit::outcome_to_verdict("lint", &outcome(Some(1), stdout, ""), None);
    match v {
        Verdict::Fail { findings, message } => {
            assert_eq!(findings.len(), 2);
            assert!(findings[0].message.contains("ruff"));
            assert!(findings[1].message.contains("mypy"));
            assert!(message.contains("2 hooks"));
            assert_eq!(findings[0].rule, "pre_commit:lint");
            assert_eq!(findings[0].message, "hook `ruff` failed");
        }
        other => panic!("expected Fail, got {other:?}"),
    }
}

#[test]
fn outcome_one_without_parseable_stdout_falls_back_to_generic_finding() {
    let v = pre_commit::outcome_to_verdict("lint", &outcome(Some(1), "", "boom"), None);
    match v {
        Verdict::Fail { findings, message } => {
            assert_eq!(findings.len(), 1);
            assert!(findings[0].message.contains("boom"));
            assert!(message.contains("1 hook"));
            assert_eq!(message, "pre-commit failed (1 hook)");
        }
        other => panic!("expected Fail, got {other:?}"),
    }
}

#[test]
fn outcome_unexpected_exit_code_carries_status_in_message() {
    let v = pre_commit::outcome_to_verdict("lint", &outcome(Some(130), "", "Interrupted"), None);
    match v {
        Verdict::Fail { message, .. } => {
            assert!(message.contains("130"));
            assert!(message.contains("Interrupted"));
        }
        other => panic!("expected Fail, got {other:?}"),
    }
}

#[test]
fn outcome_no_exit_code_is_fail() {
    let v = pre_commit::outcome_to_verdict("lint", &outcome(None, "", ""), None);
    assert!(matches!(v, Verdict::Fail { .. }));
}

#[test]
fn pre_commit_parse_version_extracts_major_minor() {
    assert_eq!(recipe_util::parse_version("pre-commit 3.8.0"), Some((3, 8)));
    assert_eq!(recipe_util::parse_version("pre-commit 4.0.1\n"), Some((4, 0)));
    assert_eq!(recipe_util::parse_version(""), None);
    assert_eq!(recipe_util::parse_version("not a version"), None);
}

#[test]
fn parse_failed_hooks_handles_passed_and_skipped() {
    let stdout = &[
        "ruff.....................................................................Passed\n",
        "mypy.....................................................................Skipped\n",
        "black....................................................................Failed\n",
    ].concat();
    let findings = parse_failed_hooks("lint", stdout);
    assert_eq!(findings.len(), 1);
    assert!(findings[0].message.contains("black"));
}

#[test]
fn pre_commit_config_round_trips_path_buf() {
    let c = config(
        "lint",
        CheckSourceConfig::PreCommit { hook_stage: Some("pre-push".into()), config_path: Some("tools/p.yaml".into()) },
    );
    match &c.source {
        CheckSourceConfig::PreCommit { hook_stage, config_path } => {
            assert_eq!(hook_stage.as_deref(), Some("pre-push"));
            assert_eq!(config_path.as_deref(), Some("tools/p.yaml"));
        }
        other => panic!("expected PreCommit, got {other:?}"),
    }
    let step = PreCommitSource::new().start(&c, GitEvent::Push).unwrap();
    match step {
        SourceStep::Spawn { command, .. } => assert_eq!(
            command,
            "pre-commit run --hook-stage 'pre-push' --from-ref ${KLASP_BASE_REF} --to-ref HEAD -c 'tools/p.yaml'"
        ),
        other => panic!("expected Spawn, got {other:?}"),
    }
}

// ---------------------------------------------------------------------------
// pytest
// ---------------------------------------------------------------------------

#[test]
fn supports_config_only_for_pytest() {
    let source = PytestSource::new();
    assert!(source.supports_config(&config("tests", CheckSourceConfig::Pytest { extra_args: None, config_path: None, junit_xml: None })));
    assert!(!source.supports_config(&shell_check()));
}

#[test]
fn build_command_minimal() {
    assert_eq!(pytest::build_command(None, None, None), "pytest");
}

#[test]
fn build_command_with_config_path_and_junit() {
    let cmd = pytest::build_command(None, Some("pytest.ini"), Some(".klasp-pytest-junit.xml"));
    assert!(cmd.starts_with("pytest -c 'pytest.ini'"));
    assert!(cmd.contains("--junitxml='.klasp-pytest-junit.xml'"));
}

#[test]
fn build_command_with_extra_args_appended_last() {
    let cmd = pytest::build_command(Some("-x -q tests/"), None, None);
    assert_eq!(cmd, "pytest -x -q tests/");
}

#[test]
fn pytest_build_command_drops_blank_extra_args() {
    assert_eq!(pytest::build_command(Some("   "), None, None), "pytest");
}

#[test]
fn pytest_shell_quote_handles_embedded_single_quotes() {
    assert_eq!(shell_quote("a'b"), "'a'\\''b'");
}

#[test]
fn pytest_start_uses_report_path_only_when_asked() {
    let with = config("tests", CheckSourceConfig::Pytest { extra_args: None, config_path: None, junit_xml: Some(true) });
    let without = config("tests", CheckSourceConfig::Pytest { extra_args: None, config_path: None, junit_xml: None });
    let s = PytestSource::new();
    assert!(s.wants_junit(&with));
    assert!(!s.wants_junit(&without));
    assert_eq!(
        s.start(&with, "/repo/.klasp-pytest-junit.xml").unwrap(),
        SourceStep::Spawn { command: "pytest --junitxml='/repo/.klasp-pytest-junit.xml'".into(), timeout_secs: 120 }
    );
    assert_eq!(
        s.start(&without, "/repo/.klasp-pytest-junit.xml").unwrap(),
        SourceStep::Spawn { command: "pytest".into(), timeout_secs: 120 }
    );
}

#[test]
fn no_testcases_yields_empty() {
    let xml = r#"<?xml version="1.0"?><testsuites/>"#;
    assert!(collect_failures("t", xml).is_empty());
}

#[test]
fn passing_testcases_only_yields_empty() {
    let xml = r#"<testsuites><testsuite name="pytest" tests="2">
        <testcase classname="x" name="t1" file="t.py" line="1"/>
        <testcase classname="x" name="t2" file="t.py" line="2"/>
    </testsuite></testsuites>"#;
    assert!(collect_failures("tests", xml).is_empty());
}

#[test]
fn one_failure_yields_one_finding() {
    let xml = r#"<testsuites><testsuite>
        <testcase classname="t.x" name="test_a" file="tests/x.py" line="7">
            <failure message="assert 1 == 2">stacktrace</failure>
        </testcase>
    </testsuite></testsuites>"#;
    let findings = collect_failures("tests", xml);
    assert_eq!(findings.len(), 1);
    assert!(findings[0].message.contains("test_a"));
    assert!(findings[0].message.contains("assert 1 == 2"));
    assert_eq!(findings[0].file.as_deref(), Some("tests/x.py"));
    assert_eq!(findings[0].line, Some(7));
    assert_eq!(findings[0].severity, Severity::Error);
    assert!(findings[0].rule.contains("failure"));
    assert_eq!(findings[0].message, "test `t.x::test_a` failed: assert 1 == 2");
    assert_eq!(findings[0].rule, "pytest:tests:failure");
}

#[test]
fn error_element_treated_like_failure() {
    let xml = r#"<testsuites><testsuite>
        <testcase classname="t.x" name="test_a">
            <error message="ImportError: no module">stacktrace</error>
        </testcase>
    </testsuite></testsuites>"#;
    let findings = collect_failures("tests", xml);
    assert_eq!(findings.len(), 1);
    assert!(findings[0].message.contains("ImportError"));
}

#[test]
fn entity_decoding_in_message() {
    let xml = r#"<testsuites><testsuite>
        <testcase name="test_a">
            <failure message="assert 'a' &lt; 'b'">x</failure>
        </testcase>
    </testsuite></testsuites>"#;
    let findings = collect_failures("tests", xml);
    assert_eq!(findings.len(), 1);
    assert!(findings[0].message.contains("'a' < 'b'"));
}

#[test]
fn classname_and_name_concatenated() {
    let xml = r#"<testsuites><testsuite>
        <testcase classname="tests.x.TestY" name="test_z">
            <failure message="m"/>
        </testcase>
    </testsuite></testsuites>"#;
    let findings = collect_failures("t", xml);
    assert!(findings[0].message.contains("tests.x.TestY::test_z"));
}

#[test]
fn handles_self_closing_failure_element() {
    let xml = r#"<testsuites><testsuite>
        <testcase name="t">
            <failure message="boom"/>
        </testcase>
    </testsuite></testsuites>"#;
    let findings = collect_failures("t", xml);
    assert_eq!(findings.len(), 1);
    assert!(findings[0].message.contains("boom"));
}

#[test]
fn failure_text_used_when_message_attribute_missing() {
    let xml = "<testcase name=\"t\"><failure>\n\n  \x1b[31mAssertionError\x1b[0m: nope  \nmore\n</failure></testcase>";
    let findings = collect_failures("t", xml);
    assert_eq!(findings.len(), 1);
    assert_eq!(findings[0].message, "test `t` failed: AssertionError: nope");
}

#[test]
fn cap_caps_at_max_findings() {
    let mut xml = String::from("<testsuites><testsuite>");
    for i in 0..60 {
        xml.push_str(&format!(r#"<testcase name="t{i}"><failure message="m{i}"/></testcase>"#));
    }
    xml.push_str("</testsuite></testsuites>");
    let findings = collect_failures("t", &xml);
    assert_eq!(findings.len(), pytest::junit::MAX_FINDINGS);
}

#[test]
fn summarise_pluralisation() {
    let one = vec![mk_finding(Severity::Error)];
    assert!(summarise_failures(&one).contains("1 test"));
    assert_eq!(summarise_failures(&one), "pytest reported 1 test failure");
    let three: Vec<Finding> = (0..3).map(|_| mk_finding(Severity::Error)).collect();
    let s = summarise_failures(&three);
    assert!(s.contains("3"));
    assert!(s.contains("test failures"));
}

#[test]
fn attr_value_does_not_match_substring() {
    let attrs = r#"classname="t.x" name="test_a""#;
    assert_eq!(attr_value(attrs, "name").as_deref(), Some("test_a"));
    assert_eq!(attr_value(attrs, "classname").as_deref(), Some("t.x"));
}

#[test]
fn fail_without_junit_uses_generic_finding() {
    let v = pytest::outcome_to_verdict("tests", &outcome(Some(1), "", "FAILED tests/test_x.py"), None, None);
    match v {
        Verdict::Fail { findings, message } => {
            assert_eq!(findings.len(), 1);
            assert!(findings[0].message.contains("FAILED"));
            assert!(message.contains("test failures"));
        }
        other => panic!("expected Fail, got {other:?}"),
    }
}

#[test]
fn fail_with_junit_xml_yields_per_failure_findings() {
    let xml = r#"<?xml version="1.0" encoding="utf-8"?>
        <testsuites>
          <testsuite name="pytest" tests="2" failures="2">
            <testcase classname="t.x" name="test_alpha" file="tests/test_x.py" line="3">
              <failure message="assert 1 == 2">stack</failure>
            </testcase>
            <testcase classname="t.x" name="test_beta" file="tests/test_x.py" line="9">
              <failure message="assert 'a' == 'b'">stack</failure>
            </testcase>
          </testsuite>
        </testsuites>"#;
    let v = pytest::outcome_to_verdict("tests", &outcome(Some(1), "", ""), Some(xml), None);
    match v {
        Verdict::Fail { findings, message } => {
            assert_eq!(findings.len(), 2);
            assert!(findings[0].message.contains("test_alpha"));
            assert!(findings[1].message.contains("test_beta"));
            assert!(message.contains("2"));
        }
        other => panic!("expected Fail, got {other:?}"),
    }
}

#[test]
fn collection_error_exit_5_is_pass() {
    let v = pytest::outcome_to_verdict("tests", &outcome(Some(5), "", ""), None, None);
    assert!(matches!(v, Verdict::Pass));
}

#[test]
fn collection_error_exit_5_with_version_warning_is_warn() {
    let v = pytest::outcome_to_verdict("tests", &outcome(Some(5), "", ""), None, Some("old pytest"));
    match v {
        Verdict::Warn { findings, message } => {
            assert_eq!(findings.len(), 1);
            assert!(message.unwrap().contains("old pytest"));
        }
        other => panic!("expected Warn, got {other:?}"),
    }
}

#[test]
fn keyboard_interrupt_exit_2_is_fail() {
    let v = pytest::outcome_to_verdict("tests", &outcome(Some(2), "", ""), None, None);
    match v {
        Verdict::Fail { message, .. } => {
            assert!(message.contains("interrupted"));
            assert_eq!(message, "pytest `tests` exit 2: test run was interrupted by the user (KeyboardInterrupt)");
        }
        other => panic!("expected Fail, got {other:?}"),
    }
}

// ---------------------------------------------------------------------------
// shell
// ---------------------------------------------------------------------------

#[test]
fn supports_config_only_for_shell() {
    assert!(ShellSource::new().supports_config(&shell_check()));
    assert!(!ShellSource::new().supports_config(&cargo_check_config("check")));
}

#[test]
fn shell_exit_zero_passes_and_nonzero_fails() {
    assert!(matches!(exit_status_to_verdict("noop", Some(0), ""), Verdict::Pass));
    match exit_status_to_verdict("always-fail", Some(7), "something-on-stderr\n") {
        Verdict::Fail { findings, message } => {
            assert_eq!(message, "check `always-fail` exited with status 7: something-on-stderr");
            assert_eq!(findings.len(), 1);
            assert_eq!(findings[0].severity, Severity::Error);
            assert_eq!(findings[0].rule, "shell:always-fail");
        }
        other => panic!("expected Fail, got {other:?}"),
    }
    match exit_status_to_verdict("x", None, "") {
        Verdict::Fail { message, .. } => assert_eq!(message, "check `x` was terminated before producing an exit code"),
        other => panic!("expected Fail, got {other:?}"),
    }
}

#[test]
fn shell_start_and_finish_keep_raw_output() {
    let check = CheckConfig {
        name: "hello".into(),
        triggers: vec![TriggerConfig { on: vec!["commit".into()] }],
        source: CheckSourceConfig::Shell { command: "printf hello".into() },
        timeout_secs: Some(5),
    };
    let s = ShellSource::new();
    assert_eq!(s.start(&check).unwrap(), SourceStep::Spawn { command: "printf hello".into(), timeout_secs: 5 });
    let r = s.finish(&check, outcome(Some(0), "hello", ""));
    assert_eq!(r.source_id, "shell");
    assert_eq!(r.check_name, "hello");
    assert_eq!(r.raw_stdout.as_deref(), Some("hello"));
    assert!(matches!(r.verdict, Verdict::Pass));
}

#[test]
fn extract_verdict_path_root_with_dot() {
    let v = parse_json(r#"{ "verdict": "pass" }"#).unwrap();
    let got = extract_verdict_path(&v, ".verdict").and_then(|x| x.as_str()).unwrap();
    assert_eq!(got, "pass");
}

#[test]
fn extract_verdict_path_nested() {
    let v = parse_json(r#"{ "results": { "summary": { "verdict": "fail" } } }"#).unwrap();
    let got = extract_verdict_path(&v, ".results.summary.verdict").and_then(|x| x.as_str()).unwrap();
    assert_eq!(got, "fail");
}

#[test]
fn extract_verdict_path_missing_returns_none() {
    let v = parse_json(r#"{ "verdict": "pass" }"#).unwrap();
    assert!(extract_verdict_path(&v, ".missing").is_none());
}

#[test]
fn extract_verdict_path_empty_returns_root() {
    let v = parse_json(r#"{ "verdict": "pass" }"#).unwrap();
    let root = extract_verdict_path(&v, ".").unwrap();
    assert_eq!(root.get("verdict").and_then(|x| x.as_str()), Some("pass"));
}

#[test]
fn plugin_timeout_and_exit_errors() {
    assert_eq!(plugin_timeout_secs(None), 60);
    assert_eq!(plugin_timeout_secs(Some("5")), 5);
    assert_eq!(plugin_timeout_secs(Some("x")), 60);
    assert_eq!(plugin_exit_error(Some(0), "noise"), None);
    assert_eq!(plugin_exit_error(Some(3), "  bad input \n").as_deref(), Some("exited with status 3: bad input"));
    assert_eq!(plugin_exit_error(None, "").as_deref(), Some("exited with status signal"));
    assert_eq!(plugin_exit_error(Some(-1), "").as_deref(), Some("exited with status -1"));
}

#[test]
fn shell_finish_failing_status_reports_stderr() {
    let check = CheckConfig {
        name: "always-fail".into(),
        triggers: vec![],
        source: CheckSourceConfig::Shell { command: "echo something-on-stderr 1>&2; exit 7".into() },
        timeout_secs: Some(5),
    };
    let r = ShellSource::new().finish(&check, outcome(Some(7), "", "something-on-stderr\n"));
    match &r.verdict {
        Verdict::Fail { findings, message } => {
            assert!(message.contains("status 7"), "message = {message:?}");
            assert!(message.contains("something-on-stderr"));
            assert_eq!(findings.len(), 1);
            assert_eq!(findings[0].severity, Severity::Error);
            assert!(findings[0].rule.starts_with("shell:always-fail"));
        }
        other => panic!("expected Fail, got {other:?}"),
    }
    assert!(r.raw_stderr.as_deref().is_some_and(|s| s.contains("something-on-stderr")));
}

#[test]
fn plugin_errors_warn_never_block() {
    let v = klasp::sources::plugin::plugin_error_warn(
        "definitely-does-not-exist-klasp-test",
        "binary `klasp-plugin-definitely-does-not-exist-klasp-test` not found on $PATH",
    );
    assert!(matches!(v, Verdict::Warn { .. }), "expected Warn, got {v:?}");
    assert!(!v.is_blocking());
}

#[test]
fn plugin_gate_input_carries_event_files_config_and_refs() {
    let source = CheckSourceConfig::Plugin {
        name: "my-linter".into(),
        args: vec!["--fast".into()],
        settings: None,
    };
    let text = plugin_gate_input_json(
        "my-linter",
        &source,
        GitEvent::Commit,
        &vec!["src/a.rs".to_string()],
        "/repo",
        "origin/main",
    );
    assert_eq!(
        text,
        r#"{"protocol_version":0,"trigger":{"event":"commit","staged_files":["src/a.rs"]},"config":{"type":"my-linter","args":["--fast"]},"repo_root":"/repo","base_ref":"origin/main"}"#
    );
}

#[test]
fn plugin_gate_input_includes_settings_and_push_event() {
    let source = CheckSourceConfig::Plugin {
        name: "p".into(),
        args: vec![],
        settings: Some(r#"{"level":"strict"}"#.into()),
    };
    let doc = plugin_gate_input("p", &source, GitEvent::Push, &vec![], "/r", "HEAD~1");
    let trigger = doc.get("trigger").unwrap();
    assert_eq!(trigger.get("event").unwrap().as_str(), Some("push"));
    assert_eq!(trigger.get("staged_files").unwrap().as_array().unwrap().len(), 0);
    let config = doc.get("config").unwrap();
    assert_eq!(config.get("type").unwrap().as_str(), Some("p"));
    assert_eq!(config.get("settings").unwrap().get("level").unwrap().as_str(), Some("strict"));
    assert_eq!(doc.get("base_ref").unwrap().as_str(), Some("HEAD~1"));
    assert_eq!(doc.get("protocol_version").unwrap().as_u64(), Some(0));
}

#[test]
fn plugin_gate_input_drops_settings_that_are_not_json() {
    let source = CheckSourceConfig::Plugin { name: "p".into(), args: vec![], settings: Some("not json".into()) };
    let doc = plugin_gate_input("p", &source, GitEvent::Commit, &vec![], "/r", "b");
    assert!(doc.get("config").unwrap().get("settings").is_none());
}

#[test]
fn pytest_verdict_parse_version_extracts_major_minor() {
    assert_eq!(recipe_util::parse_version("pytest 7.4.0"), Some((7, 4)));
    assert_eq!(recipe_util::parse_version("pytest 8.3.2\n"), Some((8, 3)));
    assert_eq!(
        recipe_util::parse_version("This is pytest version 8.0.1, imported from …"),
        Some((8, 0))
    );
    assert_eq!(recipe_util::parse_version(""), None);
    assert_eq!(recipe_util::parse_version("not a version"), None);
}

#[test]
fn plugin_settings_keep_their_floats() {
    let source = CheckSourceConfig::Plugin {
        name: "p".into(),
        args: vec![],
        settings: Some(r#"{"threshold":0.5,"big":1e+300,"n":-3}"#.into()),
    };
    let text = plugin_gate_input_json("p", &source, GitEvent::Commit, &vec![], "/r", "b");
    assert!(text.contains(r#""settings":{"threshold":0.5,"big":1e+300,"n":-3}"#), "{text}");
}

#[test]
fn json_float_is_kept_by_its_text() {
    match parse_json("2.25") {
        Some(JsonValue::Number(JsonNumber::Float(t))) => assert_eq!(t, "2.25"),
        other => panic!("unexpected {other:?}"),
    }
}

#[test]
fn describe_version_reads_protocol_version() {
    assert_eq!(describe_version(r#"{"name":"x","protocol_version":0}"#), Ok(0));
    assert_eq!(describe_version(r#"{"protocol_version":3}"#), Ok(3));
    assert_eq!(
        describe_version(r#"{"name":"x"}"#),
        Err("--describe produced malformed JSON: no `protocol_version` that is a u32".to_string())
    );
    assert_eq!(
        describe_version(r#"{"protocol_version":4294967296}"#),
        Err("--describe produced malformed JSON: no `protocol_version` that is a u32".to_string())
    );
    let e = describe_version("nope").unwrap_err();
    assert!(e.starts_with("--describe produced malformed JSON: "), "{e}");
}
