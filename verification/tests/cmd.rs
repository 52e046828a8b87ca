use klasp::cmd::demo::{
    failure_lines, GateBlock,
    block_ok, count_failures, extract_filenames, find_gate_blocks, is_assistant_message,
    is_gate_block, ok_summary, parse_transcript,
};
use klasp::cmd::doctor::{extract_argv0, path_check, settings_has_hook_entry, Counters, PathCheck};
use klasp::cmd::plugins::{
    fit_name, list_header, list_row, plugin_name_of, plugin_row, select_plugin_binaries,
    PluginStatus, NAME_COL,
};
use klasp::json::parse_json;
use klasp::model::{CheckConfig, CheckSourceConfig};

// ---------------------------------------------------------------------------
// demo
// ---------------------------------------------------------------------------

#[test]
fn extract_filenames_simple() {
    let output = "  - [error][tsc] src/lib/foo.ts:3:1 — Cannot find module";
    let files = extract_filenames(output);
    assert_eq!(files, vec!["src/lib/foo.ts"]);
}

#[test]
fn extract_filenames_multiple_unique() {
    let output = "src/a.ts:1:1 — err\n  src/b.rs:20:5 — warn\n  src/a.ts:5:2 — err2";
    let files = extract_filenames(output);
    assert_eq!(files, vec!["src/a.ts", "src/b.rs"]);
}

#[test]
fn extract_filenames_no_match() {
    let output = "klasp-gate: blocked (1 errors, policy=AnyFail)";
    let files = extract_filenames(output);
    assert!(files.is_empty());
}

#[test]
fn extract_filenames_strips_surrounding_punctuation() {
    let files = extract_filenames("see (\"src/x.py:12\") and 'lib/y.rs:7:2'");
    assert_eq!(files, vec!["src/x.py", "lib/y.rs"]);
}

#[test]
fn extract_filenames_needs_digit_after_colon_and_a_dot() {
    assert!(extract_filenames("Makefile:12 src/a.ts:x").is_empty());
}

#[test]
fn is_gate_block_detects_blocked() {
    let v = parse_json(
        r#"{"type":"tool_result","tool_call_id":"tc_1","output":"klasp-gate: blocked (1 errors)","exit_code":1}"#,
    )
    .unwrap();
    assert!(is_gate_block(&v));
}

#[test]
fn is_gate_block_ignores_passing() {
    let v = parse_json(
        r#"{"type":"tool_result","tool_call_id":"tc_1","output":"OK","exit_code":0}"#,
    )
    .unwrap();
    assert!(!is_gate_block(&v));
}

#[test]
fn is_assistant_message_needs_type_and_role() {
    let yes = parse_json(r#"{"type":"message","role":"assistant","content":"hi"}"#).unwrap();
    let no = parse_json(r#"{"type":"message","role":"user","content":"hi"}"#).unwrap();
    assert!(is_assistant_message(&yes));
    assert!(!is_assistant_message(&no));
}

fn transcript() -> String {
    [
    "{\"type\":\"message\",\"role\":\"user\",\"content\":\"commit it\"}\n",
    "\n",
    "{\"type\":\"tool_result\",\"output\":\"klasp-gate: blocked\\n  - [error][tsc] src/lib/foo.ts:3:1 bad\"}\n",
    "{\"type\":\"message\",\"role\":\"assistant\",\"content\":\"Fixing src/lib/foo.ts now\"}\n",
    "{\"type\":\"tool_result\",\"output\":\"klasp-gate: blocked\\n  src/b.rs:2:1 oops\"}\n",
    "{\"type\":\"message\",\"role\":\"assistant\",\"content\":\"I will retry\"}\n",
].concat()
}

#[test]
fn parse_transcript_numbers_lines_and_skips_blanks() {
    let entries = parse_transcript(&transcript()).unwrap();
    let numbers: Vec<usize> = entries.iter().map(|e| e.0).collect();
    assert_eq!(numbers, vec![1, 3, 4, 5, 6]);
}

#[test]
fn parse_transcript_reports_first_malformed_line() {
    let err = parse_transcript("{\"a\":1}\nnot json\n{}").unwrap_err();
    assert!(err.starts_with("line 2: malformed JSON: "), "{err}");
}

#[test]
fn find_gate_blocks_pairs_each_block_with_next_assistant_message() {
    let entries = parse_transcript(&transcript()).unwrap();
    let blocks = find_gate_blocks(&entries);
    assert_eq!(blocks.len(), 2);
    assert_eq!(blocks[0].tool_result_line, 3);
    assert_eq!(blocks[0].expected_filenames, vec!["src/lib/foo.ts"]);
    assert_eq!(blocks[0].assistant_line, Some(4));
    assert_eq!(blocks[0].assistant_response.as_deref(), Some("Fixing src/lib/foo.ts now"));
    assert!(block_ok(&blocks[0]));
    assert_eq!(blocks[1].tool_result_line, 5);
    assert_eq!(blocks[1].assistant_line, Some(6));
    assert!(!block_ok(&blocks[1]));
    assert_eq!(count_failures(&blocks), 1);
}

#[test]
fn block_without_assistant_reply_fails() {
    let entries =
        parse_transcript("{\"type\":\"tool_result\",\"output\":\"klasp-gate: blocked a.rs:1\"}")
            .unwrap();
    let blocks = find_gate_blocks(&entries);
    assert_eq!(blocks.len(), 1);
    assert_eq!(blocks[0].assistant_response, None);
    assert_eq!(blocks[0].assistant_line, None);
    assert_eq!(count_failures(&blocks), 1);
}

#[test]
fn ok_summary_pluralises() {
    assert_eq!(ok_summary(1), "demo replay: OK (1 gate-feedback loop verified)");
    assert_eq!(ok_summary(3), "demo replay: OK (3 gate-feedback loops verified)");
}

// ---------------------------------------------------------------------------
// doctor
// ---------------------------------------------------------------------------

#[test]
fn extract_argv0_simple_command() {
    assert_eq!(extract_argv0("ruff check .").as_deref(), Some("ruff"));
}

#[test]
fn extract_argv0_skips_env_prefix() {
    assert_eq!(extract_argv0("PYTHONPATH=. pytest -q").as_deref(), Some("pytest"));
}

#[test]
fn extract_argv0_skips_multiple_env_prefixes() {
    assert_eq!(
        extract_argv0("FOO=1 BAR=2 cargo test --workspace").as_deref(),
        Some("cargo")
    );
}

#[test]
fn extract_argv0_empty_command() {
    assert_eq!(extract_argv0("").as_deref(), None);
}

#[test]
fn extract_argv0_only_env_assignments() {
    assert_eq!(extract_argv0("FOO=1 BAR=2").as_deref(), None);
}

#[test]
fn counters_tally_and_summarise() {
    let mut c = Counters::new();
    assert_eq!(c.summary(), ("doctor: all checks passed".to_string(), false));
    c.ok("config: found");
    c.warn("hook: stale");
    assert_eq!(c.summary(), ("doctor: 0 FAIL, 1 WARN".to_string(), false));
    c.fail("path[x]: missing");
    c.info("note");
    assert_eq!(c.fails, 1);
    assert_eq!(c.warns, 1);
    assert_eq!(
        c.lines,
        vec![
            "OK    config: found",
            "WARN  hook: stale",
            "FAIL  path[x]: missing",
            "INFO  note"
        ]
    );
    assert_eq!(c.summary(), ("doctor: 1 FAIL, 1 WARN".to_string(), true));
}

fn check(name: &str, source: CheckSourceConfig) -> CheckConfig {
    CheckConfig { name: name.into(), triggers: vec![], source, timeout_secs: None }
}

#[test]
fn path_check_probes_shell_program() {
    let c = check("lint", CheckSourceConfig::Shell { command: "FOO=1 ruff check .".into() });
    assert_eq!(
        path_check(&c),
        PathCheck::Probe {
            binary: "ruff".into(),
            found: "path[lint]: `ruff` found in PATH".into(),
            missing: "path[lint]: `ruff` not found in PATH (command: `FOO=1 ruff check .`)".into(),
        }
    );
}

#[test]
fn path_check_reports_unknown_program() {
    let c = check("env", CheckSourceConfig::Shell { command: "A=1".into() });
    assert_eq!(
        path_check(&c),
        PathCheck::Unknown("path[env]: could not determine executable from command `A=1`".into())
    );
}

#[test]
fn path_check_skips_other_recipes() {
    let c = check("t", CheckSourceConfig::Cargo { subcommand: "test".into(), extra_args: None, package: None });
    assert_eq!(path_check(&c), PathCheck::Skip);
}

#[test]
fn settings_hook_entry_found_only_under_bash_matcher() {
    let root = parse_json(
        r#"{"hooks":{"PreToolUse":[
            {"matcher":"Edit","hooks":[{"type":"command","command":"klasp gate"}]},
            {"matcher":"Bash","hooks":[{"type":"command","command":"other"},{"type":"command","command":"klasp gate"}]}
        ]}}"#,
    )
    .unwrap();
    assert!(settings_has_hook_entry(&root, "klasp gate"));
    assert!(!settings_has_hook_entry(&root, "klasp gate --x"));
    let edit_only = parse_json(
        r#"{"hooks":{"PreToolUse":[{"matcher":"Edit","hooks":[{"command":"klasp gate"}]}]}}"#,
    )
    .unwrap();
    assert!(!settings_has_hook_entry(&edit_only, "klasp gate"));
    assert!(!settings_has_hook_entry(&parse_json("{}").unwrap(), "klasp gate"));
}

// ---------------------------------------------------------------------------
// plugins
// ---------------------------------------------------------------------------

#[test]
fn fit_name_keeps_short_names() {
    assert_eq!(fit_name("lint"), "lint");
    assert_eq!(fit_name("abcdefghijklmnopqrstuvwx"), "abcdefghijklmnopqrstuvwx");
}

#[test]
fn fit_name_truncates_long_names_with_ellipsis() {
    let long = "abcdefghijklmnopqrstuvwxyz";
    let r = fit_name(long);
    assert_eq!(r, "abcdefghijklmnopqrstuvw…");
    assert_eq!(r.chars().count(), NAME_COL);
}

#[test]
fn list_row_pads_columns() {
    assert_eq!(
        list_header(),
        format!("{:<24} {:<10} {}", "NAME", "PROTOCOL", "STATUS")
    );
    assert_eq!(list_row("x", "0", "enabled"), format!("{:<24} {:<10} {}", "x", "0", "enabled"));
}

#[test]
fn plugin_rows_describe_status() {
    assert_eq!(
        plugin_row("demo", &PluginStatus::Disabled),
        format!("{:<24} {:<10} {}", "demo", "—", "disabled")
    );
    assert_eq!(
        plugin_row("demo", &PluginStatus::Described(0)),
        format!("{:<24} {:<10} {}", "demo", "0", "enabled")
    );
    assert_eq!(
        plugin_row("demo", &PluginStatus::Described(7)),
        format!("{:<24} {:<10} {}", "demo", "7", "proto-mismatch (klasp speaks v0)")
    );
    assert_eq!(
        plugin_row("demo", &PluginStatus::DescribeFailed("boom\r\nmore".into())),
        format!("{:<24} {:<10} {}", "demo", "—", "describe-failed: boom")
    );
}

#[test]
fn plugin_name_strips_prefix() {
    assert_eq!(plugin_name_of("klasp-plugin-lint"), "lint");
    assert_eq!(plugin_name_of("other"), "other");
}

#[test]
fn select_plugin_binaries_keeps_first_of_each_name() {
    let entries: Vec<(String, String)> = vec![
        ("/a/klasp-plugin-x".into(), "klasp-plugin-x".into()),
        ("/a/ls".into(), "ls".into()),
        ("/b/klasp-plugin-x".into(), "klasp-plugin-x".into()),
        ("/b/klasp-plugin-y".into(), "klasp-plugin-y".into()),
    ];
    let got = select_plugin_binaries(&entries);
    assert_eq!(
        got,
        vec![
            ("/a/klasp-plugin-x".to_string(), "klasp-plugin-x".to_string()),
            ("/b/klasp-plugin-y".to_string(), "klasp-plugin-y".to_string()),
        ]
    );
}

// ---------------------------------------------------------------------------
// doctor: what each check records
// ---------------------------------------------------------------------------

use klasp::cmd::doctor::{check_config_version, ConfigLoadError, SUPPORTED_CONFIG_VERSION};

#[test]
fn record_config_outcomes() {
    let mut c = Counters::new();
    c.record_config(&Ok(()));
    c.record_config(&Err(ConfigLoadError::NotFound { searched: vec!["/r/klasp.toml".into(), "/klasp.toml".into()] }));
    c.record_config(&Err(ConfigLoadError::Version { found: 2, supported: 1 }));
    c.record_config(&Err(ConfigLoadError::Parse("expected `=`".into())));
    c.record_config(&Err(ConfigLoadError::Io { path: "/r/klasp.toml".into(), source: "denied".into() }));
    c.record_config(&Err(ConfigLoadError::Unexpected("odd".into())));
    assert_eq!(c.fails, 5);
    assert_eq!(
        c.lines,
        vec![
            "OK    config: klasp.toml loaded OK",
            "FAIL  config: klasp.toml not found (searched: /r/klasp.toml, /klasp.toml)",
            "FAIL  config: version mismatch — file declares version = 2, but this klasp understands version = 1",
            "FAIL  config: klasp.toml parse error: expected `=`",
            "FAIL  config: I/O error reading /r/klasp.toml: denied",
            "FAIL  config: unexpected error: odd",
        ]
    );
}

#[test]
fn record_hook_outcomes() {
    let mut c = Counters::new();
    c.record_hook("claude_code", "/r/hooks/klasp-gate.sh", None, "x");
    c.record_hook("claude_code", "/r/h", Some("same"), "same");
    c.record_hook("codex", "/r/h", Some("old"), "new");
    assert_eq!(c.fails, 2);
    assert_eq!(
        c.lines,
        vec![
            "FAIL  hook[claude_code]: /r/hooks/klasp-gate.sh not found; re-run `klasp install`",
            "OK    hook[claude_code]: current (schema v1)",
            "FAIL  hook[codex]: schema drift detected (re-run `klasp install`)",
        ]
    );
}

#[test]
fn record_settings_reads_only_claude_settings() {
    let mut c = Counters::new();
    c.record_settings("codex", "/r/AGENTS.md", Some("not json"), "klasp gate");
    assert!(c.lines.is_empty());
    c.record_settings("claude_code", "/r/s.json", None, "klasp gate");
    c.record_settings("claude_code", "/r/s.json", Some("{"), "klasp gate");
    c.record_settings(
        "claude_code",
        "/r/s.json",
        Some(r#"{"hooks":{"PreToolUse":[{"matcher":"Bash","hooks":[{"command":"klasp gate"}]}]}}"#),
        "klasp gate",
    );
    c.record_settings("claude_code", "/r/s.json", Some("{}"), "klasp gate");
    assert_eq!(c.fails, 3);
    assert_eq!(c.lines[0], "FAIL  settings[claude_code]: /r/s.json not found; re-run `klasp install`");
    assert!(c.lines[1].starts_with("FAIL  settings[claude_code]: failed to parse /r/s.json as JSON: "));
    assert_eq!(c.lines[2], "OK    settings[claude_code]: hook entry present");
    assert_eq!(c.lines[3], "FAIL  settings[claude_code]: klasp hook entry missing; re-run `klasp install`");
}

#[test]
fn record_surfaces_and_paths() {
    let mut c = Counters::new();
    c.record_undetected("codex");
    c.record_no_surfaces();
    let probe = path_check(&check("lint", CheckSourceConfig::Shell { command: "ruff .".into() }));
    c.record_path(&probe, true);
    c.record_path(&probe, false);
    c.record_path(&PathCheck::Unknown("path[x]: could not determine executable from command `A=1`".into()), true);
    c.record_path(&PathCheck::Skip, false);
    assert_eq!(c.fails, 0);
    assert_eq!(c.warns, 3);
    assert_eq!(
        c.lines,
        vec![
            "INFO  codex: surface not detected, skipping",
            "WARN  no agent surfaces detected; run `klasp install --force` if needed",
            "OK    path[lint]: `ruff` found in PATH",
            "WARN  path[lint]: `ruff` not found in PATH (command: `ruff .`)",
            "WARN  path[x]: could not determine executable from command `A=1`",
        ]
    );
}

// ---------------------------------------------------------------------------
// install / uninstall
// ---------------------------------------------------------------------------

use klasp::cmd::install::{
    agent_ids, config_not_found, narrower_than_config_warning, report_text, resolve_all,
    resolve_named, uninstall_report, uninstall_targets, unknown_agent, InstallReport, Selection,
};

fn strings(v: &[&str]) -> Vec<String> {
    v.iter().map(|s| s.to_string()).collect()
}

#[test]
fn registry_order_is_claude_then_codex() {
    assert_eq!(agent_ids(), strings(&["claude_code", "codex"]));
}

#[test]
fn resolve_named_selects_all_one_or_errors() {
    let ids = agent_ids();
    assert_eq!(resolve_named(None, &ids), Ok(Selection::Surfaces(ids.clone())));
    assert_eq!(resolve_named(Some("codex"), &ids), Ok(Selection::Surfaces(strings(&["codex"]))));
    assert_eq!(
        resolve_named(Some("cursor"), &ids),
        Err("unknown agent \"cursor\"; supported: claude_code, codex (or \"all\" to fan out across [gate].agents)".to_string())
    );
}

#[test]
fn resolve_all_follows_gate_agents() {
    let ids = agent_ids();
    assert_eq!(
        resolve_all(&vec![], &ids),
        Ok(Selection::Empty { reason: "`[gate].agents = []` in klasp.toml".into() })
    );
    assert_eq!(
        resolve_all(&strings(&["codex", "claude_code"]), &ids),
        Ok(Selection::Surfaces(strings(&["codex", "claude_code"])))
    );
    assert_eq!(
        resolve_all(&strings(&["codex", "aider", "zed"]), &ids),
        Err(unknown_agent("aider", &ids))
    );
}

#[test]
fn config_not_found_lists_searched_paths() {
    assert_eq!(
        config_not_found(&strings(&["/r/klasp.toml"])),
        "--agent all requires klasp.toml; not found (searched: /r/klasp.toml)"
    );
}

#[test]
fn narrower_install_warns_about_uncovered_agents() {
    let ids = agent_ids();
    assert_eq!(narrower_than_config_warning("codex", &strings(&["codex"]), &ids), None);
    assert_eq!(
        narrower_than_config_warning("codex", &strings(&["claude_code", "codex", "aider"]), &ids),
        Some("warning: klasp.toml lists agents claude_code that this install will NOT cover; doctor will report them as missing. Run `klasp install --agent all` to cover all declared agents.".to_string())
    );
}

#[test]
fn install_reports_by_outcome() {
    let mut r = InstallReport {
        agent_id: "claude_code".into(),
        hook_path: "/r/h.sh".into(),
        settings_path: "/r/s.json".into(),
        already_installed: true,
        preview: None,
        paths_written: vec![],
    };
    assert_eq!(report_text(&r, false), "claude_code: already installed (no changes)\n");
    r.already_installed = false;
    r.preview = Some("#!/bin/sh\n".into());
    assert_eq!(
        report_text(&r, true),
        "claude_code: would write /r/h.sh and update /r/s.json\n--- /r/h.sh ---\n#!/bin/sh\n"
    );
    r.paths_written = strings(&["/r/h.sh", "/r/s.json"]);
    assert_eq!(report_text(&r, false), "claude_code: installed\n  wrote /r/h.sh\n  wrote /r/s.json\n");
}

#[test]
fn uninstall_targets_and_reports() {
    let ids = agent_ids();
    assert_eq!(uninstall_targets(None, &ids), ids);
    assert_eq!(uninstall_targets(Some("codex"), &ids), strings(&["codex"]));
    assert!(uninstall_targets(Some("zed"), &ids).is_empty());
    assert_eq!(uninstall_report("codex", &vec![], false), "codex: nothing to remove\n");
    assert_eq!(uninstall_report("codex", &strings(&["/r/AGENTS.md"]), true), "codex: would touch\n  /r/AGENTS.md\n");
    assert_eq!(uninstall_report("codex", &strings(&["/r/AGENTS.md"]), false), "codex: removed\n  /r/AGENTS.md\n");
}

// ---------------------------------------------------------------------------
// setup
// ---------------------------------------------------------------------------

use klasp::cmd::setup::{detected_agents_line, dry_run_summary, install_result_label, parse_yes_no};

#[test]
fn yes_no_answers() {
    assert_eq!(parse_yes_no("y\n"), Some(true));
    assert_eq!(parse_yes_no("  YES "), Some(true));
    assert_eq!(parse_yes_no("No"), Some(false));
    assert_eq!(parse_yes_no("\n"), Some(false));
    assert_eq!(parse_yes_no("maybe"), None);
    assert_eq!(parse_yes_no("yess"), None);
}

#[test]
fn setup_summaries() {
    assert_eq!(install_result_label(true), "already installed (no changes)");
    assert_eq!(install_result_label(false), "installed");
    assert_eq!(detected_agents_line(&vec![]), "detected agents: (none)");
    assert_eq!(detected_agents_line(&strings(&["claude_code", "codex"])), "detected agents: claude_code, codex");
    let plan = klasp::adopt::plan::AdoptionPlan { findings: vec![] };
    assert_eq!(
        dry_run_summary(&strings(&["codex"]), &plan),
        "\n--- dry-run plan ---\n[gate].agents would be: codex\nchecks: (none)\nNo files written (--dry-run).\n"
    );
}

// ---------------------------------------------------------------------------
// plugins: list, info, disable
// ---------------------------------------------------------------------------

use klasp::cmd::plugins::{
    binary_not_found_message, disable_message, list_output, list_timeout_secs, plugin_binary_name,
    DisableOutcome,
};

#[test]
fn list_timeout_reads_env_value() {
    assert_eq!(list_timeout_secs(None), 5);
    assert_eq!(list_timeout_secs(Some("12")), 12);
    assert_eq!(list_timeout_secs(Some("+3")), 3);
    assert_eq!(list_timeout_secs(Some("soon")), 5);
    assert_eq!(list_timeout_secs(Some("-1")), 5);
}

#[test]
fn list_output_lists_or_notes_absence() {
    let (rows, note) = list_output(&vec![]);
    assert!(rows.is_empty());
    assert_eq!(note.as_deref(), Some("No `klasp-plugin-*` binaries found on $PATH."));
    let (rows, note) = list_output(&vec![("demo".to_string(), PluginStatus::Disabled)]);
    assert_eq!(note, None);
    assert_eq!(rows, vec![list_header(), plugin_row("demo", &PluginStatus::Disabled)]);
}

#[test]
fn info_and_disable_messages() {
    assert_eq!(plugin_binary_name("lint"), "klasp-plugin-lint");
    assert_eq!(binary_not_found_message("klasp-plugin-lint"), "error: `klasp-plugin-lint` not found on $PATH");
    assert_eq!(disable_message("lint", &DisableOutcome::AlreadyDisabled), ("lint already disabled".to_string(), true));
    assert_eq!(
        disable_message("lint", &DisableOutcome::Added { list_path: "/h/d.toml".into() }),
        ("disabled lint; klasp gate will skip this plugin.\nDisable list: /h/d.toml".to_string(), true)
    );
    assert_eq!(
        disable_message("lint", &DisableOutcome::Failed("denied".into())),
        ("error: failed to update disable list: denied".to_string(), false)
    );
}

#[test]
fn failure_lines_explain_open_loops() {
    let missing = GateBlock {
        tool_result_line: 3,
        expected_filenames: vec!["a.rs".into()],
        assistant_response: None,
        assistant_line: None,
    };
    assert_eq!(
        failure_lines(1, &missing),
        vec!["demo replay: FAIL loop 1 (gate block at line 3): no assistant message found after gate block"]
    );
    let wrong = GateBlock {
        tool_result_line: 5,
        expected_filenames: vec!["a.rs".into(), "b.rs".into()],
        assistant_response: Some("retrying".into()),
        assistant_line: Some(6),
    };
    assert_eq!(
        failure_lines(2, &wrong),
        vec![
            "demo replay: FAIL loop 2 (gate block at line 5, assistant at line 6):",
            "  expected assistant message to reference at least one of: a.rs, b.rs",
        ]
    );
    let ok = GateBlock { assistant_response: Some("fixed a.rs".into()), ..wrong };
    assert!(failure_lines(3, &ok).is_empty());
}

#[test]
fn setup_doctor_lines() {
    let mut c = Counters::new();
    c.record_setup_config(&Ok(()), "");
    c.record_setup_config(&Err(ConfigLoadError::Parse("bad".into())), "klasp.toml parse error: bad");
    c.record_not_declared("codex");
    c.record_setup_hook("claude_code", "/r/h", Some("a"), "b");
    c.record_setup_hook("claude_code", "/r/h", Some("a"), "a");
    c.record_setup_settings("/r/s.json", Some("{"), "klasp gate");
    c.record_setup_settings("/r/s.json", Some("{}"), "klasp gate");
    c.record_setup_path("lint", Some("ruff"), false);
    c.record_setup_path("lint", None, false);
    assert_eq!(c.fails, 4);
    assert_eq!(c.warns, 1);
    assert_eq!(c.lines[0], "OK    config: klasp.toml loaded OK");
    assert_eq!(c.lines[1], "FAIL  config: klasp.toml parse error: bad");
    assert_eq!(c.lines[2], "INFO  codex: not in [gate].agents, skipping");
    assert_eq!(c.lines[3], "FAIL  hook[claude_code]: schema drift (re-run `klasp install`)");
    assert_eq!(c.lines[4], "OK    hook[claude_code]: current (schema v1)");
    assert!(c.lines[5].starts_with("FAIL  settings[claude_code]: parse error: "));
    assert_eq!(c.lines[6], "FAIL  settings[claude_code]: hook entry missing; re-run `klasp install`");
    assert_eq!(c.lines[7], "WARN  path[lint]: `ruff` not found in PATH");
    assert_eq!(c.lines.len(), 8);
}

#[test]
fn config_version_must_be_the_supported_one() {
    assert_eq!(SUPPORTED_CONFIG_VERSION, 1);
    assert_eq!(check_config_version(1), Ok(()));
    assert_eq!(check_config_version(2), Err(ConfigLoadError::Version { found: 2, supported: 1 }));
    assert_eq!(check_config_version(0), Err(ConfigLoadError::Version { found: 0, supported: 1 }));
}
