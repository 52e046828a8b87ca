use klasp::cli::{GateArgs, OutputFormat};
use klasp::gate::{dispatch_output, notice, GateNotice, OutputTarget};
use klasp::model::{CheckResult, Finding, Severity, Verdict, VerdictPolicy};
use klasp::output::{json, junit, sarif};
use serde_json::Value;

fn finding(rule: &str, sev: Severity, file: Option<&str>, line: Option<u32>, msg: &str) -> Finding {
    Finding {
        rule: rule.into(),
        message: msg.into(),
        file: file.map(String::from),
        line,
        severity: sev,
    }
}

fn result(name: &str, verdict: Verdict) -> CheckResult {
    CheckResult {
        source_id: "shell".into(),
        check_name: name.into(),
        verdict,
        raw_stdout: None,
        raw_stderr: None,
    }
}

// ---------------------------------------------------------------------------
// json
// ---------------------------------------------------------------------------

#[test]
fn json_document_has_versions_checks_and_stats() {
    let results = vec![
        result("lint", Verdict::Pass),
        result(
            "tests",
            Verdict::Fail {
                findings: vec![finding("pytest", Severity::Error, Some("t.py"), Some(4), "boom")],
                message: "failed".into(),
            },
        ),
        result("style", Verdict::Warn { findings: vec![], message: None }),
    ];
    let verdict = Verdict::Fail { findings: vec![], message: "failed".into() };
    let out = json::render(&verdict, VerdictPolicy::AnyFail, &results);
    assert!(out.ends_with("}\n"));
    let v: Value = serde_json::from_str(&out).unwrap();
    assert_eq!(v["output_schema_version"], 1);
    assert_eq!(v["gate_schema_version"], 1);
    assert_eq!(v["verdict"], "fail");
    assert_eq!(v["stats"]["total_checks"], 3);
    assert_eq!(v["stats"]["pass"], 1);
    assert_eq!(v["stats"]["warn"], 1);
    assert_eq!(v["stats"]["fail"], 1);
    let checks = v["checks"].as_array().unwrap();
    assert_eq!(checks.len(), 3);
    assert_eq!(checks[0]["name"], "lint");
    assert_eq!(checks[0]["source"], "shell");
    assert_eq!(checks[0]["verdict"], "pass");
    assert_eq!(checks[0]["findings"].as_array().unwrap().len(), 0);
    let f = &checks[1]["findings"][0];
    assert_eq!(f["severity"], "error");
    assert_eq!(f["rule"], "pytest");
    assert_eq!(f["file"], "t.py");
    assert_eq!(f["line"], 4);
    assert_eq!(f["message"], "boom");
}

#[test]
fn json_document_nulls_missing_location() {
    let results = vec![result(
        "x",
        Verdict::Warn { findings: vec![finding("r", Severity::Info, None, None, "m")], message: None },
    )];
    let out = json::render(&Verdict::Pass, VerdictPolicy::AnyFail, &results);
    let v: Value = serde_json::from_str(&out).unwrap();
    assert_eq!(v["verdict"], "pass");
    let f = &v["checks"][0]["findings"][0];
    assert!(f["file"].is_null());
    assert!(f["line"].is_null());
    assert_eq!(f["severity"], "info");
}

#[test]
fn json_document_without_checks_counts_zero() {
    let out = json::render(&Verdict::Pass, VerdictPolicy::AnyFail, &vec![]);
    let v: Value = serde_json::from_str(&out).unwrap();
    assert_eq!(v["checks"].as_array().unwrap().len(), 0);
    assert_eq!(v["stats"]["total_checks"], 0);
}

// ---------------------------------------------------------------------------
// sarif
// ---------------------------------------------------------------------------

#[test]
fn sarif_rules_are_distinct_and_sorted() {
    let verdict = Verdict::Fail {
        findings: vec![
            finding("zeta", Severity::Error, Some("a.rs"), Some(3), "z"),
            finding("alpha", Severity::Warn, Some("b.rs"), None, "a"),
            finding("zeta", Severity::Info, None, None, "z2"),
        ],
        message: "m".into(),
    };
    let out = sarif::render(&verdict, VerdictPolicy::AnyFail);
    let v: Value = serde_json::from_str(&out).unwrap();
    assert_eq!(v["version"], "2.1.0");
    let driver = &v["runs"][0]["tool"]["driver"];
    assert_eq!(driver["name"], "klasp");
    assert_eq!(driver["informationUri"], "https://klasp.dev");
    let rules: Vec<&str> = driver["rules"].as_array().unwrap().iter().map(|r| r["id"].as_str().unwrap()).collect();
    assert_eq!(rules, vec!["alpha", "zeta"]);
    assert_eq!(driver["rules"][0]["shortDescription"]["text"], "alpha");
    let results = v["runs"][0]["results"].as_array().unwrap();
    assert_eq!(results.len(), 3);
    assert_eq!(results[0]["ruleId"], "zeta");
    assert_eq!(results[0]["level"], "error");
    assert_eq!(results[0]["message"]["text"], "z");
    assert_eq!(results[0]["locations"][0]["physicalLocation"]["artifactLocation"]["uri"], "a.rs");
    assert_eq!(results[0]["locations"][0]["physicalLocation"]["region"]["startLine"], 3);
    assert_eq!(results[1]["level"], "warning");
    assert!(results[1]["locations"][0]["physicalLocation"]["region"].is_null());
    assert_eq!(results[2]["level"], "note");
    assert!(results[2].get("locations").is_none());
}

#[test]
fn sarif_of_pass_has_no_results() {
    let out = sarif::render(&Verdict::Pass, VerdictPolicy::AnyFail);
    let v: Value = serde_json::from_str(&out).unwrap();
    assert_eq!(v["runs"][0]["results"].as_array().unwrap().len(), 0);
    assert_eq!(v["runs"][0]["tool"]["driver"]["rules"].as_array().unwrap().len(), 0);
    assert!(out.ends_with('\n'));
}

// ---------------------------------------------------------------------------
// junit
// ---------------------------------------------------------------------------

#[test]
fn junit_pass_is_one_passing_case() {
    let out = junit::render(&Verdict::Pass, VerdictPolicy::AnyFail);
    assert_eq!(
        out,
        "<?xml version=\"1.0\" encoding=\"utf-8\"?>\n\
         <testsuites name=\"klasp\" tests=\"1\" failures=\"0\" errors=\"0\">\n  \
         <testsuite name=\"klasp\" tests=\"1\" failures=\"0\" errors=\"0\" time=\"0\">\n    \
         <testcase classname=\"klasp\" name=\"gate\" time=\"0\"/>\n  \
         </testsuite>\n\
         </testsuites>\n"
    );
}

#[test]
fn junit_fail_counts_errors_and_tags_warnings() {
    let verdict = Verdict::Fail {
        findings: vec![
            finding("tsc", Severity::Error, Some("src/a.ts"), Some(3), "bad <thing>"),
            finding("lint", Severity::Warn, Some("src/b.ts"), None, "meh"),
            finding("misc", Severity::Info, None, None, "fyi"),
        ],
        message: "x".into(),
    };
    let out = junit::render(&verdict, VerdictPolicy::AnyFail);
    assert!(out.contains("<testsuites name=\"klasp\" tests=\"3\" failures=\"1\" errors=\"0\">"), "{out}");
    assert!(out.contains("<testcase classname=\"src/a.ts\" name=\"tsc:src/a.ts:3\" time=\"0\">"), "{out}");
    assert!(out.contains("<failure message=\"bad &lt;thing&gt;\">bad &lt;thing&gt;</failure>"), "{out}");
    assert!(out.contains("<testcase classname=\"src/b.ts\" name=\"lint:src/b.ts [warn]\" time=\"0\"/>"), "{out}");
    assert!(out.contains("<testcase classname=\"misc\" name=\"misc [info]\" time=\"0\"/>"), "{out}");
    assert!(out.ends_with("</testsuites>\n"));
}

#[test]
fn junit_warn_has_no_failures() {
    let verdict = Verdict::Warn {
        findings: vec![finding("e", Severity::Error, None, None, "not blocking")],
        message: None,
    };
    let out = junit::render(&verdict, VerdictPolicy::AnyFail);
    assert!(out.contains("tests=\"1\" failures=\"0\""), "{out}");
}

// ---------------------------------------------------------------------------
// gate dispatch and notices
// ---------------------------------------------------------------------------

#[test]
fn terminal_format_goes_to_stderr() {
    let args = GateArgs { format: OutputFormat::Terminal, output: Some("ignored.txt".into()) };
    let (target, text) = dispatch_output(&args, &Verdict::Pass, VerdictPolicy::AnyFail, &vec![]);
    assert_eq!(target, OutputTarget::Stderr);
    assert_eq!(text, "");
}

#[test]
fn machine_formats_go_to_output_file_or_stdout() {
    let to_file = GateArgs { format: OutputFormat::Sarif, output: Some("out.sarif".into()) };
    let (target, text) = dispatch_output(&to_file, &Verdict::Pass, VerdictPolicy::AnyFail, &vec![]);
    assert_eq!(target, OutputTarget::File("out.sarif".into()));
    assert_eq!(text, sarif::render(&Verdict::Pass, VerdictPolicy::AnyFail));
    let to_stdout = GateArgs { format: OutputFormat::Junit, output: None };
    let (target, text) = dispatch_output(&to_stdout, &Verdict::Pass, VerdictPolicy::AnyFail, &vec![]);
    assert_eq!(target, OutputTarget::Stdout);
    assert!(text.starts_with("<?xml"));
    let json_args = GateArgs { format: OutputFormat::Json, output: None };
    let (_, text) = dispatch_output(&json_args, &Verdict::Pass, VerdictPolicy::AnyFail, &vec![]);
    assert!(text.contains("\"output_schema_version\""));
}

#[test]
fn notices_are_prefixed_and_fail_open() {
    assert_eq!(
        notice(&GateNotice::SchemaMismatch("want 1, got 2".into())),
        "klasp-gate: schema mismatch (want 1, got 2), skipping. Re-run `klasp install` to update the hook."
    );
    assert_eq!(notice(&GateNotice::NoRepoRoot), "klasp-gate: could not resolve repo root, skipping.");
    assert_eq!(
        notice(&GateNotice::GroupConfigError { path: "/r/klasp.toml".into(), error: "bad".into() }),
        "klasp-gate: config error for /r/klasp.toml (bad), skipping group."
    );
    assert_eq!(
        notice(&GateNotice::RuntimeError { check: "lint".into(), error: "spawn".into() }),
        "klasp-gate: check `lint` runtime error (spawn), skipping."
    );
    assert_eq!(
        notice(&GateNotice::NoSource("x".into())),
        "klasp-gate: no source registered for check `x`, skipping."
    );
    assert_eq!(notice(&GateNotice::NoConfigFor("a.rs".into())), "klasp-gate: no klasp.toml for a.rs, skipping.");
    assert_eq!(notice(&GateNotice::OutputWriteFailed("denied".into())), "klasp-gate: could not write output file (denied).");
}
