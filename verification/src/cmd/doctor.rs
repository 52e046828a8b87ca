//! `klasp doctor`: the tallies and verdicts of the health checks.

use vstd::prelude::*;

use crate::json::{
    array_of, get_in, json_get, json_parse_result, parse_json_result, str_of, JsonValue,
};
use crate::model::{CheckConfig, CheckSourceConfig, GATE_SCHEMA_VERSION};
use crate::adopt::plan::strings_view;
use crate::text::{
    decimal, extend_str, from_chars, join_sep, join_sep_exec, push_decimal, split_tokens, str_eq,
    to_chars, tokens_by, views,
};

verus! {

/// The report so far: how many checks failed and warned, and the lines
/// to print.
#[derive(Clone, Debug, PartialEq, Eq)]
pub struct Counters {
    pub fails: usize,
    pub warns: usize,
    pub lines: Vec<String>,
}

impl Counters {
    pub fn new() -> (r: Counters)
        ensures
            r.fails == 0,
            r.warns == 0,
            r.lines@.len() == 0,
    {
        Counters { fails: 0, warns: 0, lines: Vec::new() }
    }

    fn push_line(&mut self, tag: &str, msg: &str)
        ensures
            final(self).fails == old(self).fails,
            final(self).warns == old(self).warns,
            strings_view(final(self).lines@) == strings_view(old(self).lines@).push(tag@ + msg@),
    {
        let mut l = to_chars(tag);
        extend_str(&mut l, msg);
        let ghost before = self.lines@;
        self.lines.push(from_chars(&l));
        assert(strings_view(self.lines@) =~= strings_view(before).push(tag@ + msg@));
    }

    /// Record a passing check: `OK    <msg>`.
    pub fn ok(&mut self, msg: &str)
        ensures
            final(self).fails == old(self).fails,
            final(self).warns == old(self).warns,
            strings_view(final(self).lines@) == strings_view(old(self).lines@).push("OK    "@ + msg@),
    {
        self.push_line("OK    ", msg);
    }

    /// Record a warning: `WARN  <msg>`.
    pub fn warn(&mut self, msg: &str)
        requires
            old(self).warns < usize::MAX,
        ensures
            final(self).fails == old(self).fails,
            final(self).warns == old(self).warns + 1,
            strings_view(final(self).lines@) == strings_view(old(self).lines@).push("WARN  "@ + msg@),
    {
        self.warns += 1;
        self.push_line("WARN  ", msg);
    }

    /// Record a failure: `FAIL  <msg>`.
    pub fn fail(&mut self, msg: &str)
        requires
            old(self).fails < usize::MAX,
        ensures
            final(self).fails == old(self).fails + 1,
            final(self).warns == old(self).warns,
            strings_view(final(self).lines@) == strings_view(old(self).lines@).push("FAIL  "@ + msg@),
    {
        self.fails += 1;
        self.push_line("FAIL  ", msg);
    }

    /// Record a note that counts for nothing: `INFO  <msg>`.
    pub fn info(&mut self, msg: &str)
        ensures
            final(self).fails == old(self).fails,
            final(self).warns == old(self).warns,
            strings_view(final(self).lines@) == strings_view(old(self).lines@).push("INFO  "@ + msg@),
    {
        self.push_line("INFO  ", msg);
    }

    /// The closing line, and whether doctor exits with failure (only
    /// failures do; warnings do not).
    pub fn summary(&self) -> (r: (String, bool))
        ensures
            r.0@ == (if self.fails > 0 || self.warns > 0 {
                "doctor: "@ + decimal(self.fails as nat) + " FAIL, "@ + decimal(self.warns as nat)
                    + " WARN"@
            } else {
                "doctor: all checks passed"@
            }),
            r.1 == (self.fails > 0),
    {
        let line = if self.fails > 0 || self.warns > 0 {
            let mut out = to_chars("doctor: ");
            push_decimal(&mut out, self.fails as u64);
            extend_str(&mut out, " FAIL, ");
            push_decimal(&mut out, self.warns as u64);
            extend_str(&mut out, " WARN");
            from_chars(&out)
        } else {
            from_chars(&to_chars("doctor: all checks passed"))
        };
        (line, self.fails > 0)
    }
}

// ---------------------------------------------------------------------------
// Executables on PATH
// ---------------------------------------------------------------------------

/// The first whitespace-separated token that is not an `=` assignment.
pub open spec fn first_non_assignment(toks: Seq<Seq<char>>) -> Option<Seq<char>>
    decreases toks.len(),
{
    if toks.len() == 0 {
        None
    } else if !toks[0].contains('=') {
        Some(toks[0])
    } else {
        first_non_assignment(toks.drop_first())
    }
}

pub open spec fn spec_extract_argv0(command: Seq<char>) -> Option<Seq<char>> {
    first_non_assignment(tokens_by(command, true))
}

/// The program a shell command runs: its first ASCII-whitespace-separated
/// token that is not a `VAR=value` prefix.
pub fn extract_argv0(command: &str) -> (r: Option<String>)
    ensures
        match r {
            Some(a) => spec_extract_argv0(command@) == Some(a@),
            None => spec_extract_argv0(command@) is None,
        },
{
    let toks = split_tokens(&to_chars(command), true);
    let n = toks.len();
    let mut i: usize = 0;
    assert(views(toks@).skip(0) =~= views(toks@));
    while i < n
        invariant
            n == toks@.len(),
            i <= n,
            views(toks@) == tokens_by(command@, true),
            spec_extract_argv0(command@) == first_non_assignment(views(toks@).skip(i as int)),
        decreases n - i,
    {
        assert(views(toks@).skip(i as int)[0] == toks@[i as int]@);
        assert(views(toks@).skip(i as int).drop_first() =~= views(toks@).skip(i + 1));
        let t = &toks[i];
        let m = t.len();
        let mut has_eq = false;
        for j in 0..m
            invariant
                m == t@.len(),
                has_eq == (exists|q: int| 0 <= q < j && t@[q] == '='),
        {
            if t[j] == '=' {
                has_eq = true;
            }
        }
        assert(has_eq == t@.contains('='));
        if !has_eq {
            return Some(from_chars(t));
        }
        i += 1;
    }
    None
}

/// What doctor looks up on `PATH` for a check, and what it reports.
#[derive(Clone, Debug, PartialEq, Eq)]
pub enum PathCheck {
    /// Look up `binary`; report `found` or `missing` as the lookup goes.
    Probe { binary: String, found: String, missing: String },
    /// The command names no program.
    Unknown(String),
    /// Nothing to look up for this kind of check.
    Skip,
}

pub open spec fn found_msg(name: Seq<char>, bin: Seq<char>) -> Seq<char> {
    "path["@ + name + "]: `"@ + bin + "` found in PATH"@
}

/// The `PATH` check of one configured check: the program of a shell
/// command, or `pre-commit` for the pre-commit recipe.
pub fn path_check(check: &CheckConfig) -> (r: PathCheck)
    ensures
        match check.source {
            CheckSourceConfig::Shell { command } => match spec_extract_argv0(command@) {
                Some(a) => r matches PathCheck::Probe { binary, found, missing } && binary@ == a
                    && found@ == found_msg(check.name@, a) && missing@ == "path["@ + check.name@
                    + "]: `"@ + a + "` not found in PATH (command: `"@ + command@ + "`)"@,
                None => r matches PathCheck::Unknown(m) && m@ == "path["@ + check.name@
                    + "]: could not determine executable from command `"@ + command@ + "`"@,
            },
            CheckSourceConfig::PreCommit { .. } => r matches PathCheck::Probe { binary, found, missing }
                && binary@ == "pre-commit"@ && found@ == found_msg(check.name@, "pre-commit"@)
                && missing@ == "path["@ + check.name@
                + "]: `pre-commit` not found in PATH (recipe: pre_commit)"@,
            _ => r is Skip,
        },
{
    proof {
        reveal_strlit("pre-commit");
    }
    match &check.source {
        CheckSourceConfig::Shell { command } => match extract_argv0(command.as_str()) {
            Some(a) => {
                let mut found = to_chars("path[");
                extend_str(&mut found, check.name.as_str());
                extend_str(&mut found, "]: `");
                extend_str(&mut found, a.as_str());
                extend_str(&mut found, "` found in PATH");
                let mut missing = to_chars("path[");
                extend_str(&mut missing, check.name.as_str());
                extend_str(&mut missing, "]: `");
                extend_str(&mut missing, a.as_str());
                extend_str(&mut missing, "` not found in PATH (command: `");
                extend_str(&mut missing, command.as_str());
                extend_str(&mut missing, "`)");
                PathCheck::Probe { binary: a, found: from_chars(&found), missing: from_chars(&missing) }
            },
            None => {
                let mut m = to_chars("path[");
                extend_str(&mut m, check.name.as_str());
                extend_str(&mut m, "]: could not determine executable from command `");
                extend_str(&mut m, command.as_str());
                extend_str(&mut m, "`");
                PathCheck::Unknown(from_chars(&m))
            },
        },
        CheckSourceConfig::PreCommit { .. } => {
            let mut found = to_chars("path[");
            extend_str(&mut found, check.name.as_str());
            extend_str(&mut found, "]: `");
            extend_str(&mut found, "pre-commit");
            extend_str(&mut found, "` found in PATH");
            let mut missing = to_chars("path[");
            extend_str(&mut missing, check.name.as_str());
            extend_str(&mut missing, "]: `pre-commit` not found in PATH (recipe: pre_commit)");
            PathCheck::Probe {
                binary: from_chars(&to_chars("pre-commit")),
                found: from_chars(&found),
                missing: from_chars(&missing),
            }
        },
        _ => PathCheck::Skip,
    }
}

// ---------------------------------------------------------------------------
// Agent settings file
// ---------------------------------------------------------------------------

pub open spec fn entry_has_command(hooks: Seq<JsonValue>, command: Seq<char>) -> bool {
    exists|i: int| 0 <= i < hooks.len() && str_of(json_get(#[trigger] hooks[i], "command"@)) == Some(command)
}

pub open spec fn is_bash_entry_with(entry: JsonValue, command: Seq<char>) -> bool {
    str_of(json_get(entry, "matcher"@)) == Some("Bash"@) && match array_of(json_get(entry, "hooks"@)) {
        Some(inner) => entry_has_command(inner, command),
        None => false,
    }
}

pub open spec fn spec_settings_has_hook_entry(root: JsonValue, command: Seq<char>) -> bool {
    match array_of(get_in(json_get(root, "hooks"@), "PreToolUse"@)) {
        Some(entries) => exists|i: int| 0 <= i < entries.len() && is_bash_entry_with(#[trigger] entries[i], command),
        None => false,
    }
}

fn str_field<'a>(v: &'a JsonValue, key: &str) -> (r: Option<&'a str>)
    ensures
        match r {
            Some(s) => str_of(json_get(*v, key@)) == Some(s@),
            None => str_of(json_get(*v, key@)) is None,
        },
{
    match v.get(key) {
        Some(x) => x.as_str(),
        None => None,
    }
}

fn bash_entry_with(entry: &JsonValue, command: &str) -> (r: bool)
    ensures
        r == is_bash_entry_with(*entry, command@),
{
    let matcher_is_bash = match str_field(entry, "matcher") {
        Some(m) => str_eq(m, "Bash"),
        None => false,
    };
    if !matcher_is_bash {
        return false;
    }
    let inner = match entry.get("hooks") {
        Some(h) => h.as_array(),
        None => None,
    };
    match inner {
        Some(inner) => {
            let n = inner.len();
            for i in 0..n
                invariant
                    n == inner@.len(),
                    str_of(json_get(*entry, "matcher"@)) == Some("Bash"@),
                    array_of(json_get(*entry, "hooks"@)) == Some(inner@),
                    forall|k: int| 0 <= k < i ==> str_of(json_get(#[trigger] inner@[k], "command"@)) != Some(command@),
            {
                let c = match str_field(&inner[i], "command") {
                    Some(c) => str_eq(c, command),
                    None => false,
                };
                if c {
                    assert(str_of(json_get(inner@[i as int], "command"@)) == Some(command@));
                    return true;
                }
            }
            false
        },
        None => false,
    }
}

/// Whether an agent `settings.json` registers the klasp hook: a
/// `hooks.PreToolUse` entry matching `Bash` whose hooks include
/// `command`.
pub fn settings_has_hook_entry(root: &JsonValue, command: &str) -> (r: bool)
    ensures
        r == spec_settings_has_hook_entry(*root, command@),
{
    let entries = match root.get("hooks") {
        Some(h) => match h.get("PreToolUse") {
            Some(p) => p.as_array(),
            None => None,
        },
        None => None,
    };
    match entries {
        Some(entries) => {
            let n = entries.len();
            for i in 0..n
                invariant
                    n == entries@.len(),
                    array_of(get_in(json_get(*root, "hooks"@), "PreToolUse"@)) == Some(entries@),
                    forall|k: int| 0 <= k < i ==> !is_bash_entry_with(#[trigger] entries@[k], command@),
            {
                if bash_entry_with(&entries[i], command) {
                    assert(is_bash_entry_with(entries@[i as int], command@));
                    let ghost es = array_of(get_in(json_get(*root, "hooks"@), "PreToolUse"@))->0;
                    assert(es == entries@);
                    assert(is_bash_entry_with(es[i as int], command@));
                    return true;
                }
            }
            false
        },
        None => false,
    }
}

// ---------------------------------------------------------------------------
// What each check reports
// ---------------------------------------------------------------------------

/// Why `klasp.toml` could not be loaded.
#[derive(Clone, Debug, PartialEq, Eq)]
pub enum ConfigLoadError {
    /// No `klasp.toml` at any of these paths.
    NotFound { searched: Vec<String> },
    /// The file declares a version this klasp does not read.
    Version { found: u32, supported: u32 },
    /// The file is not valid TOML for the schema.
    Parse(String),
    /// The file could not be read.
    Io { path: String, source: String },
    /// Any other error, by its message.
    Unexpected(String),
}

/// The `klasp.toml` schema version this klasp reads.
pub const SUPPORTED_CONFIG_VERSION: u32 = 1;

/// A config declaring `version = found` is read only when it is the
/// supported version; otherwise loading fails with both versions named.
pub fn check_config_version(found: u32) -> (r: Result<(), ConfigLoadError>)
    ensures
        found == SUPPORTED_CONFIG_VERSION ==> r is Ok,
        found != SUPPORTED_CONFIG_VERSION ==> r == Err::<(), ConfigLoadError>(
            ConfigLoadError::Version { found, supported: SUPPORTED_CONFIG_VERSION },
        ),
{
    if found == SUPPORTED_CONFIG_VERSION {
        Ok(())
    } else {
        Err(ConfigLoadError::Version { found, supported: SUPPORTED_CONFIG_VERSION })
    }
}

pub open spec fn config_line(r: Result<(), ConfigLoadError>) -> Seq<char> {
    match r {
        Ok(()) => "OK    "@ + "config: klasp.toml loaded OK"@,
        Err(ConfigLoadError::NotFound { searched }) => "FAIL  "@ + ("config: klasp.toml not found (searched: "@
            + join_sep(strings_view(searched@), ", "@) + ")"@),
        Err(ConfigLoadError::Version { found, supported }) => "FAIL  "@ + (
        "config: version mismatch — file declares version = "@ + decimal(found as nat)
            + ", but this klasp understands version = "@ + decimal(supported as nat)),
        Err(ConfigLoadError::Parse(e)) => "FAIL  "@ + ("config: klasp.toml parse error: "@ + e@),
        Err(ConfigLoadError::Io { path, source }) => "FAIL  "@ + ("config: I/O error reading "@ + path@ + ": "@
            + source@),
        Err(ConfigLoadError::Unexpected(e)) => "FAIL  "@ + ("config: unexpected error: "@ + e@),
    }
}

pub open spec fn hook_current(actual: Option<Seq<char>>, expected: Seq<char>) -> bool {
    actual == Some(expected)
}

pub open spec fn hook_line(agent: Seq<char>, hook_path: Seq<char>, actual: Option<Seq<char>>, expected: Seq<char>) -> Seq<char> {
    match actual {
        None => "FAIL  "@ + ("hook["@ + agent + "]: "@ + hook_path + " not found; re-run `klasp install`"@),
        Some(a) => if a == expected {
            "OK    "@ + ("hook["@ + agent + "]: current (schema v"@ + decimal(GATE_SCHEMA_VERSION as nat) + ")"@)
        } else {
            "FAIL  "@ + ("hook["@ + agent + "]: schema drift detected (re-run `klasp install`)"@)
        },
    }
}

/// The agent whose settings file doctor reads as JSON.
pub open spec fn claude_agent_id() -> Seq<char> {
    "claude_code"@
}

pub open spec fn settings_ok(raw: Option<Seq<char>>, hook_command: Seq<char>) -> bool {
    match raw {
        Some(text) => match json_parse_result(text) {
            Ok(root) => spec_settings_has_hook_entry(root, hook_command),
            Err(_) => false,
        },
        None => false,
    }
}

pub open spec fn settings_line(
    agent: Seq<char>,
    settings_path: Seq<char>,
    raw: Option<Seq<char>>,
    hook_command: Seq<char>,
) -> Seq<char> {
    match raw {
        None => "FAIL  "@ + ("settings["@ + agent + "]: "@ + settings_path + " not found; re-run `klasp install`"@),
        Some(text) => match json_parse_result(text) {
            Err(e) => "FAIL  "@ + ("settings["@ + agent + "]: failed to parse "@ + settings_path + " as JSON: "@ + e),
            Ok(root) => if spec_settings_has_hook_entry(root, hook_command) {
                "OK    "@ + ("settings["@ + agent + "]: hook entry present"@)
            } else {
                "FAIL  "@ + ("settings["@ + agent + "]: klasp hook entry missing; re-run `klasp install`"@)
            },
        },
    }
}

pub open spec fn opt_str(o: Option<&str>) -> Option<Seq<char>> {
    match o {
        Some(a) => Some(a@),
        None => None,
    }
}

impl Counters {
    /// Check 1: how loading `klasp.toml` went.
    pub fn record_config(&mut self, loaded: &Result<(), ConfigLoadError>)
        requires
            old(self).fails < usize::MAX,
        ensures
            strings_view(final(self).lines@) == strings_view(old(self).lines@).push(config_line(*loaded)),
            final(self).warns == old(self).warns,
            final(self).fails == old(self).fails + if loaded is Ok { 0int } else { 1int },
    {
        match loaded {
            Ok(()) => self.ok("config: klasp.toml loaded OK"),
            Err(ConfigLoadError::NotFound { searched }) => {
                let mut m = to_chars("config: klasp.toml not found (searched: ");
                extend_str(&mut m, join_sep_exec(searched, ", ").as_str());
                extend_str(&mut m, ")");
                self.fail(from_chars(&m).as_str());
            },
            Err(ConfigLoadError::Version { found, supported }) => {
                let mut m = to_chars("config: version mismatch — file declares version = ");
                push_decimal(&mut m, *found as u64);
                extend_str(&mut m, ", but this klasp understands version = ");
                push_decimal(&mut m, *supported as u64);
                self.fail(from_chars(&m).as_str());
            },
            Err(ConfigLoadError::Parse(e)) => {
                let mut m = to_chars("config: klasp.toml parse error: ");
                extend_str(&mut m, e.as_str());
                self.fail(from_chars(&m).as_str());
            },
            Err(ConfigLoadError::Io { path, source }) => {
                let mut m = to_chars("config: I/O error reading ");
                extend_str(&mut m, path.as_str());
                extend_str(&mut m, ": ");
                extend_str(&mut m, source.as_str());
                self.fail(from_chars(&m).as_str());
            },
            Err(ConfigLoadError::Unexpected(e)) => {
                let mut m = to_chars("config: unexpected error: ");
                extend_str(&mut m, e.as_str());
                self.fail(from_chars(&m).as_str());
            },
        }
        proof {
            let l = config_line(*loaded);
            assert(strings_view(self.lines@).last() =~= l);
        }
    }

    /// Check 2: the installed hook script against a fresh rendering
    /// (`actual` is `None` when the file could not be read).
    pub fn record_hook(&mut self, agent: &str, hook_path: &str, actual: Option<&str>, expected: &str)
        requires
            old(self).fails < usize::MAX,
        ensures
            strings_view(final(self).lines@) == strings_view(old(self).lines@).push(
                hook_line(agent@, hook_path@, opt_str(actual), expected@),
            ),
            final(self).warns == old(self).warns,
            final(self).fails == old(self).fails + if hook_current(opt_str(actual), expected@) {
                0int
            } else {
                1int
            },
    {
        match actual {
            None => {
                let mut m = to_chars("hook[");
                extend_str(&mut m, agent);
                extend_str(&mut m, "]: ");
                extend_str(&mut m, hook_path);
                extend_str(&mut m, " not found; re-run `klasp install`");
                self.fail(from_chars(&m).as_str());
            },
            Some(a) => {
                if str_eq(a, expected) {
                    let mut m = to_chars("hook[");
                    extend_str(&mut m, agent);
                    extend_str(&mut m, "]: current (schema v");
                    push_decimal(&mut m, GATE_SCHEMA_VERSION as u64);
                    extend_str(&mut m, ")");
                    self.ok(from_chars(&m).as_str());
                } else {
                    let mut m = to_chars("hook[");
                    extend_str(&mut m, agent);
                    extend_str(&mut m, "]: schema drift detected (re-run `klasp install`)");
                    self.fail(from_chars(&m).as_str());
                }
            },
        }
        proof {
            let l = hook_line(agent@, hook_path@, opt_str(actual), expected@);
            assert(strings_view(self.lines@).last() =~= l);
        }
    }

    /// Check 3: the agent's settings file (`raw` is `None` when it could
    /// not be read) registers `hook_command`. Only the settings of the
    /// `claude_code` agent are JSON; other agents are left alone.
    pub fn record_settings(&mut self, agent: &str, settings_path: &str, raw: Option<&str>, hook_command: &str)
        requires
            old(self).fails < usize::MAX,
        ensures
            agent@ != claude_agent_id() ==> *final(self) == *old(self),
            agent@ == claude_agent_id() ==> {
                &&& strings_view(final(self).lines@) == strings_view(old(self).lines@).push(
                    settings_line(agent@, settings_path@, opt_str(raw), hook_command@),
                )
                &&& final(self).warns == old(self).warns
                &&& final(self).fails == old(self).fails + if settings_ok(opt_str(raw), hook_command@) {
                    0int
                } else {
                    1int
                }
            },
    {
        if !str_eq(agent, "claude_code") {
            return;
        }
        proof {
            reveal_strlit("claude_code");
        }
        let ghost l = settings_line(agent@, settings_path@, opt_str(raw), hook_command@);
        match raw {
            None => {
                let mut m = to_chars("settings[");
                extend_str(&mut m, agent);
                extend_str(&mut m, "]: ");
                extend_str(&mut m, settings_path);
                extend_str(&mut m, " not found; re-run `klasp install`");
                self.fail(from_chars(&m).as_str());
            },
            Some(text) => match parse_json_result(text) {
                Err(e) => {
                    let mut m = to_chars("settings[");
                    extend_str(&mut m, agent);
                    extend_str(&mut m, "]: failed to parse ");
                    extend_str(&mut m, settings_path);
                    extend_str(&mut m, " as JSON: ");
                    extend_str(&mut m, e.as_str());
                    self.fail(from_chars(&m).as_str());
                },
                Ok(root) => {
                    if settings_has_hook_entry(&root, hook_command) {
                        let mut m = to_chars("settings[");
                        extend_str(&mut m, agent);
                        extend_str(&mut m, "]: hook entry present");
                        self.ok(from_chars(&m).as_str());
                    } else {
                        let mut m = to_chars("settings[");
                        extend_str(&mut m, agent);
                        extend_str(&mut m, "]: klasp hook entry missing; re-run `klasp install`");
                        self.fail(from_chars(&m).as_str());
                    }
                },
            },
        }
        proof {
            assert(strings_view(self.lines@).last() =~= l);
        }
    }

    /// A surface doctor did not find.
    pub fn record_undetected(&mut self, agent: &str)
        ensures
            strings_view(final(self).lines@) == strings_view(old(self).lines@).push(
                "INFO  "@ + agent@ + ": surface not detected, skipping"@,
            ),
            final(self).warns == old(self).warns,
            final(self).fails == old(self).fails,
    {
        let mut m = to_chars(agent);
        extend_str(&mut m, ": surface not detected, skipping");
        self.info(from_chars(&m).as_str());
        assert(strings_view(self.lines@).last() =~= "INFO  "@ + agent@ + ": surface not detected, skipping"@);
    }

    /// No agent surface at all.
    pub fn record_no_surfaces(&mut self)
        requires
            old(self).warns < usize::MAX,
        ensures
            strings_view(final(self).lines@) == strings_view(old(self).lines@).push(
                "WARN  "@ + "no agent surfaces detected; run `klasp install --force` if needed"@,
            ),
            final(self).warns == old(self).warns + 1,
            final(self).fails == old(self).fails,
    {
        self.warn("no agent surfaces detected; run `klasp install --force` if needed");
    }

    /// Check 4: the `PATH` lookup of one check, `found` being whether the
    /// program was on `PATH`. Missing programs warn, never fail.
    pub fn record_path(&mut self, check: &PathCheck, found: bool)
        requires
            old(self).warns < usize::MAX,
        ensures
            final(self).fails == old(self).fails,
            match *check {
                PathCheck::Probe { found: f, missing: m, .. } => if found {
                    strings_view(final(self).lines@) == strings_view(old(self).lines@).push("OK    "@ + f@)
                        && final(self).warns == old(self).warns
                } else {
                    strings_view(final(self).lines@) == strings_view(old(self).lines@).push("WARN  "@ + m@)
                        && final(self).warns == old(self).warns + 1
                },
                PathCheck::Unknown(m) => strings_view(final(self).lines@) == strings_view(old(self).lines@).push(
                    "WARN  "@ + m@,
                ) && final(self).warns == old(self).warns + 1,
                PathCheck::Skip => *final(self) == *old(self),
            },
    {
        match check {
            PathCheck::Probe { found: f, missing: m, .. } => {
                if found {
                    self.ok(f.as_str());
                } else {
                    self.warn(m.as_str());
                }
            },
            PathCheck::Unknown(m) => self.warn(m.as_str()),
            PathCheck::Skip => {},
        }
    }
}

// ---------------------------------------------------------------------------
// The shorter report `klasp setup` prints after installing
// ---------------------------------------------------------------------------

pub open spec fn setup_config_line(r: Result<(), ConfigLoadError>, message: Seq<char>) -> Seq<char> {
    match r {
        Ok(()) => "OK    "@ + "config: klasp.toml loaded OK"@,
        Err(ConfigLoadError::NotFound { searched }) => "FAIL  "@ + ("config: klasp.toml not found (searched: "@
            + join_sep(strings_view(searched@), ", "@) + ")"@),
        Err(_) => "FAIL  "@ + ("config: "@ + message),
    }
}

pub open spec fn setup_hook_line(agent: Seq<char>, hook_path: Seq<char>, actual: Option<Seq<char>>, expected: Seq<char>) -> Seq<char> {
    match actual {
        None => "FAIL  "@ + ("hook["@ + agent + "]: "@ + hook_path + " not found; re-run `klasp install`"@),
        Some(a) => if a == expected {
            "OK    "@ + ("hook["@ + agent + "]: current (schema v"@ + decimal(GATE_SCHEMA_VERSION as nat) + ")"@)
        } else {
            "FAIL  "@ + ("hook["@ + agent + "]: schema drift (re-run `klasp install`)"@)
        },
    }
}

pub open spec fn setup_settings_line(settings_path: Seq<char>, raw: Option<Seq<char>>, hook_command: Seq<char>) -> Seq<char> {
    let agent = claude_agent_id();
    match raw {
        None => "FAIL  "@ + ("settings["@ + agent + "]: "@ + settings_path + " not found; re-run `klasp install`"@),
        Some(text) => match json_parse_result(text) {
            Err(e) => "FAIL  "@ + ("settings["@ + agent + "]: parse error: "@ + e),
            Ok(root) => if spec_settings_has_hook_entry(root, hook_command) {
                "OK    "@ + ("settings["@ + agent + "]: hook entry present"@)
            } else {
                "FAIL  "@ + ("settings["@ + agent + "]: hook entry missing; re-run `klasp install`"@)
            },
        },
    }
}

impl Counters {
    /// Setup's config line: a missing file lists where it looked; any
    /// other error is shown by its `message`.
    pub fn record_setup_config(&mut self, loaded: &Result<(), ConfigLoadError>, message: &str)
        requires
            old(self).fails < usize::MAX,
        ensures
            strings_view(final(self).lines@) == strings_view(old(self).lines@).push(
                setup_config_line(*loaded, message@),
            ),
            final(self).warns == old(self).warns,
            final(self).fails == old(self).fails + if loaded is Ok { 0int } else { 1int },
    {
        match loaded {
            Ok(()) => self.ok("config: klasp.toml loaded OK"),
            Err(ConfigLoadError::NotFound { searched }) => {
                let mut m = to_chars("config: klasp.toml not found (searched: ");
                extend_str(&mut m, join_sep_exec(searched, ", ").as_str());
                extend_str(&mut m, ")");
                self.fail(from_chars(&m).as_str());
            },
            Err(_) => {
                let mut m = to_chars("config: ");
                extend_str(&mut m, message);
                self.fail(from_chars(&m).as_str());
            },
        }
        proof {
            assert(strings_view(self.lines@).last() =~= setup_config_line(*loaded, message@));
        }
    }

    /// A registered agent that `[gate].agents` does not list.
    pub fn record_not_declared(&mut self, agent: &str)
        ensures
            strings_view(final(self).lines@) == strings_view(old(self).lines@).push(
                "INFO  "@ + (agent@ + ": not in [gate].agents, skipping"@),
            ),
            final(self).warns == old(self).warns,
            final(self).fails == old(self).fails,
    {
        let mut m = to_chars(agent);
        extend_str(&mut m, ": not in [gate].agents, skipping");
        self.info(from_chars(&m).as_str());
    }

    /// Setup's hook line (same check as [`Counters::record_hook`]).
    pub fn record_setup_hook(&mut self, agent: &str, hook_path: &str, actual: Option<&str>, expected: &str)
        requires
            old(self).fails < usize::MAX,
        ensures
            strings_view(final(self).lines@) == strings_view(old(self).lines@).push(
                setup_hook_line(agent@, hook_path@, opt_str(actual), expected@),
            ),
            final(self).warns == old(self).warns,
            final(self).fails == old(self).fails + if hook_current(opt_str(actual), expected@) {
                0int
            } else {
                1int
            },
    {
        match actual {
            Some(a) => {
                if str_eq(a, expected) {
                    self.record_hook(agent, hook_path, actual, expected);
                } else {
                    let mut m = to_chars("hook[");
                    extend_str(&mut m, agent);
                    extend_str(&mut m, "]: schema drift (re-run `klasp install`)");
                    self.fail(from_chars(&m).as_str());
                    assert(strings_view(self.lines@).last() =~= setup_hook_line(
                        agent@,
                        hook_path@,
                        opt_str(actual),
                        expected@,
                    ));
                }
            },
            None => self.record_hook(agent, hook_path, actual, expected),
        }
    }

    /// Setup's settings line for the `claude_code` agent.
    pub fn record_setup_settings(&mut self, settings_path: &str, raw: Option<&str>, hook_command: &str)
        requires
            old(self).fails < usize::MAX,
        ensures
            strings_view(final(self).lines@) == strings_view(old(self).lines@).push(
                setup_settings_line(settings_path@, opt_str(raw), hook_command@),
            ),
            final(self).warns == old(self).warns,
            final(self).fails == old(self).fails + if settings_ok(opt_str(raw), hook_command@) {
                0int
            } else {
                1int
            },
    {
        let mut m = to_chars("settings[");
        extend_str(&mut m, "claude_code");
        match raw {
            Some(text) => match parse_json_result(text) {
                Err(e) => {
                    extend_str(&mut m, "]: parse error: ");
                    extend_str(&mut m, e.as_str());
                    self.fail(from_chars(&m).as_str());
                },
                Ok(root) => {
                    if settings_has_hook_entry(&root, hook_command) {
                        extend_str(&mut m, "]: hook entry present");
                        self.ok(from_chars(&m).as_str());
                    } else {
                        extend_str(&mut m, "]: hook entry missing; re-run `klasp install`");
                        self.fail(from_chars(&m).as_str());
                    }
                },
            },
            None => {
                extend_str(&mut m, "]: ");
                extend_str(&mut m, settings_path);
                extend_str(&mut m, " not found; re-run `klasp install`");
                self.fail(from_chars(&m).as_str());
            },
        }
        proof {
            assert(strings_view(self.lines@).last() =~= setup_settings_line(settings_path@, opt_str(raw), hook_command@));
        }
    }

    /// Setup's `PATH` line for a shell check whose program is `argv0`;
    /// nothing when the command names no program.
    pub fn record_setup_path(&mut self, check: &str, argv0: Option<&str>, found: bool)
        requires
            old(self).warns < usize::MAX,
        ensures
            final(self).fails == old(self).fails,
            match argv0 {
                None => *final(self) == *old(self),
                Some(a) => if found {
                    strings_view(final(self).lines@) == strings_view(old(self).lines@).push(
                        "OK    "@ + found_msg(check@, a@),
                    ) && final(self).warns == old(self).warns
                } else {
                    strings_view(final(self).lines@) == strings_view(old(self).lines@).push(
                        "WARN  "@ + ("path["@ + check@ + "]: `"@ + a@ + "` not found in PATH"@),
                    ) && final(self).warns == old(self).warns + 1
                },
            },
    {
        match argv0 {
            None => {},
            Some(a) => {
                let mut m = to_chars("path[");
                extend_str(&mut m, check);
                extend_str(&mut m, "]: `");
                extend_str(&mut m, a);
                if found {
                    extend_str(&mut m, "` found in PATH");
                    self.ok(from_chars(&m).as_str());
                    assert(strings_view(self.lines@).last() =~= "OK    "@ + found_msg(check@, a@));
                } else {
                    extend_str(&mut m, "` not found in PATH");
                    self.warn(from_chars(&m).as_str());
                    assert(strings_view(self.lines@).last() =~= "WARN  "@ + ("path["@ + check@ + "]: `"@ + a@
                        + "` not found in PATH"@));
                }
            },
        }
    }
}

} // verus!
