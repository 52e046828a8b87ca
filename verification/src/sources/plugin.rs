//! `type = "plugin"`: a third-party `klasp-plugin-<name>` binary speaking
//! the JSON plugin protocol. Finding the binary, its `--describe`
//! handshake and the `--gate` call are the caller's; this module names
//! the source and turns the plugin's answer into a verdict.

use vstd::prelude::*;

use crate::gate::event_name;
use crate::json::{
    compact_json, json_array, json_get, json_member, json_object, json_parse_result, json_str,
    json_view, parse_json, parse_json_result, parsed_json, to_compact_json, u64_of, JsonNumber,
    JsonNumberView, JsonValue, JsonView,
};
use crate::model::{
    findings_view, opt_view, CheckConfig, CheckSourceConfig, Finding, FindingView, GitEvent,
    Severity, Verdict, VerdictView,
};
use crate::text::{
    decimal, extend, extend_str, from_chars, parse_unsigned, parse_unsigned_exec, push_decimal,
    push_signed_decimal, signed_decimal, str_eq, to_chars, trim, trim_exec,
};

verus! {

/// Version of the plugin protocol this gate speaks.
pub const PLUGIN_PROTOCOL_VERSION: u32 = 0;

/// Prefix of a plugin's binary name on `$PATH`.
pub open spec fn plugin_bin_prefix() -> Seq<char> {
    "klasp-plugin-"@
}

/// A plugin's answer.
#[derive(Clone, Copy, Debug, PartialEq, Eq, Structural)]
pub enum PluginVerdict {
    Pass,
    Warn,
    Fail,
}

/// One finding as a plugin reports it.
#[derive(Clone, Debug, PartialEq, Eq)]
pub struct PluginFinding {
    pub severity: Severity,
    pub rule: String,
    pub file: Option<String>,
    pub line: Option<u32>,
    pub message: String,
}

/// What `<plugin> --gate` writes on stdout.
#[derive(Clone, Debug, PartialEq, Eq)]
pub struct PluginGateOutput {
    pub protocol_version: u32,
    pub verdict: PluginVerdict,
    pub findings: Vec<PluginFinding>,
}

pub open spec fn plugin_finding_view(f: PluginFinding) -> FindingView {
    FindingView {
        rule: f.rule@,
        message: f.message@,
        file: opt_view(f.file),
        line: f.line,
        severity: f.severity,
    }
}

/// The messages of `fs`, one per line.
pub open spec fn joined_messages(fs: Seq<FindingView>) -> Seq<char>
    decreases fs.len(),
{
    if fs.len() == 0 {
        Seq::empty()
    } else if fs.len() == 1 {
        fs[0].message
    } else {
        joined_messages(fs.drop_last()) + "\n"@ + fs.last().message
    }
}

pub open spec fn spec_convert_plugin_output(output: PluginGateOutput) -> VerdictView {
    let fs = output.findings@.map_values(|f: PluginFinding| plugin_finding_view(f));
    match output.verdict {
        PluginVerdict::Pass => VerdictView::Pass,
        PluginVerdict::Warn => VerdictView::Warn { findings: fs, message: None },
        PluginVerdict::Fail => VerdictView::Fail {
            findings: fs,
            message: if joined_messages(fs).len() == 0 {
                "plugin check failed"@
            } else {
                joined_messages(fs)
            },
        },
    }
}

/// The plugin's verdict with its findings; a failure's message is the
/// findings' messages, one per line (`plugin check failed` when that is
/// empty).
pub fn convert_plugin_output(output: PluginGateOutput) -> (r: Verdict)
    ensures
        r@ == spec_convert_plugin_output(output),
{
    let ghost fs = output.findings@.map_values(|f: PluginFinding| plugin_finding_view(f));
    let n = output.findings.len();
    let mut findings: Vec<Finding> = Vec::new();
    let mut message: Vec<char> = Vec::new();
    let mut i: usize = 0;
    while i < n
        invariant
            n == output.findings@.len(),
            i <= n,
            fs == output.findings@.map_values(|f: PluginFinding| plugin_finding_view(f)),
            findings_view(findings@) == fs.take(i as int),
            message@ == joined_messages(fs.take(i as int)),
        decreases n - i,
    {
        let pf = &output.findings[i];
        let f = Finding {
            rule: from_chars(&to_chars(pf.rule.as_str())),
            message: from_chars(&to_chars(pf.message.as_str())),
            file: match &pf.file {
                Some(s) => Some(from_chars(&to_chars(s.as_str()))),
                None => None,
            },
            line: pf.line,
            severity: pf.severity,
        };
        assert(f@ == fs[i as int]);
        if i > 0 {
            extend_str(&mut message, "\n");
        }
        extend_str(&mut message, pf.message.as_str());
        let ghost before = findings@;
        findings.push(f);
        assert(findings_view(findings@) =~= findings_view(before) + seq![f@]);
        assert(fs.take(i + 1) =~= fs.take(i as int) + seq![fs[i as int]]);
        assert(fs.take(i + 1).drop_last() =~= fs.take(i as int));
        if i == 0 {
            assert(message@ =~= joined_messages(fs.take(1)));
        }
        i += 1;
    }
    assert(fs.take(n as int) =~= fs);
    match output.verdict {
        PluginVerdict::Pass => Verdict::Pass,
        PluginVerdict::Warn => Verdict::Warn { findings, message: None },
        PluginVerdict::Fail => {
            let message = if message.len() == 0 {
                from_chars(&to_chars("plugin check failed"))
            } else {
                from_chars(&message)
            };
            Verdict::Fail { findings, message }
        },
    }
}

pub open spec fn spec_plugin_error_warn(plugin: Seq<char>, msg: Seq<char>) -> VerdictView {
    let text = "plugin `"@ + plugin + "`: "@ + msg;
    VerdictView::Warn {
        findings: seq![
            FindingView {
                rule: "plugin:"@ + plugin,
                message: text,
                file: None,
                line: None,
                severity: Severity::Warn,
            },
        ],
        message: Some(text),
    }
}

/// A plugin that cannot be run, or answers out of protocol, warns rather
/// than blocks: one `plugin:<name>` warning carrying the reason.
pub fn plugin_error_warn(plugin_name: &str, msg: &str) -> (r: Verdict)
    ensures
        r@ == spec_plugin_error_warn(plugin_name@, msg@),
{
    let mut text = to_chars("plugin `");
    extend_str(&mut text, plugin_name);
    extend_str(&mut text, "`: ");
    extend_str(&mut text, msg);
    let mut rule = to_chars("plugin:");
    extend_str(&mut rule, plugin_name);
    let f = Finding {
        rule: from_chars(&rule),
        message: from_chars(&text),
        file: None,
        line: None,
        severity: Severity::Warn,
    };
    let findings = vec![f];
    assert(findings_view(findings@) =~= seq![f@]);
    Verdict::Warn { findings, message: Some(from_chars(&text)) }
}

pub open spec fn spec_version_mismatch(stage: Seq<char>, found: u32) -> Seq<char> {
    stage + " reports protocol_version="@ + decimal(found as nat) + " but klasp supports only "@
        + decimal(PLUGIN_PROTOCOL_VERSION as nat)
}

pub open spec fn spec_gate_verdict(plugin: Seq<char>, output: PluginGateOutput) -> VerdictView {
    if output.protocol_version != PLUGIN_PROTOCOL_VERSION {
        spec_plugin_error_warn(plugin, spec_version_mismatch("--gate output"@, output.protocol_version))
    } else {
        spec_convert_plugin_output(output)
    }
}

fn version_mismatch(stage: &str, found: u32) -> (r: String)
    ensures
        r@ == spec_version_mismatch(stage@, found),
{
    let mut m = to_chars(stage);
    extend_str(&mut m, " reports protocol_version=");
    push_decimal(&mut m, found as u64);
    extend_str(&mut m, " but klasp supports only ");
    push_decimal(&mut m, PLUGIN_PROTOCOL_VERSION as u64);
    from_chars(&m)
}

/// The protocol version a plugin's `--describe` output declares (its
/// `protocol_version` member, a `u32`), or why the output is unusable.
pub open spec fn spec_describe_version(text: Seq<char>) -> Result<u32, Seq<char>> {
    match json_parse_result(text) {
        Err(e) => Err("--describe produced malformed JSON: "@ + e),
        Ok(v) => match u64_of(json_get(v, "protocol_version"@)) {
            Some(n) => if n <= u32::MAX {
                Ok(n as u32)
            } else {
                Err(missing_protocol_version())
            },
            None => Err(missing_protocol_version()),
        },
    }
}

pub open spec fn missing_protocol_version() -> Seq<char> {
    "--describe produced malformed JSON: no `protocol_version` that is a u32"@
}

/// Reads the protocol version out of `--describe` output.
pub fn describe_version(text: &str) -> (r: Result<u32, String>)
    ensures
        match r {
            Ok(v) => spec_describe_version(text@) == Ok::<u32, Seq<char>>(v),
            Err(m) => spec_describe_version(text@) == Err::<u32, Seq<char>>(m@),
        },
{
    match parse_json_result(text) {
        Err(e) => {
            let mut m = to_chars("--describe produced malformed JSON: ");
            extend_str(&mut m, e.as_str());
            Err(from_chars(&m))
        },
        Ok(v) => {
            let n = match v.get("protocol_version") {
                Some(p) => p.as_u64(),
                None => None,
            };
            match n {
                Some(n) => if n <= u32::MAX as u64 {
                    Ok(n as u32)
                } else {
                    Err(from_chars(&to_chars("--describe produced malformed JSON: no `protocol_version` that is a u32")))
                },
                None => Err(from_chars(&to_chars("--describe produced malformed JSON: no `protocol_version` that is a u32"))),
            }
        },
    }
}

/// Whether a plugin's `--describe` answer speaks this protocol; the
/// reason to skip the plugin when it does not.
pub fn check_describe(protocol_version: u32) -> (r: Result<(), String>)
    ensures
        protocol_version == PLUGIN_PROTOCOL_VERSION <==> r is Ok,
        r matches Err(m) ==> m@ == spec_version_mismatch("--describe"@, protocol_version),
{
    if protocol_version == PLUGIN_PROTOCOL_VERSION {
        Ok(())
    } else {
        Err(version_mismatch("--describe", protocol_version))
    }
}

/// The verdict for a plugin's `--gate` answer: its own verdict when it
/// speaks this protocol, else a warning that the verdict was rejected.
pub fn gate_verdict(plugin_name: &str, output: PluginGateOutput) -> (r: Verdict)
    ensures
        r@ == spec_gate_verdict(plugin_name@, output),
{
    if output.protocol_version != PLUGIN_PROTOCOL_VERSION {
        let m = version_mismatch("--gate output", output.protocol_version);
        plugin_error_warn(plugin_name, m.as_str())
    } else {
        convert_plugin_output(output)
    }
}

/// A check run by an external plugin binary.
#[derive(Debug)]
pub struct PluginSource {
    plugin_name: String,
    id: String,
}

impl PluginSource {
    pub closed spec fn spec_plugin_name(&self) -> Seq<char> {
        self.plugin_name@
    }

    pub closed spec fn spec_id(&self) -> Seq<char> {
        self.id@
    }

    #[verifier::type_invariant]
    closed spec fn id_is_prefixed(&self) -> bool {
        self.id@ == "plugin:"@ + self.plugin_name@
    }

    /// The source for plugin `plugin_name`; its id is `plugin:<name>`.
    pub fn new(plugin_name: &str) -> (r: PluginSource)
        ensures
            r.spec_plugin_name() == plugin_name@,
            r.spec_id() == "plugin:"@ + plugin_name@,
    {
        let mut id = to_chars("plugin:");
        extend_str(&mut id, plugin_name);
        PluginSource { plugin_name: from_chars(&to_chars(plugin_name)), id: from_chars(&id) }
    }

    /// `plugin:<name>`.
    pub fn source_id(&self) -> (r: &str)
        ensures
            r@ == self.spec_id(),
            r@ == "plugin:"@ + self.spec_plugin_name(),
    {
        proof {
            use_type_invariant(self);
        }
        self.id.as_str()
    }

    /// The plugin's name.
    pub fn plugin_name(&self) -> (r: &str)
        ensures
            r@ == self.spec_plugin_name(),
    {
        self.plugin_name.as_str()
    }

    /// `klasp-plugin-<name>`, the binary looked up on `$PATH`.
    pub fn binary_name(&self) -> (r: String)
        ensures
            r@ == plugin_bin_prefix() + self.spec_plugin_name(),
    {
        let mut b = to_chars("klasp-plugin-");
        extend_str(&mut b, self.plugin_name.as_str());
        from_chars(&b)
    }

    /// Claims the `type = "plugin"` checks naming this plugin.
    pub fn supports_config(&self, config: &CheckConfig) -> (r: bool)
        ensures
            r == (config.source is Plugin && config.source->Plugin_name@ == self.spec_plugin_name()),
    {
        match &config.source {
            CheckSourceConfig::Plugin { name, .. } => str_eq(name.as_str(), self.plugin_name.as_str()),
            _ => false,
        }
    }
}

/// Seconds a plugin may take, unless `KLASP_PLUGIN_TIMEOUT_SECS` says
/// otherwise.
pub const DEFAULT_PLUGIN_TIMEOUT_SECS: u64 = 60;

/// The plugin timeout from `KLASP_PLUGIN_TIMEOUT_SECS` (when set and a
/// `u64`), else the default.
pub fn plugin_timeout_secs(env_value: Option<&str>) -> (r: u64)
    ensures
        r == match env_value {
            Some(v) => match parse_unsigned(v@, u64::MAX as int) {
                Some(n) => n as u64,
                None => DEFAULT_PLUGIN_TIMEOUT_SECS,
            },
            None => DEFAULT_PLUGIN_TIMEOUT_SECS,
        },
{
    match env_value {
        Some(v) => match parse_unsigned_exec(&to_chars(v), u64::MAX) {
            Some(n) => n,
            None => DEFAULT_PLUGIN_TIMEOUT_SECS,
        },
        None => DEFAULT_PLUGIN_TIMEOUT_SECS,
    }
}

pub open spec fn spec_exit_error(code: Option<i32>, stderr: Seq<char>) -> Option<Seq<char>> {
    if code == Some(0i32) {
        None
    } else {
        Some(
            "exited with status "@ + match code {
                Some(c) => signed_decimal(c as int),
                None => "signal"@,
            } + if trim(stderr).len() == 0 {
                Seq::empty()
            } else {
                ": "@ + trim(stderr)
            },
        )
    }
}

/// Why a finished plugin process failed: `None` when it exited 0, else
/// its status (`signal` when it was killed) and its trimmed stderr.
pub fn plugin_exit_error(code: Option<i32>, stderr: &str) -> (r: Option<String>)
    ensures
        match r {
            Some(m) => spec_exit_error(code, stderr@) == Some(m@),
            None => spec_exit_error(code, stderr@) is None,
        },
{
    if code == Some(0i32) {
        return None;
    }
    let mut m = to_chars("exited with status ");
    match code {
        Some(c) => push_signed_decimal(&mut m, c),
        None => extend_str(&mut m, "signal"),
    }
    let t = trim_exec(&to_chars(stderr));
    if t.len() > 0 {
        extend_str(&mut m, ": ");
        extend(&mut m, &t);
    }
    Some(from_chars(&m))
}

/// A list of strings as a JSON array of strings.
pub open spec fn str_array(items: Seq<String>) -> JsonView {
    JsonView::Array(items.map_values(|x: String| JsonView::Str(x@)))
}

/// Members of the `config` object handed to a plugin: its name, its
/// `args`, and its `settings` when the check's table reads as JSON.
pub open spec fn plugin_config_members(plugin: Seq<char>, source: CheckSourceConfig) -> Seq<
    (Seq<char>, JsonView),
> {
    let (args, settings) = match source {
        CheckSourceConfig::Plugin { args, settings, .. } => (args@, settings),
        _ => (Seq::<String>::empty(), None),
    };
    let settings_doc = match settings {
        Some(text) => parsed_json(text@),
        None => None,
    };
    seq![("type"@, JsonView::Str(plugin)), ("args"@, str_array(args))] + match settings_doc {
        Some(doc) => seq![("settings"@, json_view(doc))],
        None => Seq::empty(),
    }
}

/// The document `<plugin> --gate` reads on stdin: the protocol version,
/// the trigger (event and staged files), the plugin's config, the repo
/// root and the base ref.
pub open spec fn spec_plugin_gate_input(
    plugin: Seq<char>,
    source: CheckSourceConfig,
    event: GitEvent,
    staged_files: Seq<String>,
    repo_root: Seq<char>,
    base_ref: Seq<char>,
) -> JsonView {
    JsonView::Object(
        seq![
            ("protocol_version"@, JsonView::Number(JsonNumberView::PosInt(PLUGIN_PROTOCOL_VERSION as u64))),
            ("trigger"@, JsonView::Object(
                seq![("event"@, JsonView::Str(event_name(event))), ("staged_files"@, str_array(staged_files))],
            )),
            ("config"@, JsonView::Object(plugin_config_members(plugin, source))),
            ("repo_root"@, JsonView::Str(repo_root)),
            ("base_ref"@, JsonView::Str(base_ref)),
        ],
    )
}

fn string_array(items: &Vec<String>) -> (r: JsonValue)
    ensures
        json_view(r) == str_array(items@),
{
    let mut out: Vec<JsonValue> = Vec::new();
    let mut i: usize = 0;
    while i < items.len()
        invariant
            i <= items.len(),
            out.len() == i,
            forall|k: int| 0 <= k < i ==> json_view(#[trigger] out@[k]) == JsonView::Str(items@[k]@),
        decreases items.len() - i,
    {
        out.push(json_str(items[i].as_str()));
        i += 1;
    }
    let ghost view = out@;
    let r = json_array(out);
    proof {
        assert(view.map_values(|v: JsonValue| json_view(v)) =~= items@.map_values(
            |x: String| JsonView::Str(x@),
        ));
    }
    r
}

/// The `--gate` input document for `plugin_name` running `source`, as
/// [`spec_plugin_gate_input`] lays it out.
pub fn plugin_gate_input(
    plugin_name: &str,
    source: &CheckSourceConfig,
    event: GitEvent,
    staged_files: &Vec<String>,
    repo_root: &str,
    base_ref: &str,
) -> (r: JsonValue)
    ensures
        json_view(r) == spec_plugin_gate_input(
            plugin_name@,
            *source,
            event,
            staged_files@,
            repo_root@,
            base_ref@,
        ),
{
    let empty: Vec<String> = Vec::new();
    let (args, settings) = match source {
        CheckSourceConfig::Plugin { args, settings, .. } => (args, settings),
        _ => (&empty, &None),
    };
    let mut config_members: Vec<(String, JsonValue)> = Vec::new();
    config_members.push(json_member("type", json_str(plugin_name)));
    config_members.push(json_member("args", string_array(args)));
    let settings_doc = match settings {
        Some(text) => parse_json(text.as_str()),
        None => None,
    };
    match settings_doc {
        Some(doc) => config_members.push(json_member("settings", doc)),
        None => {},
    }
    let ghost cm = config_members@;
    let config = json_object(config_members);
    proof {
        assert(cm.map_values(|e: (String, JsonValue)| (e.0@, json_view(e.1))) =~= plugin_config_members(
            plugin_name@,
            *source,
        ));
    }
    let event_text = match event {
        GitEvent::Commit => "commit",
        GitEvent::Push => "push",
    };
    let mut trigger_members: Vec<(String, JsonValue)> = Vec::new();
    trigger_members.push(json_member("event", json_str(event_text)));
    trigger_members.push(json_member("staged_files", string_array(staged_files)));
    let ghost tm = trigger_members@;
    let trigger = json_object(trigger_members);
    proof {
        assert(tm.map_values(|e: (String, JsonValue)| (e.0@, json_view(e.1))) =~= seq![
            ("event"@, JsonView::Str(event_name(event))),
            ("staged_files"@, str_array(staged_files@)),
        ]);
    }
    let mut members: Vec<(String, JsonValue)> = Vec::new();
    members.push(
        json_member("protocol_version", JsonValue::Number(JsonNumber::PosInt(PLUGIN_PROTOCOL_VERSION as u64))),
    );
    members.push(json_member("trigger", trigger));
    members.push(json_member("config", config));
    members.push(json_member("repo_root", json_str(repo_root)));
    members.push(json_member("base_ref", json_str(base_ref)));
    let ghost ms = members@;
    let r = json_object(members);
    proof {
        assert(ms.map_values(|e: (String, JsonValue)| (e.0@, json_view(e.1))) =~= seq![
            ("protocol_version"@, JsonView::Number(JsonNumberView::PosInt(PLUGIN_PROTOCOL_VERSION as u64))),
            ("trigger"@, JsonView::Object(
                seq![("event"@, JsonView::Str(event_name(event))), ("staged_files"@, str_array(staged_files@))],
            )),
            ("config"@, JsonView::Object(plugin_config_members(plugin_name@, *source))),
            ("repo_root"@, JsonView::Str(repo_root@)),
            ("base_ref"@, JsonView::Str(base_ref@)),
        ]);
    }
    r
}

/// What `<plugin> --gate` reads on stdin: that document as
/// `serde_json::to_string` prints it.
pub fn plugin_gate_input_json(
    plugin_name: &str,
    source: &CheckSourceConfig,
    event: GitEvent,
    staged_files: &Vec<String>,
    repo_root: &str,
    base_ref: &str,
) -> (r: String)
    ensures
        r@ == compact_json(
            spec_plugin_gate_input(plugin_name@, *source, event, staged_files@, repo_root@, base_ref@),
        ),
{
    let input = plugin_gate_input(plugin_name, source, event, staged_files, repo_root, base_ref);
    to_compact_json(&input)
}

} // verus!
