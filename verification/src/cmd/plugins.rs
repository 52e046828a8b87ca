//! `klasp plugins`: the listing of `klasp-plugin-*` binaries.

use vstd::prelude::*;

use crate::adopt::plan::strings_view;
use crate::sources::plugin::PLUGIN_PROTOCOL_VERSION;
use crate::text::{
    decimal, extend, extend_str, first_line, from_chars, parse_unsigned, parse_unsigned_exec,
    push_decimal, slice, starts_with, starts_with_str, str_eq, to_chars,
};

verus! {

/// Width of the NAME column.
pub const NAME_COL: usize = 24;

/// Width of the PROTOCOL column.
pub const PROTOCOL_COL: usize = 10;

pub open spec fn spec_fit_name(s: Seq<char>) -> Seq<char> {
    if s.len() > NAME_COL {
        s.take(NAME_COL - 1).push('…')
    } else {
        s
    }
}

/// A name cut to the NAME column: longer names keep their first 23
/// characters and end in `…`.
pub fn fit_name(s: &str) -> (r: String)
    ensures
        r@ == spec_fit_name(s@),
        r@.len() <= NAME_COL,
{
    let v = to_chars(s);
    if v.len() > NAME_COL {
        let mut t = slice(&v, 0, NAME_COL - 1);
        t.push('…');
        from_chars(&t)
    } else {
        from_chars(&v)
    }
}

/// `s` padded with spaces to `width` characters (`{:<width}`).
pub open spec fn pad_right(s: Seq<char>, width: nat) -> Seq<char> {
    if s.len() >= width {
        s
    } else {
        s + Seq::new((width - s.len()) as nat, |i: int| ' ')
    }
}

fn push_padded(out: &mut Vec<char>, s: &Vec<char>, width: usize)
    ensures
        final(out)@ == old(out)@ + pad_right(s@, width as nat),
{
    let ghost base = out@;
    extend(out, s);
    if s.len() >= width {
        return;
    }
    let mut k = s.len();
    assert(out@ =~= base + s@ + Seq::new(0nat, |i: int| ' '));
    while k < width
        invariant
            s@.len() <= k <= width,
            out@ == base + s@ + Seq::new((k - s@.len()) as nat, |i: int| ' '),
        decreases width - k,
    {
        out.push(' ');
        assert(Seq::new((k + 1 - s@.len()) as nat, |i: int| ' ') =~= Seq::new(
            (k - s@.len()) as nat,
            |i: int| ' ',
        ).push(' '));
        k += 1;
    }
}

pub open spec fn spec_list_row(name: Seq<char>, protocol: Seq<char>, status: Seq<char>) -> Seq<char> {
    pad_right(name, NAME_COL as nat) + " "@ + pad_right(protocol, PROTOCOL_COL as nat) + " "@ + status
}

/// One row of the listing: the name and protocol columns padded, then
/// the status.
pub fn list_row(name: &str, protocol: &str, status: &str) -> (r: String)
    ensures
        r@ == spec_list_row(name@, protocol@, status@),
{
    let mut out: Vec<char> = Vec::new();
    push_padded(&mut out, &to_chars(name), NAME_COL);
    extend_str(&mut out, " ");
    push_padded(&mut out, &to_chars(protocol), PROTOCOL_COL);
    extend_str(&mut out, " ");
    extend_str(&mut out, status);
    assert(out@ =~= spec_list_row(name@, protocol@, status@));
    from_chars(&out)
}

/// The header row.
pub fn list_header() -> (r: String)
    ensures
        r@ == spec_list_row("NAME"@, "PROTOCOL"@, "STATUS"@),
{
    list_row("NAME", "PROTOCOL", "STATUS")
}

/// What the listing says of one plugin.
#[derive(Clone, Debug, PartialEq, Eq)]
pub enum PluginStatus {
    /// On the disable list.
    Disabled,
    /// `--describe` answered with this protocol version.
    Described(u32),
    /// `--describe` failed for this reason.
    DescribeFailed(String),
}

pub open spec fn spec_plugin_row(name: Seq<char>, status: PluginStatus) -> Seq<char> {
    match status {
        PluginStatus::Disabled => spec_list_row(spec_fit_name(name), "—"@, "disabled"@),
        PluginStatus::Described(v) => spec_list_row(
            spec_fit_name(name),
            decimal(v as nat),
            if v == PLUGIN_PROTOCOL_VERSION {
                "enabled"@
            } else {
                "proto-mismatch (klasp speaks v"@ + decimal(PLUGIN_PROTOCOL_VERSION as nat) + ")"@
            },
        ),
        PluginStatus::DescribeFailed(reason) => spec_list_row(
            spec_fit_name(name),
            "—"@,
            "describe-failed: "@ + crate::text::first_line(reason@),
        ),
    }
}

/// The listing row of a plugin: `disabled`, `enabled` (or a protocol
/// mismatch) with its protocol version, or the first line of why
/// `--describe` failed.
pub fn plugin_row(name: &str, status: &PluginStatus) -> (r: String)
    ensures
        r@ == spec_plugin_row(name@, *status),
{
    let shown = fit_name(name);
    match status {
        PluginStatus::Disabled => list_row(shown.as_str(), "—", "disabled"),
        PluginStatus::Described(v) => {
            let mut proto: Vec<char> = Vec::new();
            push_decimal(&mut proto, *v as u64);
            assert(proto@ =~= decimal(*v as nat));
            let status_text = if *v == PLUGIN_PROTOCOL_VERSION {
                from_chars(&to_chars("enabled"))
            } else {
                let mut s = to_chars("proto-mismatch (klasp speaks v");
                push_decimal(&mut s, PLUGIN_PROTOCOL_VERSION as u64);
                extend_str(&mut s, ")");
                from_chars(&s)
            };
            list_row(shown.as_str(), from_chars(&proto).as_str(), status_text.as_str())
        },
        PluginStatus::DescribeFailed(reason) => {
            let mut s = to_chars("describe-failed: ");
            let r = to_chars(reason.as_str());
            let k = crate::text::find_char_exec(&r, '\n', 0);
            let line = if k < r.len() {
                let mut end = k;
                if end > 0 && r[end - 1] == '\r' {
                    end = end - 1;
                }
                slice(&r, 0, end)
            } else {
                slice(&r, 0, r.len())
            };
            assert(line@ =~= crate::text::first_line(reason@));
            extend(&mut s, &line);
            list_row(shown.as_str(), "—", from_chars(&s).as_str())
        },
    }
}

pub open spec fn plugin_prefix() -> Seq<char> {
    "klasp-plugin-"@
}

pub open spec fn spec_plugin_name_of(file_name: Seq<char>) -> Seq<char> {
    if starts_with(file_name, plugin_prefix()) {
        file_name.skip(plugin_prefix().len() as int)
    } else {
        file_name
    }
}

/// A plugin's name from its binary's file name (`klasp-plugin-` dropped).
pub fn plugin_name_of(file_name: &str) -> (r: String)
    ensures
        r@ == spec_plugin_name_of(file_name@),
{
    proof {
        reveal_strlit("klasp-plugin-");
    }
    let f = to_chars(file_name);
    if starts_with_str(&f, "klasp-plugin-") {
        let t = slice(&f, 13, f.len());
        assert(t@ =~= f@.skip(13));
        from_chars(&t)
    } else {
        from_chars(&f)
    }
}

/// The binaries among the first `n` `(path, file name)` pairs of a `PATH`
/// walk that are plugins, each file name once (the first one found wins).
pub open spec fn plugins_upto(entries: Seq<(Seq<char>, Seq<char>)>, n: int) -> Seq<(Seq<char>, Seq<char>)>
    decreases n,
{
    if n <= 0 {
        Seq::empty()
    } else {
        let prev = plugins_upto(entries, n - 1);
        let e = entries[n - 1];
        if starts_with(e.1, plugin_prefix()) && !(exists|k: int| 0 <= k < prev.len() && #[trigger] prev[k].1 == e.1) {
            prev.push(e)
        } else {
            prev
        }
    }
}

pub open spec fn pairs_view(v: Seq<(String, String)>) -> Seq<(Seq<char>, Seq<char>)> {
    v.map_values(|p: (String, String)| (p.0@, p.1@))
}

/// From the files found walking `PATH` in order, as `(path, file name)`,
/// the `klasp-plugin-*` binaries, one per file name.
pub fn select_plugin_binaries(entries: &Vec<(String, String)>) -> (r: Vec<(String, String)>)
    ensures
        pairs_view(r@) == plugins_upto(pairs_view(entries@), entries@.len() as int),
{
    let n = entries.len();
    let mut out: Vec<(String, String)> = Vec::new();
    for i in 0..n
        invariant
            n == entries@.len(),
            pairs_view(out@) == plugins_upto(pairs_view(entries@), i as int),
    {
        let ghost prev = pairs_view(out@);
        let ghost e = pairs_view(entries@)[i as int];
        let name = entries[i].1.as_str();
        if starts_with_str(&to_chars(name), "klasp-plugin-") {
            let m = out.len();
            let mut seen = false;
            for j in 0..m
                invariant
                    m == out@.len(),
                    prev == pairs_view(out@),
                    e == pairs_view(entries@)[i as int],
                    name@ == e.1,
                    seen == (exists|k: int| 0 <= k < j && #[trigger] prev[k].1 == e.1),
            {
                assert(prev[j as int].1 == out@[j as int].1@);
                if str_eq(out[j].1.as_str(), name) {
                    seen = true;
                }
            }
            if !seen {
                let p = (from_chars(&to_chars(entries[i].0.as_str())), from_chars(&to_chars(name)));
                out.push(p);
                assert(pairs_view(out@) =~= prev.push(e));
            }
        }
    }
    out
}

/// Seconds `plugins list` and `plugins info` wait for `--describe`, unless
/// `KLASP_PLUGIN_LIST_TIMEOUT_SECS` says otherwise.
pub const DEFAULT_LIST_TIMEOUT_SECS: u64 = 5;

pub open spec fn spec_list_timeout_secs(env_value: Option<Seq<char>>) -> u64 {
    match env_value {
        Some(v) => match parse_unsigned(v, u64::MAX as int) {
            Some(n) => n as u64,
            None => DEFAULT_LIST_TIMEOUT_SECS,
        },
        None => DEFAULT_LIST_TIMEOUT_SECS,
    }
}

/// The `--describe` timeout from `KLASP_PLUGIN_LIST_TIMEOUT_SECS` (when
/// set and a `u64`), else the default.
pub fn list_timeout_secs(env_value: Option<&str>) -> (r: u64)
    ensures
        r == spec_list_timeout_secs(match env_value { Some(v) => Some(v@), None => None }),
{
    match env_value {
        Some(v) => match parse_unsigned_exec(&to_chars(v), u64::MAX) {
            Some(n) => n,
            None => DEFAULT_LIST_TIMEOUT_SECS,
        },
        None => DEFAULT_LIST_TIMEOUT_SECS,
    }
}

pub open spec fn rows_upto(entries: Seq<(Seq<char>, PluginStatus)>, n: int) -> Seq<Seq<char>>
    decreases n,
{
    if n <= 0 {
        Seq::empty()
    } else {
        rows_upto(entries, n - 1).push(spec_plugin_row(entries[n - 1].0, entries[n - 1].1))
    }
}

/// What `klasp plugins list` prints: on stdout the header and one row per
/// plugin; when there is none, only a note on stderr.
pub open spec fn spec_list_output(entries: Seq<(Seq<char>, PluginStatus)>) -> (Seq<Seq<char>>, Option<Seq<char>>) {
    if entries.len() == 0 {
        (Seq::empty(), Some("No `klasp-plugin-*` binaries found on $PATH."@))
    } else {
        (seq![spec_list_row("NAME"@, "PROTOCOL"@, "STATUS"@)] + rows_upto(entries, entries.len() as int), None)
    }
}

pub open spec fn statuses_view(v: Seq<(String, PluginStatus)>) -> Seq<(Seq<char>, PluginStatus)> {
    v.map_values(|p: (String, PluginStatus)| (p.0@, p.1))
}

/// The listing of plugins, each by name with its status.
pub fn list_output(entries: &Vec<(String, PluginStatus)>) -> (r: (Vec<String>, Option<String>))
    ensures
        strings_view(r.0@) == spec_list_output(statuses_view(entries@)).0,
        match r.1 {
            Some(m) => spec_list_output(statuses_view(entries@)).1 == Some(m@),
            None => spec_list_output(statuses_view(entries@)).1 is None,
        },
{
    let ghost ev = statuses_view(entries@);
    if entries.len() == 0 {
        let out: Vec<String> = Vec::new();
        assert(strings_view(out@) =~= Seq::<Seq<char>>::empty());
        return (out, Some("No `klasp-plugin-*` binaries found on $PATH.".to_owned()));
    }
    let mut out: Vec<String> = vec![list_header()];
    let n = entries.len();
    for i in 0..n
        invariant
            n == entries@.len(),
            ev == statuses_view(entries@),
            strings_view(out@) == seq![spec_list_row("NAME"@, "PROTOCOL"@, "STATUS"@)] + rows_upto(ev, i as int),
    {
        let ghost before = strings_view(out@);
        out.push(plugin_row(entries[i].0.as_str(), &entries[i].1));
        assert(strings_view(out@) =~= before.push(spec_plugin_row(ev[i as int].0, ev[i as int].1)));
    }
    (out, None)
}

/// The binary `plugins info <name>` runs: `klasp-plugin-<name>`.
pub fn plugin_binary_name(name: &str) -> (r: String)
    ensures
        r@ == plugin_prefix() + name@,
{
    let mut out = to_chars("klasp-plugin-");
    extend_str(&mut out, name);
    from_chars(&out)
}

/// `error: `<binary>` not found on $PATH`.
pub fn binary_not_found_message(binary: &str) -> (r: String)
    ensures
        r@ == "error: `"@ + binary@ + "` not found on $PATH"@,
{
    let mut out = to_chars("error: `");
    extend_str(&mut out, binary);
    extend_str(&mut out, "` not found on $PATH");
    from_chars(&out)
}

/// How adding a plugin to the disable list went.
#[derive(Clone, Debug, PartialEq, Eq)]
pub enum DisableOutcome {
    /// It was on the list already.
    AlreadyDisabled,
    /// It was added to the list at this path.
    Added { list_path: String },
    /// The list could not be written.
    Failed(String),
}

pub open spec fn spec_disable_message(name: Seq<char>, o: DisableOutcome) -> (Seq<char>, bool) {
    match o {
        DisableOutcome::AlreadyDisabled => (name + " already disabled"@, true),
        DisableOutcome::Added { list_path } => (
            "disabled "@ + name + "; klasp gate will skip this plugin.\nDisable list: "@ + list_path@,
            true,
        ),
        DisableOutcome::Failed(e) => ("error: failed to update disable list: "@ + e@, false),
    }
}

/// What `plugins disable` prints, and whether it succeeded (the message
/// goes to stdout on success, stderr otherwise).
pub fn disable_message(name: &str, outcome: &DisableOutcome) -> (r: (String, bool))
    ensures
        (r.0@, r.1) == spec_disable_message(name@, *outcome),
{
    match outcome {
        DisableOutcome::AlreadyDisabled => {
            let mut out = to_chars(name);
            extend_str(&mut out, " already disabled");
            (from_chars(&out), true)
        },
        DisableOutcome::Added { list_path } => {
            let mut out = to_chars("disabled ");
            extend_str(&mut out, name);
            extend_str(&mut out, "; klasp gate will skip this plugin.\nDisable list: ");
            extend_str(&mut out, list_path.as_str());
            (from_chars(&out), true)
        },
        DisableOutcome::Failed(e) => {
            let mut out = to_chars("error: failed to update disable list: ");
            extend_str(&mut out, e.as_str());
            (from_chars(&out), false)
        },
    }
}

} // verus!
