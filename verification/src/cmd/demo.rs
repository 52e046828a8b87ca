//! `klasp demo`: replay a recorded agent transcript (JSON lines) and check
//! that after every `klasp-gate: blocked` tool result, the agent's next
//! message names one of the files the verdict pointed at.

use vstd::prelude::*;

use crate::json::{json_get, json_parse_result, parse_json_result, str_of, JsonValue};
use crate::model::opt_view;
use crate::adopt::plan::strings_view;
use crate::text::{
    join_sep, join_sep_exec, char_is_alphanumeric, char_is_ascii_digit, contains, contains_str, decimal, eq_str, extend_str,
    find_char_exec, find_char_from, from_chars, is_ascii_digit, lemma_find_char_from, lines,
    push_decimal, slice, split_lines, split_tokens, str_eq, to_chars, tokens, trim, trim_exec,
    unicode_alphanumeric, views,
};

verus! {

// ---------------------------------------------------------------------------
// File references in a verdict
// ---------------------------------------------------------------------------

/// Characters a path token keeps at its ends.
pub open spec fn path_char(c: char) -> bool {
    unicode_alphanumeric(c) || c == '/' || c == '.' || c == '_' || c == '-'
}

pub open spec fn strip_front(s: Seq<char>) -> Seq<char>
    decreases s.len(),
{
    if s.len() > 0 && !path_char(s[0]) {
        strip_front(s.drop_first())
    } else {
        s
    }
}

pub open spec fn strip_back(s: Seq<char>) -> Seq<char>
    decreases s.len(),
{
    if s.len() > 0 && !path_char(s.last()) {
        strip_back(s.drop_last())
    } else {
        s
    }
}

/// The `path` of a `path:line` token (punctuation around it dropped),
/// when the path has a `.` and a digit follows the colon.
pub open spec fn file_reference(tok: Seq<char>) -> Option<Seq<char>> {
    let t = strip_back(strip_front(tok));
    let k = find_char_from(t, ':', 0);
    if k < t.len() && k + 1 < t.len() && is_ascii_digit(t[k + 1]) {
        let p = t.take(k);
        if p.contains('.') && p.len() > 0 {
            Some(p)
        } else {
            None
        }
    } else {
        None
    }
}

/// The distinct file references of the first `n` tokens, in order of
/// first appearance.
pub open spec fn references_upto(toks: Seq<Seq<char>>, n: int) -> Seq<Seq<char>>
    decreases n,
{
    if n <= 0 {
        Seq::empty()
    } else {
        let prev = references_upto(toks, n - 1);
        match file_reference(toks[n - 1]) {
            Some(p) => if prev.contains(p) {
                prev
            } else {
                prev.push(p)
            },
            None => prev,
        }
    }
}

pub open spec fn spec_extract_filenames(output: Seq<char>) -> Seq<Seq<char>> {
    references_upto(tokens(output), tokens(output).len() as int)
}

fn is_path_char(c: char) -> (r: bool)
    ensures
        r == path_char(c),
{
    char_is_alphanumeric(c) || c == '/' || c == '.' || c == '_' || c == '-'
}

fn file_reference_exec(tok: &Vec<char>) -> (r: Option<Vec<char>>)
    ensures
        match r {
            Some(p) => file_reference(tok@) == Some(p@),
            None => file_reference(tok@) is None,
        },
{
    let n = tok.len();
    let mut lo: usize = 0;
    assert(tok@.subrange(0, n as int) =~= tok@);
    while lo < n && !is_path_char(tok[lo])
        invariant
            lo <= n == tok@.len(),
            strip_front(tok@) == strip_front(tok@.subrange(lo as int, n as int)),
        decreases n - lo,
    {
        assert(tok@.subrange(lo as int, n as int).drop_first() =~= tok@.subrange(lo + 1, n as int));
        lo += 1;
    }
    let mut hi: usize = n;
    assert(strip_front(tok@) == tok@.subrange(lo as int, n as int));
    while hi > lo && !is_path_char(tok[hi - 1])
        invariant
            lo <= hi <= n == tok@.len(),
            strip_back(strip_front(tok@)) == strip_back(tok@.subrange(lo as int, hi as int)),
        decreases hi - lo,
    {
        assert(tok@.subrange(lo as int, hi as int).drop_last() =~= tok@.subrange(lo as int, hi - 1));
        hi -= 1;
    }
    let t = slice(tok, lo, hi);
    assert(t@ == strip_back(strip_front(tok@)));
    let k = find_char_exec(&t, ':', 0);
    proof {
        lemma_find_char_from(t@, ':', 0);
    }
    if k < t.len() && k + 1 < t.len() && char_is_ascii_digit(t[k + 1]) {
        let p = slice(&t, 0, k);
        assert(p@ =~= t@.take(k as int));
        let mut has_dot = false;
        let m = p.len();
        for j in 0..m
            invariant
                m == p@.len(),
                has_dot == (exists|q: int| 0 <= q < j && p@[q] == '.'),
        {
            if p[j] == '.' {
                has_dot = true;
            }
        }
        assert(has_dot == p@.contains('.'));
        if has_dot && m > 0 {
            return Some(p);
        }
    }
    None
}

/// The files a verdict text points at: each whitespace-separated
/// `path:line` token (trimmed of surrounding punctuation) whose path has a
/// `.`, once each, in order of first appearance.
pub fn extract_filenames(output: &str) -> (r: Vec<String>)
    ensures
        strings_view(r@) == spec_extract_filenames(output@),
{
    let toks = split_tokens(&to_chars(output), false);
    let n = toks.len();
    let mut out: Vec<String> = Vec::new();
    for i in 0..n
        invariant
            n == toks@.len(),
            views(toks@) == tokens(output@),
            strings_view(out@) == references_upto(views(toks@), i as int),
    {
        assert(views(toks@)[i as int] == toks@[i as int]@);
        match file_reference_exec(&toks[i]) {
            Some(p) => {
                let ghost prev = strings_view(out@);
                let m = out.len();
                let mut seen = false;
                for j in 0..m
                    invariant
                        m == out@.len(),
                        prev == strings_view(out@),
                        seen == (exists|q: int| 0 <= q < j && prev[q] == p@),
                {
                    assert(prev[j as int] == out@[j as int]@);
                    if eq_str(&p, out[j].as_str()) {
                        seen = true;
                    }
                }
                assert(seen == prev.contains(p@));
                if !seen {
                    out.push(from_chars(&p));
                    assert(strings_view(out@) =~= prev.push(p@));
                }
            },
            None => {},
        }
    }
    out
}

/// The references are distinct, non-empty, and each has a `.`.
pub proof fn lemma_filenames_well_formed(toks: Seq<Seq<char>>, n: int)
    ensures
        forall|a: int, b: int|
            0 <= a < b < references_upto(toks, n).len() ==> #[trigger] references_upto(toks, n)[a]
                != #[trigger] references_upto(toks, n)[b],
        forall|a: int|
            0 <= a < references_upto(toks, n).len() ==> #[trigger] references_upto(toks, n)[a].len() > 0
                && references_upto(toks, n)[a].contains('.'),
    decreases n,
{
    if n > 0 {
        lemma_filenames_well_formed(toks, n - 1);
        let prev = references_upto(toks, n - 1);
        let cur = references_upto(toks, n);
        match file_reference(toks[n - 1]) {
            Some(p) => if !prev.contains(p) {
                assert forall|a: int, b: int| 0 <= a < b < cur.len() implies #[trigger] cur[a] != #[trigger] cur[b] by {
                    if b == cur.len() - 1 {
                        assert(cur[b] == p);
                        assert(cur[a] == prev[a]);
                    } else {
                        assert(cur[a] == prev[a] && cur[b] == prev[b]);
                    }
                }
                assert forall|a: int| 0 <= a < cur.len() implies #[trigger] cur[a].len() > 0 && cur[a].contains('.') by {
                    if a < prev.len() {
                        assert(cur[a] == prev[a]);
                    }
                }
            },
            None => {},
        }
    }
}

// ---------------------------------------------------------------------------
// The transcript
// ---------------------------------------------------------------------------

/// The JSON values of the non-blank lines from `start` on, each with its
/// 1-based line number; the first malformed line is an error.
pub open spec fn transcript_from(ls: Seq<Seq<char>>, start: int) -> Result<
    Seq<(usize, JsonValue)>,
    Seq<char>,
>
    decreases ls.len() - start,
{
    if start < 0 || start >= ls.len() {
        Ok(Seq::empty())
    } else if trim(ls[start]).len() == 0 {
        transcript_from(ls, start + 1)
    } else {
        match json_parse_result(trim(ls[start])) {
            Err(e) => Err("line "@ + decimal((start + 1) as nat) + ": malformed JSON: "@ + e),
            Ok(v) => match transcript_from(ls, start + 1) {
                Ok(rest) => Ok(seq![((start + 1) as usize, v)] + rest),
                Err(e) => Err(e),
            },
        }
    }
}

pub open spec fn spec_parse_transcript(raw: Seq<char>) -> Result<Seq<(usize, JsonValue)>, Seq<char>> {
    transcript_from(lines(raw), 0)
}

/// The transcript's JSON lines with their line numbers (blank lines are
/// skipped); `line N: malformed JSON: <reason>` for the first line that is
/// not JSON.
pub fn parse_transcript(raw: &str) -> (r: Result<Vec<(usize, JsonValue)>, String>)
    ensures
        match r {
            Ok(v) => spec_parse_transcript(raw@) == Ok::<Seq<(usize, JsonValue)>, Seq<char>>(v@),
            Err(e) => spec_parse_transcript(raw@) == Err::<Seq<(usize, JsonValue)>, Seq<char>>(e@),
        },
{
    let ls = split_lines(&to_chars(raw));
    let n = ls.len();
    let mut out: Vec<(usize, JsonValue)> = Vec::new();
    let mut i: usize = 0;
    while i < n
        invariant
            n == ls@.len(),
            i <= n,
            views(ls@) == lines(raw@),
            match transcript_from(views(ls@), i as int) {
                Ok(rest) => spec_parse_transcript(raw@) == Ok::<Seq<(usize, JsonValue)>, Seq<char>>(out@ + rest),
                Err(e) => spec_parse_transcript(raw@) == Err::<Seq<(usize, JsonValue)>, Seq<char>>(e),
            },
        decreases n - i,
    {
        assert(views(ls@)[i as int] == ls@[i as int]@);
        let t = trim_exec(&ls[i]);
        if t.len() > 0 {
            let text = from_chars(&t);
            match parse_json_result(text.as_str()) {
                Ok(v) => {
                    let ghost before = out@;
                    out.push((i + 1, v));
                    proof {
                        match transcript_from(views(ls@), i + 1) {
                            Ok(rest) => {
                                assert(out@ + rest =~= before + (seq![((i + 1) as usize, v)] + rest));
                            },
                            Err(e) => {},
                        }
                    }
                },
                Err(e) => {
                    let mut m = to_chars("line ");
                    push_decimal(&mut m, (i + 1) as u64);
                    extend_str(&mut m, ": malformed JSON: ");
                    extend_str(&mut m, e.as_str());
                    return Err(from_chars(&m));
                },
            }
        }
        i += 1;
    }
    assert(out@ + Seq::<(usize, JsonValue)>::empty() =~= out@);
    Ok(out)
}

pub open spec fn type_is(v: JsonValue, t: Seq<char>) -> bool {
    str_of(json_get(v, "type"@)) == Some(t)
}

/// A tool result carrying a gate block.
pub open spec fn spec_is_gate_block(v: JsonValue) -> bool {
    type_is(v, "tool_result"@) && match str_of(json_get(v, "output"@)) {
        Some(o) => contains(o, "klasp-gate: blocked"@),
        None => false,
    }
}

pub open spec fn spec_is_assistant_message(v: JsonValue) -> bool {
    type_is(v, "message"@) && str_of(json_get(v, "role"@)) == Some("assistant"@)
}

fn str_member<'a>(v: &'a JsonValue, key: &str) -> (r: Option<&'a str>)
    ensures
        match r {
            Some(s) => str_of(json_get(*v, key@)) == Some(s@),
            None => str_of(json_get(*v, key@)) is None,
        },
{
    match v.get(key) {
        Some(x) => x.as_str(),
        None => None,
    }
}

fn member_is(v: &JsonValue, key: &str, value: &str) -> (r: bool)
    ensures
        r == (str_of(json_get(*v, key@)) == Some(value@)),
{
    match str_member(v, key) {
        Some(s) => str_eq(s, value),
        None => false,
    }
}

/// A `tool_result` line whose `output` says `klasp-gate: blocked`.
pub fn is_gate_block(v: &JsonValue) -> (r: bool)
    ensures
        r == spec_is_gate_block(*v),
{
    if !member_is(v, "type", "tool_result") {
        return false;
    }
    match str_member(v, "output") {
        Some(o) => contains_str(&to_chars(o), "klasp-gate: blocked"),
        None => false,
    }
}

/// A `message` line from the assistant.
pub fn is_assistant_message(v: &JsonValue) -> (r: bool)
    ensures
        r == spec_is_assistant_message(*v),
{
    member_is(v, "type", "message") && member_is(v, "role", "assistant")
}

/// One gate block of a transcript and the assistant's next message.
#[derive(Clone, Debug, PartialEq, Eq)]
pub struct GateBlock {
    pub tool_result_line: usize,
    pub expected_filenames: Vec<String>,
    pub assistant_response: Option<String>,
    pub assistant_line: Option<usize>,
}

pub struct GateBlockView {
    pub tool_result_line: usize,
    pub expected_filenames: Seq<Seq<char>>,
    pub assistant_response: Option<Seq<char>>,
    pub assistant_line: Option<usize>,
}

impl View for GateBlock {
    type V = GateBlockView;

    open spec fn view(&self) -> GateBlockView {
        GateBlockView {
            tool_result_line: self.tool_result_line,
            expected_filenames: strings_view(self.expected_filenames@),
            assistant_response: opt_view(self.assistant_response),
            assistant_line: self.assistant_line,
        }
    }
}

pub open spec fn blocks_view(v: Seq<GateBlock>) -> Seq<GateBlockView> {
    v.map_values(|b: GateBlock| b@)
}

/// The first assistant message at or after `j`: its line and content.
pub open spec fn next_assistant(entries: Seq<(usize, JsonValue)>, j: int) -> Option<(usize, Option<Seq<char>>)>
    decreases entries.len() - j,
{
    if j < 0 || j >= entries.len() {
        None
    } else if spec_is_assistant_message(entries[j].1) {
        Some((entries[j].0, str_of(json_get(entries[j].1, "content"@))))
    } else {
        next_assistant(entries, j + 1)
    }
}

pub open spec fn block_at(entries: Seq<(usize, JsonValue)>, i: int) -> GateBlockView {
    let output = match str_of(json_get(entries[i].1, "output"@)) {
        Some(o) => o,
        None => Seq::empty(),
    };
    let next = next_assistant(entries, i + 1);
    GateBlockView {
        tool_result_line: entries[i].0,
        expected_filenames: spec_extract_filenames(output),
        assistant_response: match next {
            Some((_, c)) => c,
            None => None,
        },
        assistant_line: match next {
            Some((l, _)) => Some(l),
            None => None,
        },
    }
}

/// The blocked tool results among the first `n` entries.
pub open spec fn blocks_upto(entries: Seq<(usize, JsonValue)>, n: int) -> Seq<GateBlockView>
    decreases n,
{
    if n <= 0 {
        Seq::empty()
    } else {
        blocks_upto(entries, n - 1) + if spec_is_gate_block(entries[n - 1].1) {
            seq![block_at(entries, n - 1)]
        } else {
            Seq::empty()
        }
    }
}

fn next_assistant_exec(entries: &Vec<(usize, JsonValue)>, start: usize) -> (r: Option<(usize, Option<String>)>)
    ensures
        match r {
            Some((l, c)) => next_assistant(entries@, start as int) == Some((l, opt_view(c))),
            None => next_assistant(entries@, start as int) is None,
        },
{
    let n = entries.len();
    let mut j = start;
    while j < n
        invariant
            n == entries@.len(),
            start <= j,
            next_assistant(entries@, start as int) == next_assistant(entries@, j as int),
        decreases n - j,
    {
        if is_assistant_message(&entries[j].1) {
            let content = match str_member(&entries[j].1, "content") {
                Some(c) => Some(from_chars(&to_chars(c))),
                None => None,
            };
            return Some((entries[j].0, content));
        }
        j += 1;
    }
    None
}

/// Every gate block of the transcript, in order, with the files its
/// verdict names and the next assistant message after it.
pub fn find_gate_blocks(entries: &Vec<(usize, JsonValue)>) -> (r: Vec<GateBlock>)
    ensures
        blocks_view(r@) == blocks_upto(entries@, entries@.len() as int),
{
    proof {
        reveal_strlit("");
    }
    let n = entries.len();
    let mut out: Vec<GateBlock> = Vec::new();
    for i in 0..n
        invariant
            n == entries@.len(),
            blocks_view(out@) == blocks_upto(entries@, i as int),
    {
        if is_gate_block(&entries[i].1) {
            let output = match str_member(&entries[i].1, "output") {
                Some(o) => o,
                None => "",
            };
            assert(output@ == match str_of(json_get(entries@[i as int].1, "output"@)) {
                Some(o) => o,
                None => Seq::<char>::empty(),
            }) by {
                reveal_strlit("");
                assert(""@ =~= Seq::<char>::empty());
            }
            let expected_filenames = extract_filenames(output);
            let next = next_assistant_exec(entries, i + 1);
            let (assistant_response, assistant_line) = match next {
                Some((l, c)) => (c, Some(l)),
                None => (None, None),
            };
            let b = GateBlock {
                tool_result_line: entries[i].0,
                expected_filenames,
                assistant_response,
                assistant_line,
            };
            assert(b@ == block_at(entries@, i as int));
            let ghost before = out@;
            out.push(b);
            assert(blocks_view(out@) =~= blocks_view(before) + seq![b@]);
        } else {
            assert(blocks_view(out@) + Seq::<GateBlockView>::empty() =~= blocks_view(out@));
        }
    }
    out
}

/// The assistant's next message names one of the expected files.
pub open spec fn spec_block_ok(b: GateBlockView) -> bool {
    match b.assistant_response {
        Some(r) => exists|i: int| 0 <= i < b.expected_filenames.len() && contains(r, #[trigger] b.expected_filenames[i]),
        None => false,
    }
}

/// Whether the feedback loop of one block closed: the assistant answered
/// and named one of the files the verdict pointed at.
pub fn block_ok(b: &GateBlock) -> (r: bool)
    ensures
        r == spec_block_ok(b@),
{
    match &b.assistant_response {
        Some(resp) => {
            let rv = to_chars(resp.as_str());
            let n = b.expected_filenames.len();
            for i in 0..n
                invariant
                    n == b.expected_filenames@.len(),
                    rv@ == resp@,
                    b.assistant_response == Some(*resp),
                    forall|k: int| 0 <= k < i ==> !contains(rv@, #[trigger] strings_view(b.expected_filenames@)[k]),
            {
                assert(strings_view(b.expected_filenames@)[i as int] == b.expected_filenames@[i as int]@);
                if contains_str(&rv, b.expected_filenames[i].as_str()) {
                    assert(b@.expected_filenames[i as int] == b.expected_filenames@[i as int]@);
                    assert(contains(resp@, b@.expected_filenames[i as int]));
                    return true;
                }
            }
            false
        },
        None => false,
    }
}

/// How many blocks among the first `n` did not close their loop.
pub open spec fn failures_upto(bs: Seq<GateBlockView>, n: int) -> nat
    decreases n,
{
    if n <= 0 {
        0
    } else {
        failures_upto(bs, n - 1) + if spec_block_ok(bs[n - 1]) {
            0nat
        } else {
            1nat
        }
    }
}

/// The number of gate blocks whose loop did not close.
pub fn count_failures(blocks: &Vec<GateBlock>) -> (r: usize)
    ensures
        r == failures_upto(blocks_view(blocks@), blocks@.len() as int),
        r <= blocks@.len(),
{
    let n = blocks.len();
    let mut failed: usize = 0;
    for i in 0..n
        invariant
            n == blocks@.len(),
            failed == failures_upto(blocks_view(blocks@), i as int),
            failed <= i,
    {
        assert(blocks_view(blocks@)[i as int] == blocks@[i as int]@);
        if !block_ok(&blocks[i]) {
            failed += 1;
        }
    }
    failed
}

pub open spec fn spec_ok_summary(n: nat) -> Seq<char> {
    "demo replay: OK ("@ + decimal(n) + " gate-feedback loop"@ + (if n == 1 {
        Seq::empty()
    } else {
        "s"@
    }) + " verified)"@
}

/// `demo replay: OK (N gate-feedback loops verified)`.
pub fn ok_summary(n: usize) -> (r: String)
    ensures
        r@ == spec_ok_summary(n as nat),
{
    let mut out = to_chars("demo replay: OK (");
    push_decimal(&mut out, n as u64);
    extend_str(&mut out, " gate-feedback loop");
    if n != 1 {
        extend_str(&mut out, "s");
    }
    extend_str(&mut out, " verified)");
    from_chars(&out)
}

/// What the replay prints of a block whose loop did not close (`loop_label`
/// counts blocks from 1): no assistant reply at all; or the reply's line
/// and the files it should have named (the reply itself is quoted after
/// these lines). Nothing for a block that closed its loop.
pub open spec fn spec_failure_lines(loop_label: nat, b: GateBlockView) -> Seq<Seq<char>> {
    if spec_block_ok(b) {
        Seq::empty()
    } else {
        match b.assistant_response {
            None => seq![
                "demo replay: FAIL loop "@ + decimal(loop_label) + " (gate block at line "@ + decimal(
                    b.tool_result_line as nat,
                ) + "): no assistant message found after gate block"@,
            ],
            Some(_) => seq![
                "demo replay: FAIL loop "@ + decimal(loop_label) + " (gate block at line "@ + decimal(
                    b.tool_result_line as nat,
                ) + ", assistant at line "@ + decimal(
                    match b.assistant_line {
                        Some(l) => l as nat,
                        None => 0,
                    },
                ) + "):"@,
                "  expected assistant message to reference at least one of: "@ + join_sep(
                    b.expected_filenames,
                    ", "@,
                ),
            ],
        }
    }
}

pub fn failure_lines(loop_label: usize, b: &GateBlock) -> (r: Vec<String>)
    ensures
        strings_view(r@) == spec_failure_lines(loop_label as nat, b@),
{
    if block_ok(b) {
        let r: Vec<String> = Vec::new();
        assert(strings_view(r@) =~= Seq::<Seq<char>>::empty());
        return r;
    }
    let mut head = to_chars("demo replay: FAIL loop ");
    push_decimal(&mut head, loop_label as u64);
    extend_str(&mut head, " (gate block at line ");
    push_decimal(&mut head, b.tool_result_line as u64);
    match &b.assistant_response {
        None => {
            extend_str(&mut head, "): no assistant message found after gate block");
            let r = vec![from_chars(&head)];
            assert(strings_view(r@) =~= spec_failure_lines(loop_label as nat, b@));
            r
        },
        Some(_) => {
            extend_str(&mut head, ", assistant at line ");
            let al: usize = match b.assistant_line {
                Some(l) => l,
                None => 0,
            };
            push_decimal(&mut head, al as u64);
            extend_str(&mut head, "):");
            let mut second = to_chars("  expected assistant message to reference at least one of: ");
            extend_str(&mut second, join_sep_exec(&b.expected_filenames, ", ").as_str());
            let r = vec![from_chars(&head), from_chars(&second)];
            assert(strings_view(r@) =~= spec_failure_lines(loop_label as nat, b@));
            r
        },
    }
}

} // verus!
