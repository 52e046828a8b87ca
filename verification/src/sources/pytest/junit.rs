//! Reading pytest's JUnit XML report: one finding per failed or errored
//! `<testcase>`.
//!
//! Pytest writes a small, predictable subset of JUnit XML, so this is a
//! scanner rather than an XML parser: each `<testcase ...>` open tag is
//! paired with the next `</testcase>`, and the body is searched for a
//! `<failure` or `<error` element. Attribute values are double-quoted;
//! the five standard entities are decoded and ANSI colour sequences
//! dropped. Offsets here count characters.

use vstd::prelude::*;

use crate::model::{findings_view, opt_view, Finding, FindingView, Severity};
use crate::sources::recipe_util::{finding, spec_finding};
use crate::text::{
    decimal, ends_with, extend, extend_str, find_char_exec, find_char_from, find_from,
    find_from_exec, first_nonblank, first_nonblank_line, from_chars, is_ws, lemma_find_char_from,
    lemma_find_from_bounds, lines, parse_unsigned, parse_unsigned_exec, replace_all, replace_exec,
    slice, to_chars, trim, trim_end, trim_end_exec, trim_exec,
};

verus! {

// ---------------------------------------------------------------------------
// Text clean-up
// ---------------------------------------------------------------------------

/// A CSI sequence ends at a character in `0x40..=0x7e`.
pub open spec fn is_csi_final(c: char) -> bool {
    '\u{40}' <= c && c <= '\u{7e}'
}

/// First index `>= j` holding a CSI final character, or `s.len()`.
pub open spec fn csi_end(s: Seq<char>, j: int) -> int
    decreases s.len() - j,
{
    if j < 0 || j >= s.len() {
        s.len() as int
    } else if is_csi_final(s[j]) {
        j
    } else {
        csi_end(s, j + 1)
    }
}

pub proof fn lemma_csi_end(s: Seq<char>, j: int)
    requires
        0 <= j <= s.len(),
    ensures
        j <= csi_end(s, j) <= s.len(),
    decreases s.len() - j,
{
    if j < s.len() && !is_csi_final(s[j]) {
        lemma_csi_end(s, j + 1);
    }
}

/// `s` without its ANSI CSI sequences (`ESC [` up to and including the
/// final character; an unterminated sequence runs to the end).
pub open spec fn strip_ansi(s: Seq<char>) -> Seq<char>
    decreases s.len(),
{
    if s.len() == 0 {
        Seq::empty()
    } else if s[0] == '\u{1b}' && s.len() > 1 && s[1] == '[' {
        proof {
            lemma_csi_end(s, 2);
        }
        let k = csi_end(s, 2);
        if k >= s.len() {
            Seq::empty()
        } else {
            strip_ansi(s.skip(k + 1))
        }
    } else {
        seq![s[0]] + strip_ansi(s.drop_first())
    }
}

/// Drop ANSI colour sequences: pytest writes them into `message=` values
/// when `TERM` is set.
pub fn strip_ansi_exec(s: &Vec<char>) -> (r: Vec<char>)
    ensures
        r@ == strip_ansi(s@),
{
    let n = s.len();
    let mut out: Vec<char> = Vec::new();
    let mut i: usize = 0;
    assert(s@.skip(0) =~= s@);
    while i < n
        invariant
            n == s@.len(),
            i <= n,
            out@ + strip_ansi(s@.skip(i as int)) == strip_ansi(s@),
        decreases n - i,
    {
        let ghost rest = s@.skip(i as int);
        let ghost old_out = out@;
        if s[i] == '\u{1b}' && i + 1 < n && s[i + 1] == '[' {
            let mut j = i + 2;
            while j < n && !('\u{40}' <= s[j] && s[j] <= '\u{7e}')
                invariant
                    i + 2 <= j <= n == s@.len(),
                    csi_end(rest, 2) == csi_end(rest, j - i),
                    rest == s@.skip(i as int),
                decreases n - j,
            {
                assert(rest[j - i] == s@[j as int]);
                j += 1;
            }
            if j < n {
                assert(rest[j - i] == s@[j as int]);
            }
            if j >= n {
                assert(out@ =~= strip_ansi(s@));
                return out;
            }
            assert(rest.skip(j - i + 1) =~= s@.skip(j + 1));
            i = j + 1;
        } else {
            assert(rest.drop_first() =~= s@.skip(i + 1));
            assert(rest[0] == s@[i as int]);
            if i + 1 < n {
                assert(rest[1] == s@[i + 1]);
            }
            out.push(s[i]);
            assert(out@ + strip_ansi(s@.skip(i + 1)) =~= old_out + strip_ansi(rest));
            i += 1;
        }
    }
    assert(s@.skip(n as int) =~= Seq::<char>::empty());
    assert(out@ + Seq::<char>::empty() =~= out@);
    out
}

pub open spec fn decode_entities(s: Seq<char>) -> Seq<char> {
    let a = replace_all(s, "&lt;"@, "<"@);
    let b = replace_all(a, "&gt;"@, ">"@);
    let c = replace_all(b, "&quot;"@, "\""@);
    let d = replace_all(c, "&apos;"@, "'"@);
    let e = replace_all(d, "&amp;"@, "&"@);
    strip_ansi(e)
}

/// Decode `&lt;` `&gt;` `&quot;` `&apos;` `&amp;` (in that order), then
/// drop ANSI sequences.
pub fn decode_entities_exec(s: &Vec<char>) -> (r: Vec<char>)
    ensures
        r@ == decode_entities(s@),
{
    proof {
        reveal_strlit("&lt;");
        reveal_strlit("&gt;");
        reveal_strlit("&quot;");
        reveal_strlit("&apos;");
        reveal_strlit("&amp;");
    }
    let a = replace_exec(s, "&lt;", "<");
    let b = replace_exec(&a, "&gt;", ">");
    let c = replace_exec(&b, "&quot;", "\"");
    let d = replace_exec(&c, "&apos;", "'");
    let e = replace_exec(&d, "&amp;", "&");
    strip_ansi_exec(&e)
}

// ---------------------------------------------------------------------------
// Tags and attributes
// ---------------------------------------------------------------------------

/// The first `>` at or after `i` outside a double-quoted value, given
/// whether `i` is inside one.
pub open spec fn tag_close_at(s: Seq<char>, i: int, in_quote: bool) -> Option<int>
    decreases s.len() - i,
{
    if i < 0 || i >= s.len() {
        None
    } else if s[i] == '"' {
        tag_close_at(s, i + 1, !in_quote)
    } else if s[i] == '>' && !in_quote {
        Some(i)
    } else {
        tag_close_at(s, i + 1, in_quote)
    }
}

pub proof fn lemma_tag_close_at(s: Seq<char>, i: int, q: bool)
    ensures
        tag_close_at(s, i, q) is Some ==> i <= tag_close_at(s, i, q)->0 < s.len() && s[tag_close_at(
            s,
            i,
            q,
        )->0] == '>',
    decreases s.len() - i,
{
    if !(i < 0 || i >= s.len()) && !(s[i] == '>' && !q && s[i] != '"') {
        if s[i] == '"' {
            lemma_tag_close_at(s, i + 1, !q);
        } else {
            lemma_tag_close_at(s, i + 1, q);
        }
    }
}

/// `tag_close_at` from `start`, with the scan starting outside quotes.
fn tag_close_exec(s: &Vec<char>, start: usize) -> (r: Option<usize>)
    requires
        start <= s@.len(),
    ensures
        match r {
            Some(k) => tag_close_at(s@, start as int, false) == Some(k as int),
            None => tag_close_at(s@, start as int, false) is None,
        },
{
    let n = s.len();
    let mut q = false;
    let mut i = start;
    while i < n
        invariant
            n == s@.len(),
            start <= i <= n,
            tag_close_at(s@, start as int, false) == tag_close_at(s@, i as int, q),
        decreases n - i,
    {
        if s[i] == '"' {
            q = !q;
        } else if s[i] == '>' && !q {
            return Some(i);
        }
        i += 1;
    }
    None
}

/// Offset (in characters) of the `>` closing an open tag whose attributes
/// start `s`, skipping `>` inside double-quoted values.
pub fn find_tag_close(s: &str) -> (r: Option<usize>)
    ensures
        match r {
            Some(k) => tag_close_at(s@, 0, false) == Some(k as int),
            None => tag_close_at(s@, 0, false) is None,
        },
{
    tag_close_exec(&to_chars(s), 0)
}

/// Whether the byte just before a match is whitespace. The scanner looks
/// at the last byte of the previous character's UTF-8 encoding, read as a
/// Latin-1 character: for ASCII that is the character itself; for longer
/// encodings it is `0x80 | (c % 64)`, whitespace only as U+0085 or U+00A0.
pub open spec fn byte_before_is_ws(c: char) -> bool {
    if (c as u32) < 0x80 {
        is_ws(c)
    } else {
        (c as u32) % 64 == 5 || (c as u32) % 64 == 32
    }
}

fn byte_before_is_ws_exec(c: char) -> (r: bool)
    ensures
        r == byte_before_is_ws(c),
{
    let u = c as u32;
    if u < 0x80 {
        crate::text::char_is_ws(c)
    } else {
        u % 64 == 5 || u % 64 == 32
    }
}

/// `name="` matches at `abs` only at the start or after whitespace.
pub open spec fn anchored(attrs: Seq<char>, abs: int) -> bool {
    abs == 0 || byte_before_is_ws(attrs[abs - 1])
}

/// The decoded value of the first anchored `needle` match at or after
/// `from` (`None` when the match has no closing quote).
pub open spec fn attr_from(attrs: Seq<char>, needle: Seq<char>, from: int) -> Option<Seq<char>>
    decreases attrs.len() + 1 - from,
{
    if needle.len() == 0 {
        None
    } else {
        match find_from(attrs, needle, from) {
            Some(abs) => {
                proof {
                    lemma_find_from_bounds(attrs, needle, from);
                }
                if anchored(attrs, abs) {
                    let vs = abs + needle.len();
                    let k = find_char_from(attrs, '"', vs);
                    if k < attrs.len() {
                        Some(decode_entities(attrs.subrange(vs, k)))
                    } else {
                        None
                    }
                } else if from < abs + needle.len() {
                    attr_from(attrs, needle, abs + needle.len())
                } else {
                    None
                }
            },
            None => None,
        }
    }
}

pub open spec fn spec_attr_value(attrs: Seq<char>, name: Seq<char>) -> Option<Seq<char>> {
    attr_from(attrs, name + "=\""@, 0)
}

fn attr_value_chars(attrs: &Vec<char>, name: &str) -> (r: Option<Vec<char>>)
    ensures
        match r {
            Some(v) => spec_attr_value(attrs@, name@) == Some(v@),
            None => spec_attr_value(attrs@, name@) is None,
        },
{
    proof {
        reveal_strlit("=\"");
    }
    let mut needle = to_chars(name);
    extend_str(&mut needle, "=\"");
    let n = attrs.len();
    let mut from: usize = 0;
    while from <= n
        invariant
            n == attrs@.len(),
            needle@ == name@ + "=\""@,
            needle@.len() >= 2,
            spec_attr_value(attrs@, name@) == attr_from(attrs@, needle@, from as int),
        decreases n + 1 - from,
    {
        proof {
            lemma_find_from_bounds(attrs@, needle@, from as int);
        }
        let abs = match find_from_exec(attrs, &needle, from) {
            Some(k) => k,
            None => return None,
        };
        if abs == 0 || byte_before_is_ws_exec(attrs[abs - 1]) {
            let vs = abs + needle.len();
            let k = find_char_exec(attrs, '"', vs);
            if k < n {
                proof {
                    lemma_find_char_from(attrs@, '"', vs as int);
                }
                let raw = slice(attrs, vs, k);
                return Some(decode_entities_exec(&raw));
            }
            return None;
        }
        from = abs + needle.len();
    }
    None
}

/// The value of attribute `name` in an open tag's attribute text: the
/// first `name="..."` at the start or after whitespace (so `name` does not
/// match inside `classname`), entity-decoded.
pub fn attr_value(attrs: &str, name: &str) -> (r: Option<String>)
    ensures
        opt_view(r) == spec_attr_value(attrs@, name@),
{
    match attr_value_chars(&to_chars(attrs), name) {
        Some(v) => Some(from_chars(&v)),
        None => None,
    }
}

// ---------------------------------------------------------------------------
// Failure bodies
// ---------------------------------------------------------------------------

/// What the `<failure` (or `<error`) element of a test case body says:
/// `None` when this element gives no answer and the next tag is tried;
/// `Some(x)` when the scan stops with `x`.
pub open spec fn failure_for_tag(body: Seq<char>, tag: Seq<char>, close: Seq<char>) -> Option<
    Option<Seq<char>>,
> {
    match find_from(body, tag, 0) {
        Some(start) => {
            let after = start + tag.len();
            match tag_close_at(body, after, false) {
                Some(end) => match spec_attr_value(body.subrange(after, end), "message"@) {
                    Some(m) => Some(Some(m)),
                    None => match find_from(body, close, end + 1) {
                        Some(co) => match first_nonblank(lines(body.subrange(end + 1, co))) {
                            Some(l) => Some(Some(decode_entities(trim(l)))),
                            None => Some(None),
                        },
                        None => None,
                    },
                },
                None => None,
            }
        },
        None => None,
    }
}

pub open spec fn spec_extract_failure_message(body: Seq<char>) -> Option<Seq<char>> {
    match failure_for_tag(body, "<failure"@, "</failure>"@) {
        Some(x) => x,
        None => match failure_for_tag(body, "<error"@, "</error>"@) {
            Some(x) => x,
            None => None,
        },
    }
}

fn failure_for_tag_exec(body: &Vec<char>, tag: &str, close: &str) -> (r: Option<Option<Vec<char>>>)
    ensures
        match (r, failure_for_tag(body@, tag@, close@)) {
            (Some(Some(v)), Some(Some(w))) => v@ == w,
            (Some(None), Some(None)) => true,
            (None, None) => true,
            _ => false,
        },
{
    let tv = to_chars(tag);
    let cv = to_chars(close);
    proof {
        lemma_find_from_bounds(body@, tag@, 0);
    }
    let start = match find_from_exec(body, &tv, 0) {
        Some(k) => k,
        None => return None,
    };
    assert(find_from(body@, tag@, 0) == Some(start as int));
    assert(start + tag@.len() <= body@.len());
    assert(body@.len() == body.len());
    let after = start + tv.len();
    proof {
        lemma_tag_close_at(body@, after as int, false);
    }
    let end = match tag_close_exec(body, after) {
        Some(e) => e,
        None => return None,
    };
    let attrs = slice(body, after, end);
    match attr_value_chars(&attrs, "message") {
        Some(m) => return Some(Some(m)),
        None => {},
    }
    proof {
        lemma_find_from_bounds(body@, close@, end + 1);
    }
    assert(tag_close_at(body@, after as int, false) == Some(end as int));
    assert(end < body@.len());
    assert(body@.len() == body.len());
    let co = match find_from_exec(body, &cv, end + 1) {
        Some(c) => c,
        None => return None,
    };
    let inner = slice(body, end + 1, co);
    match first_nonblank_line(&inner) {
        Some(l) => {
            let t = trim_exec(&l);
            Some(Some(decode_entities_exec(&t)))
        },
        None => Some(None),
    }
}

/// The message of a failed test case body: the `message="..."` of its
/// `<failure` element, else that element's first non-blank line of text;
/// then the same for `<error`. `None` when neither says anything.
pub fn extract_failure_message(body: &str) -> (r: Option<String>)
    ensures
        opt_view(r) == spec_extract_failure_message(body@),
{
    let b = to_chars(body);
    match failure_for_tag_exec(&b, "<failure", "</failure>") {
        Some(Some(v)) => return Some(from_chars(&v)),
        Some(None) => return None,
        None => {},
    }
    match failure_for_tag_exec(&b, "<error", "</error>") {
        Some(Some(v)) => Some(from_chars(&v)),
        _ => None,
    }
}

// ---------------------------------------------------------------------------
// Test cases
// ---------------------------------------------------------------------------

/// One `<testcase>` as the report describes it. `failure_message` is set
/// for failed or errored cases.
#[derive(Clone, Debug, PartialEq, Eq)]
pub struct TestCase {
    pub classname: Option<String>,
    pub name: Option<String>,
    pub file: Option<String>,
    pub line: Option<u32>,
    pub failure_message: Option<String>,
}

pub struct TestCaseView {
    pub classname: Option<Seq<char>>,
    pub name: Option<Seq<char>>,
    pub file: Option<Seq<char>>,
    pub line: Option<u32>,
    pub failure_message: Option<Seq<char>>,
}

impl View for TestCase {
    type V = TestCaseView;

    open spec fn view(&self) -> TestCaseView {
        TestCaseView {
            classname: opt_view(self.classname),
            name: opt_view(self.name),
            file: opt_view(self.file),
            line: self.line,
            failure_message: opt_view(self.failure_message),
        }
    }
}

pub open spec fn cases_view(v: Seq<TestCase>) -> Seq<TestCaseView> {
    v.map_values(|t: TestCase| t@)
}

pub open spec fn spec_parse_line(v: Option<Seq<char>>) -> Option<u32> {
    match v {
        Some(t) => match parse_unsigned(t, u32::MAX as int) {
            Some(n) => Some(n as u32),
            None => None,
        },
        None => None,
    }
}

pub open spec fn spec_parse_testcase_attrs(attrs: Seq<char>) -> TestCaseView {
    TestCaseView {
        classname: spec_attr_value(attrs, "classname"@),
        name: spec_attr_value(attrs, "name"@),
        file: spec_attr_value(attrs, "file"@),
        line: spec_parse_line(spec_attr_value(attrs, "line"@)),
        failure_message: None,
    }
}

/// `classname`, `name`, `file` and `line` (a `u32`) of an open tag.
pub fn parse_testcase_attrs(attrs: &str) -> (r: TestCase)
    ensures
        r@ == spec_parse_testcase_attrs(attrs@),
{
    let a = to_chars(attrs);
    let line = match attr_value_chars(&a, "line") {
        Some(v) => match parse_unsigned_exec(&v, u32::MAX as u64) {
            Some(n) => Some(n as u32),
            None => None,
        },
        None => None,
    };
    let classname = match attr_value_chars(&a, "classname") {
        Some(v) => Some(from_chars(&v)),
        None => None,
    };
    let name = match attr_value_chars(&a, "name") {
        Some(v) => Some(from_chars(&v)),
        None => None,
    };
    let file = match attr_value_chars(&a, "file") {
        Some(v) => Some(from_chars(&v)),
        None => None,
    };
    TestCase { classname, name, file, line, failure_message: None }
}

pub open spec fn with_failure(tc: TestCaseView, m: Option<Seq<char>>) -> TestCaseView {
    TestCaseView {
        classname: tc.classname,
        name: tc.name,
        file: tc.file,
        line: tc.line,
        failure_message: m,
    }
}

/// The test cases whose open tag is at or after `cursor`, in order. A
/// `<testcase` not followed by whitespace, `>` or `/` is another element;
/// an open tag without a closing `>`, or a non-self-closing case without
/// `</testcase>`, ends the scan.
pub open spec fn scan_from(xml: Seq<char>, cursor: int) -> Seq<TestCaseView>
    decreases xml.len() + 1 - cursor,
{
    if cursor < 0 || cursor > xml.len() {
        Seq::empty()
    } else {
        match find_from(xml, "<testcase"@, cursor) {
            Some(abs) => {
                proof {
                    lemma_find_from_bounds(xml, "<testcase"@, cursor);
                    reveal_strlit("<testcase");
                }
                let am = abs + "<testcase"@.len();
                if !(am < xml.len() && (is_ws(xml[am]) || xml[am] == '>' || xml[am] == '/')) {
                    scan_from(xml, am)
                } else {
                    match tag_close_at(xml, am, false) {
                        Some(oe) => {
                            proof {
                                lemma_tag_close_at(xml, am, false);
                            }
                            let attrs = xml.subrange(am, oe);
                            let tc = spec_parse_testcase_attrs(attrs);
                            if ends_with(trim_end(attrs), "/"@) {
                                seq![tc] + scan_from(xml, oe + 1)
                            } else {
                                match find_from(xml, "</testcase>"@, oe + 1) {
                                    Some(c) => {
                                        proof {
                                            lemma_find_from_bounds(xml, "</testcase>"@, oe + 1);
                                            reveal_strlit("</testcase>");
                                        }
                                        seq![
                                            with_failure(
                                                tc,
                                                spec_extract_failure_message(
                                                    xml.subrange(oe + 1, c),
                                                ),
                                            ),
                                        ] + scan_from(xml, c + "</testcase>"@.len())
                                    },
                                    None => Seq::empty(),
                                }
                            }
                        },
                        None => Seq::empty(),
                    }
                }
            },
            None => Seq::empty(),
        }
    }
}

pub open spec fn spec_scan_testcases(xml: Seq<char>) -> Seq<TestCaseView> {
    scan_from(xml, 0)
}

/// Every `<testcase>` of the report, in order, with the failure message
/// of each failed or errored one.
pub fn scan_testcases(xml: &str) -> (r: Vec<TestCase>)
    ensures
        cases_view(r@) == spec_scan_testcases(xml@),
{
    proof {
        reveal_strlit("<testcase");
        reveal_strlit("</testcase>");
        reveal_strlit("/");
    }
    let x = to_chars(xml);
    let open_marker = to_chars("<testcase");
    let close_marker = to_chars("</testcase>");
    let n = x.len();
    let mut out: Vec<TestCase> = Vec::new();
    let mut cursor: usize = 0;
    while cursor <= n
        invariant
            n == x@.len(),
            x@ == xml@,
            open_marker@ == "<testcase"@,
            close_marker@ == "</testcase>"@,
            cases_view(out@) + scan_from(x@, cursor as int) == scan_from(x@, 0),
        decreases n + 1 - cursor,
    {
        let ghost old_out = out@;
        proof {
            reveal_strlit("<testcase");
            reveal_strlit("</testcase>");
            lemma_find_from_bounds(x@, open_marker@, cursor as int);
        }
        let abs = match find_from_exec(&x, &open_marker, cursor) {
            Some(k) => k,
            None => {
                assert(cases_view(out@) + scan_from(x@, cursor as int) =~= cases_view(out@));
                return out;
            },
        };
        let am = abs + open_marker.len();
        if !(am < n && (crate::text::char_is_ws(x[am]) || x[am] == '>' || x[am] == '/')) {
            cursor = am;
        } else {
            proof {
                lemma_tag_close_at(x@, am as int, false);
            }
            let oe = match tag_close_exec(&x, am) {
                Some(e) => e,
                None => {
                    assert(cases_view(out@) + scan_from(x@, cursor as int) =~= cases_view(out@));
                    return out;
                },
            };
            let attrs = slice(&x, am, oe);
            let attrs_s = from_chars(&attrs);
            let mut tc = parse_testcase_attrs(attrs_s.as_str());
            let te = trim_end_exec(&attrs);
            let self_closing = te.len() > 0 && te[te.len() - 1] == '/';
            assert(self_closing == ends_with(trim_end(attrs@), "/"@)) by {
                reveal_strlit("/");
                assert("/"@ =~= seq!['/']);
                if te@.len() > 0 {
                    assert(te@.subrange(te@.len() - 1, te@.len() as int) =~= seq![te@.last()]);
                    if ends_with(te@, "/"@) {
                        assert(te@.subrange(te@.len() - 1, te@.len() as int)[0] == '/');
                    }
                }
            }
            if self_closing {
                out.push(tc);
                assert(cases_view(out@) =~= cases_view(old_out).push(tc@));
                cursor = oe + 1;
            } else {
                proof {
                    lemma_find_from_bounds(x@, close_marker@, oe + 1);
                }
                let c = match find_from_exec(&x, &close_marker, oe + 1) {
                    Some(c) => c,
                    None => {
                        assert(cases_view(out@) + scan_from(x@, cursor as int) =~= cases_view(
                            out@,
                        ));
                        return out;
                    },
                };
                let body = from_chars(&slice(&x, oe + 1, c));
                tc.failure_message = extract_failure_message(body.as_str());
                out.push(tc);
                assert(cases_view(out@) =~= cases_view(old_out).push(tc@));
                cursor = c + close_marker.len();
            }
        }
    }
    assert(cases_view(out@) + scan_from(x@, cursor as int) =~= cases_view(out@));
    out
}

// ---------------------------------------------------------------------------
// Findings
// ---------------------------------------------------------------------------

/// Most findings a verdict carries.
pub const MAX_FINDINGS: usize = 50;

/// `classname::name` (just `name` when the class name is empty), or
/// whichever one is present, or `<unknown test>`.
pub open spec fn test_label(classname: Option<Seq<char>>, name: Option<Seq<char>>) -> Seq<char> {
    match (classname, name) {
        (Some(c), Some(n)) => if c.len() > 0 {
            c + "::"@ + n
        } else {
            n
        },
        (None, Some(n)) => n,
        (Some(c), None) => c,
        (None, None) => "<unknown test>"@,
    }
}

pub open spec fn spec_build_finding(check: Seq<char>, tc: TestCaseView) -> FindingView {
    let label = test_label(tc.classname, tc.name);
    let message = match tc.failure_message {
        Some(m) => if m.len() > 0 {
            "test `"@ + label + "` failed: "@ + m
        } else {
            "test `"@ + label + "` failed"@
        },
        None => "test `"@ + label + "` failed"@,
    };
    spec_finding("pytest"@, check, "failure"@, message, tc.file, tc.line, Severity::Error)
}

/// The finding for one failed test case: rule `pytest:<check>:failure`,
/// message ``test `<label>` failed: <message>``, the case's file and line.
pub fn build_finding(check_name: &str, tc: &TestCase) -> (r: Finding)
    ensures
        r@ == spec_build_finding(check_name@, tc@),
{
    let label: Vec<char> = match (&tc.classname, &tc.name) {
        (Some(c), Some(n)) => {
            if !c.as_str().is_empty() {
                let mut l = to_chars(c.as_str());
                extend_str(&mut l, "::");
                extend_str(&mut l, n.as_str());
                l
            } else {
                to_chars(n.as_str())
            }
        },
        (None, Some(n)) => to_chars(n.as_str()),
        (Some(c), None) => to_chars(c.as_str()),
        (None, None) => to_chars("<unknown test>"),
    };
    let mut message = to_chars("test `");
    extend(&mut message, &label);
    match &tc.failure_message {
        Some(m) => {
            if !m.as_str().is_empty() {
                extend_str(&mut message, "` failed: ");
                extend_str(&mut message, m.as_str());
            } else {
                extend_str(&mut message, "` failed");
            }
        },
        None => {
            extend_str(&mut message, "` failed");
        },
    }
    let file = match &tc.file {
        Some(f) => Some(from_chars(&to_chars(f.as_str()))),
        None => None,
    };
    let message = from_chars(&message);
    finding("pytest", check_name, "failure", message.as_str(), file, tc.line, Severity::Error)
}

/// Findings for the failed cases among `cases`, in order, at most `cap`.
pub open spec fn failure_findings(check: Seq<char>, cases: Seq<TestCaseView>, cap: nat) -> Seq<
    FindingView,
>
    decreases cases.len(),
{
    if cases.len() == 0 || cap == 0 {
        Seq::empty()
    } else if cases[0].failure_message is Some {
        seq![spec_build_finding(check, cases[0])] + failure_findings(
            check,
            cases.drop_first(),
            (cap - 1) as nat,
        )
    } else {
        failure_findings(check, cases.drop_first(), cap)
    }
}

pub proof fn lemma_failure_findings_capped(check: Seq<char>, cases: Seq<TestCaseView>, cap: nat)
    ensures
        failure_findings(check, cases, cap).len() <= cap,
    decreases cases.len(),
{
    if cases.len() > 0 && cap > 0 {
        if cases[0].failure_message is Some {
            lemma_failure_findings_capped(check, cases.drop_first(), (cap - 1) as nat);
        } else {
            lemma_failure_findings_capped(check, cases.drop_first(), cap);
        }
    }
}

pub open spec fn spec_collect_failures(check: Seq<char>, xml: Seq<char>) -> Seq<FindingView> {
    failure_findings(check, spec_scan_testcases(xml), MAX_FINDINGS as nat)
}

/// One finding per failed or errored test case of the report, in order,
/// at most [`MAX_FINDINGS`].
pub fn collect_failures(check_name: &str, xml: &str) -> (r: Vec<Finding>)
    ensures
        findings_view(r@) == spec_collect_failures(check_name@, xml@),
        r@.len() <= MAX_FINDINGS,
{
    let cases = scan_testcases(xml);
    let n = cases.len();
    let mut out: Vec<Finding> = Vec::new();
    let mut i: usize = 0;
    assert(cases_view(cases@).skip(0) =~= cases_view(cases@));
    while i < n && out.len() < MAX_FINDINGS
        invariant
            n == cases@.len(),
            i <= n,
            out@.len() <= MAX_FINDINGS,
            findings_view(out@) + failure_findings(
                check_name@,
                cases_view(cases@).skip(i as int),
                (MAX_FINDINGS - out@.len()) as nat,
            ) == spec_collect_failures(check_name@, xml@),
        decreases n - i,
    {
        let ghost rest = cases_view(cases@).skip(i as int);
        let ghost old_out = out@;
        assert(rest[0] == cases@[i as int]@);
        assert(rest.drop_first() =~= cases_view(cases@).skip(i + 1));
        if cases[i].failure_message.is_some() {
            let f = build_finding(check_name, &cases[i]);
            out.push(f);
            assert(findings_view(out@) =~= findings_view(old_out) + seq![f@]);
        }
        i += 1;
    }
    proof {
        let rest = cases_view(cases@).skip(i as int);
        if i == n {
            assert(rest.len() == 0);
        }
        assert(failure_findings(check_name@, rest, (MAX_FINDINGS - out@.len()) as nat)
            =~= Seq::<FindingView>::empty());
        assert(findings_view(out@) + Seq::<FindingView>::empty() =~= findings_view(out@));
    }
    out
}

pub open spec fn spec_summarise_failures(n: nat) -> Seq<char> {
    if n == 1 {
        "pytest reported 1 test failure"@
    } else {
        "pytest reported "@ + decimal(n) + " test failures"@
    }
}

/// `pytest reported 1 test failure` / `pytest reported N test failures`.
pub fn summarise_failures(findings: &Vec<Finding>) -> (r: String)
    ensures
        r@ == spec_summarise_failures(findings@.len()),
{
    let n = findings.len();
    if n == 1 {
        from_chars(&to_chars("pytest reported 1 test failure"))
    } else {
        let mut out = to_chars("pytest reported ");
        crate::text::push_decimal(&mut out, n as u64);
        extend_str(&mut out, " test failures");
        from_chars(&out)
    }
}

} // verus!
