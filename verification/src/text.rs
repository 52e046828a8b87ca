//! Character-sequence helpers shared by every parser and renderer.
//!
//! Text is modelled as `Seq<char>` (the view of `str` and `String`).
//! Executable code works on `Vec<char>` copies and converts back to
//! `String` at the edges.

use vstd::prelude::*;

verus! {

/// Unicode `White_Space`, as `char::is_whitespace` documents it.
pub open spec fn is_ws(c: char) -> bool {
    ||| ('\u{9}' <= c && c <= '\u{d}')
    ||| c == ' '
    ||| c == '\u{85}'
    ||| c == '\u{a0}'
    ||| c == '\u{1680}'
    ||| ('\u{2000}' <= c && c <= '\u{200a}')
    ||| c == '\u{2028}'
    ||| c == '\u{2029}'
    ||| c == '\u{202f}'
    ||| c == '\u{205f}'
    ||| c == '\u{3000}'
}

/// ASCII whitespace, as `char::is_ascii_whitespace` documents it.
pub open spec fn is_ascii_ws(c: char) -> bool {
    c == ' ' || c == '\t' || c == '\n' || c == '\u{c}' || c == '\r'
}

pub open spec fn is_ascii_digit(c: char) -> bool {
    '0' <= c && c <= '9'
}

pub fn char_is_ws(c: char) -> (r: bool)
    ensures
        r == is_ws(c),
{
    ('\u{9}' <= c && c <= '\u{d}') || c == ' ' || c == '\u{85}' || c == '\u{a0}' || c
        == '\u{1680}' || ('\u{2000}' <= c && c <= '\u{200a}') || c == '\u{2028}' || c
        == '\u{2029}' || c == '\u{202f}' || c == '\u{205f}' || c == '\u{3000}'
}

pub fn char_is_ascii_ws(c: char) -> (r: bool)
    ensures
        r == is_ascii_ws(c),
{
    c == ' ' || c == '\t' || c == '\n' || c == '\u{c}' || c == '\r'
}

pub fn char_is_ascii_digit(c: char) -> (r: bool)
    ensures
        r == is_ascii_digit(c),
{
    '0' <= c && c <= '9'
}

/// What `char::is_alphanumeric` answers (Unicode `Alphabetic` or `Numeric`).
pub uninterp spec fn unicode_alphanumeric(c: char) -> bool;

pub open spec fn is_ascii_alnum(c: char) -> bool {
    ('a' <= c && c <= 'z') || ('A' <= c && c <= 'Z') || ('0' <= c && c <= '9')
}

/// `char::is_alphanumeric`. The contract names the answer and states the
/// documented ASCII case: an ASCII character is alphanumeric exactly when
/// it is a letter or a digit. Non-ASCII answers are left unstated.
#[verifier::external_body]
pub(crate) fn char_is_alphanumeric(c: char) -> (r: bool)
    ensures
        r == unicode_alphanumeric(c),
        (c as u32) < 128 ==> (r <==> is_ascii_alnum(c)),
{
    c.is_alphanumeric()
}

// ---------------------------------------------------------------------------
// Conversions
// ---------------------------------------------------------------------------

/// Copy the characters of `s` into a vector.
pub fn to_chars(s: &str) -> (v: Vec<char>)
    ensures
        v@ == s@,
{
    let mut v: Vec<char> = Vec::new();
    for c in it: s.chars()
        invariant
            v@ == it.seq().take(it.index() as int),
    {
        v.push(c);
    }
    v
}

/// `String::push`: appends one character.
#[verifier::external_body]
fn string_push(s: &mut String, c: char)
    ensures
        final(s)@ == old(s)@.push(c),
{
    s.push(c);
}

/// Build a `String` holding exactly the characters of `v`.
pub fn from_chars(v: &Vec<char>) -> (s: String)
    ensures
        s@ == v@,
{
    let mut s = String::new();
    let n = v.len();
    for i in 0..n
        invariant
            n == v@.len(),
            s@ == v@.take(i as int),
    {
        string_push(&mut s, v[i]);
        assert(v@.take(i + 1) == v@.take(i as int).push(v@[i as int]));
    }
    assert(v@.take(n as int) == v@);
    s
}

/// Append the characters of `src` to `dst`.
pub fn extend(dst: &mut Vec<char>, src: &Vec<char>)
    ensures
        final(dst)@ == old(dst)@ + src@,
{
    let n = src.len();
    for i in 0..n
        invariant
            n == src@.len(),
            dst@ == old(dst)@ + src@.take(i as int),
    {
        dst.push(src[i]);
        assert(src@.take(i + 1) == src@.take(i as int).push(src@[i as int]));
    }
    assert(src@.take(n as int) == src@);
}

/// Append the characters of `src` to `dst`.
pub fn extend_str(dst: &mut Vec<char>, src: &str)
    ensures
        final(dst)@ == old(dst)@ + src@,
{
    let v = to_chars(src);
    extend(dst, &v);
}

/// Copy `s[lo..hi]`.
pub fn slice(s: &Vec<char>, lo: usize, hi: usize) -> (r: Vec<char>)
    requires
        lo <= hi <= s@.len(),
    ensures
        r@ == s@.subrange(lo as int, hi as int),
{
    let mut r: Vec<char> = Vec::new();
    let mut i = lo;
    while i < hi
        invariant
            lo <= i <= hi <= s@.len(),
            r@ == s@.subrange(lo as int, i as int),
        decreases hi - i,
    {
        r.push(s[i]);
        assert(s@.subrange(lo as int, i + 1) == s@.subrange(lo as int, i as int).push(s@[i as int]));
        i += 1;
    }
    r
}

// ---------------------------------------------------------------------------
// Prefix / suffix / search
// ---------------------------------------------------------------------------

/// `s[i..]` starts with `p`.
pub open spec fn matches_at(s: Seq<char>, i: int, p: Seq<char>) -> bool {
    0 <= i && i + p.len() <= s.len() && s.subrange(i, i + p.len()) == p
}

pub open spec fn starts_with(s: Seq<char>, p: Seq<char>) -> bool {
    matches_at(s, 0, p)
}

pub open spec fn ends_with(s: Seq<char>, p: Seq<char>) -> bool {
    p.len() <= s.len() && matches_at(s, s.len() - p.len(), p)
}

/// First index `>= i` where `p` occurs in `s`.
pub open spec fn find_from(s: Seq<char>, p: Seq<char>, i: int) -> Option<int>
    decreases s.len() + 1 - i,
{
    if i < 0 || i + p.len() > s.len() {
        None
    } else if matches_at(s, i, p) {
        Some(i)
    } else {
        find_from(s, p, i + 1)
    }
}

pub open spec fn contains(s: Seq<char>, p: Seq<char>) -> bool {
    find_from(s, p, 0) is Some
}

/// Where a search can land.
pub proof fn lemma_find_from_bounds(s: Seq<char>, p: Seq<char>, i: int)
    ensures
        find_from(s, p, i) is Some ==> i <= find_from(s, p, i)->0 && find_from(s, p, i)->0 + p.len()
            <= s.len() && matches_at(s, find_from(s, p, i)->0, p),
    decreases s.len() + 1 - i,
{
    if !(i < 0 || i + p.len() > s.len()) && !matches_at(s, i, p) {
        lemma_find_from_bounds(s, p, i + 1);
    }
}

pub fn matches_at_exec(s: &Vec<char>, i: usize, p: &Vec<char>) -> (r: bool)
    ensures
        r == matches_at(s@, i as int, p@),
{
    if i > s.len() || p.len() > s.len() - i {
        return false;
    }
    let n = p.len();
    let mut k: usize = 0;
    while k < n
        invariant
            n == p@.len(),
            i + n <= s.len(),
            0 <= k <= n,
            forall|j: int| 0 <= j < k ==> s@[i + j] == p@[j],
        decreases n - k,
    {
        if s[i + k] != p[k] {
            assert(s@.subrange(i as int, i + n)[k as int] != p@[k as int]);
            return false;
        }
        k += 1;
    }
    assert(s@.subrange(i as int, i + n) =~= p@);
    true
}

pub fn starts_with_exec(s: &Vec<char>, p: &Vec<char>) -> (r: bool)
    ensures
        r == starts_with(s@, p@),
{
    matches_at_exec(s, 0, p)
}

pub fn ends_with_exec(s: &Vec<char>, p: &Vec<char>) -> (r: bool)
    ensures
        r == ends_with(s@, p@),
{
    if p.len() > s.len() {
        false
    } else {
        matches_at_exec(s, s.len() - p.len(), p)
    }
}

pub fn find_from_exec(s: &Vec<char>, p: &Vec<char>, i: usize) -> (r: Option<usize>)
    ensures
        r matches Some(k) ==> find_from(s@, p@, i as int) == Some(k as int),
        r is None ==> find_from(s@, p@, i as int) is None,
{
    if p.len() == 0 {
        if i <= s.len() {
            assert(s@.subrange(i as int, i as int) =~= p@);
            return Some(i);
        }
        return None;
    }
    let mut k = i;
    while k <= s.len() && p.len() <= s.len() - k
        invariant
            i <= k,
            p@.len() >= 1,
            find_from(s@, p@, i as int) == find_from(s@, p@, k as int),
        decreases s@.len() - k,
    {
        if matches_at_exec(s, k, p) {
            return Some(k);
        }
        k += 1;
    }
    None
}

pub fn contains_exec(s: &Vec<char>, p: &Vec<char>) -> (r: bool)
    ensures
        r == contains(s@, p@),
{
    find_from_exec(s, p, 0).is_some()
}

/// Convenience: does `s` contain the literal `p`?
pub fn contains_str(s: &Vec<char>, p: &str) -> (r: bool)
    ensures
        r == contains(s@, p@),
{
    let pv = to_chars(p);
    contains_exec(s, &pv)
}

pub fn starts_with_str(s: &Vec<char>, p: &str) -> (r: bool)
    ensures
        r == starts_with(s@, p@),
{
    let pv = to_chars(p);
    starts_with_exec(s, &pv)
}

pub fn ends_with_str(s: &Vec<char>, p: &str) -> (r: bool)
    ensures
        r == ends_with(s@, p@),
{
    let pv = to_chars(p);
    ends_with_exec(s, &pv)
}

pub fn eq_str(s: &Vec<char>, p: &str) -> (r: bool)
    ensures
        r == (s@ == p@),
{
    let pv = to_chars(p);
    if s.len() != pv.len() {
        return false;
    }
    let b = starts_with_exec(s, &pv);
    assert(s@.subrange(0, pv@.len() as int) =~= s@);
    b
}

/// Character-wise equality of two string slices.
pub fn str_eq(a: &str, b: &str) -> (r: bool)
    ensures
        r == (a@ == b@),
{
    let av = to_chars(a);
    eq_str(&av, b)
}

// ---------------------------------------------------------------------------
// Trimming
// ---------------------------------------------------------------------------

pub open spec fn trim_start(s: Seq<char>) -> Seq<char>
    decreases s.len(),
{
    if s.len() > 0 && is_ws(s[0]) {
        trim_start(s.drop_first())
    } else {
        s
    }
}

pub open spec fn trim_end(s: Seq<char>) -> Seq<char>
    decreases s.len(),
{
    if s.len() > 0 && is_ws(s.last()) {
        trim_end(s.drop_last())
    } else {
        s
    }
}

/// `str::trim`: leading and trailing Unicode whitespace removed.
pub open spec fn trim(s: Seq<char>) -> Seq<char> {
    trim_end(trim_start(s))
}

/// `trim_start(s)` is a suffix of `s`.
pub proof fn lemma_trim_start_suffix(s: Seq<char>)
    ensures
        trim_start(s).len() <= s.len(),
        trim_start(s) == s.skip(s.len() - trim_start(s).len()),
    decreases s.len(),
{
    if s.len() > 0 && is_ws(s[0]) {
        lemma_trim_start_suffix(s.drop_first());
        assert(s.drop_first().skip(s.drop_first().len() - trim_start(s.drop_first()).len())
            =~= s.skip(s.len() - trim_start(s).len()));
    } else {
        assert(s.skip(0) =~= s);
    }
}

/// `trim_end(s)` is a prefix of `s`.
pub proof fn lemma_trim_end_prefix(s: Seq<char>)
    ensures
        trim_end(s).len() <= s.len(),
        trim_end(s) == s.take(trim_end(s).len() as int),
    decreases s.len(),
{
    if s.len() > 0 && is_ws(s.last()) {
        lemma_trim_end_prefix(s.drop_last());
        assert(s.drop_last().take(trim_end(s.drop_last()).len() as int)
            =~= s.take(trim_end(s).len() as int));
    } else {
        assert(s.take(s.len() as int) =~= s);
    }
}

/// Index of the first non-whitespace character at or after `lo`.
fn skip_ws(s: &Vec<char>, lo: usize, hi: usize) -> (r: usize)
    requires
        lo <= hi <= s@.len(),
    ensures
        lo <= r <= hi,
        trim_start(s@.subrange(lo as int, hi as int)) == s@.subrange(r as int, hi as int),
{
    let mut i = lo;
    while i < hi && char_is_ws(s[i])
        invariant
            lo <= i <= hi <= s@.len(),
            trim_start(s@.subrange(lo as int, hi as int)) == trim_start(
                s@.subrange(i as int, hi as int),
            ),
        decreases hi - i,
    {
        assert(s@.subrange(i as int, hi as int).drop_first() =~= s@.subrange(i + 1, hi as int));
        i += 1;
    }
    i
}

/// End index after dropping trailing whitespace from `s[lo..hi]`.
fn skip_ws_back(s: &Vec<char>, lo: usize, hi: usize) -> (r: usize)
    requires
        lo <= hi <= s@.len(),
    ensures
        lo <= r <= hi,
        trim_end(s@.subrange(lo as int, hi as int)) == s@.subrange(lo as int, r as int),
{
    let mut j = hi;
    while j > lo && char_is_ws(s[j - 1])
        invariant
            lo <= j <= hi <= s@.len(),
            trim_end(s@.subrange(lo as int, hi as int)) == trim_end(
                s@.subrange(lo as int, j as int),
            ),
        decreases j - lo,
    {
        assert(s@.subrange(lo as int, j as int).drop_last() =~= s@.subrange(lo as int, j - 1));
        j -= 1;
    }
    j
}

/// `str::trim` on a character vector.
pub fn trim_exec(s: &Vec<char>) -> (r: Vec<char>)
    ensures
        r@ == trim(s@),
{
    let n = s.len();
    assert(s@.subrange(0, n as int) =~= s@);
    let lo = skip_ws(s, 0, n);
    let hi = skip_ws_back(s, lo, n);
    slice(s, lo, hi)
}

/// `str::trim_end` on a character vector.
pub fn trim_end_exec(s: &Vec<char>) -> (r: Vec<char>)
    ensures
        r@ == trim_end(s@),
{
    let n = s.len();
    assert(s@.subrange(0, n as int) =~= s@);
    let hi = skip_ws_back(s, 0, n);
    slice(s, 0, hi)
}

/// `str::trim_start` on a character vector.
pub fn trim_start_exec(s: &Vec<char>) -> (r: Vec<char>)
    ensures
        r@ == trim_start(s@),
{
    let n = s.len();
    assert(s@.subrange(0, n as int) =~= s@);
    let lo = skip_ws(s, 0, n);
    slice(s, lo, n)
}

/// `str::trim_end_matches(c)` for one character.
pub open spec fn strip_trailing(s: Seq<char>, c: char) -> Seq<char>
    decreases s.len(),
{
    if s.len() > 0 && s.last() == c {
        strip_trailing(s.drop_last(), c)
    } else {
        s
    }
}

/// `str::trim_end_matches(c)` on a character vector.
pub fn strip_trailing_exec(s: &Vec<char>, c: char) -> (r: Vec<char>)
    ensures
        r@ == strip_trailing(s@, c),
{
    let mut j = s.len();
    assert(s@.subrange(0, j as int) =~= s@);
    while j > 0 && s[j - 1] == c
        invariant
            j <= s@.len(),
            strip_trailing(s@, c) == strip_trailing(s@.subrange(0, j as int), c),
        decreases j,
    {
        assert(s@.subrange(0, j as int).drop_last() =~= s@.subrange(0, j - 1));
        j -= 1;
    }
    slice(s, 0, j)
}

/// `str::trim_start_matches(c)` for one character.
pub open spec fn strip_leading(s: Seq<char>, c: char) -> Seq<char>
    decreases s.len(),
{
    if s.len() > 0 && s[0] == c {
        strip_leading(s.drop_first(), c)
    } else {
        s
    }
}

/// `str::trim_start_matches(c)` on a character vector.
pub fn strip_leading_exec(s: &Vec<char>, c: char) -> (r: Vec<char>)
    ensures
        r@ == strip_leading(s@, c),
{
    let n = s.len();
    let mut i: usize = 0;
    assert(s@.subrange(0, n as int) =~= s@);
    while i < n && s[i] == c
        invariant
            i <= n == s@.len(),
            strip_leading(s@, c) == strip_leading(s@.subrange(i as int, n as int), c),
        decreases n - i,
    {
        assert(s@.subrange(i as int, n as int).drop_first() =~= s@.subrange(i + 1, n as int));
        i += 1;
    }
    slice(s, i, n)
}

// ---------------------------------------------------------------------------
// Lines
// ---------------------------------------------------------------------------

/// First index `>= i` holding `c`, or `s.len()` when there is none.
pub open spec fn find_char_from(s: Seq<char>, c: char, i: int) -> int
    decreases s.len() - i,
{
    if i < 0 || i >= s.len() {
        s.len() as int
    } else if s[i] == c {
        i
    } else {
        find_char_from(s, c, i + 1)
    }
}

pub proof fn lemma_find_char_from(s: Seq<char>, c: char, i: int)
    requires
        0 <= i <= s.len(),
    ensures
        i <= find_char_from(s, c, i) <= s.len(),
        find_char_from(s, c, i) < s.len() ==> s[find_char_from(s, c, i)] == c,
        forall|j: int| i <= j < find_char_from(s, c, i) ==> s[j] != c,
    decreases s.len() - i,
{
    if i < s.len() && s[i] != c {
        lemma_find_char_from(s, c, i + 1);
    }
}

pub fn find_char_exec(s: &Vec<char>, c: char, i: usize) -> (r: usize)
    requires
        i <= s@.len(),
    ensures
        r == find_char_from(s@, c, i as int),
{
    let mut k = i;
    while k < s.len() && s[k] != c
        invariant
            i <= k <= s@.len(),
            find_char_from(s@, c, i as int) == find_char_from(s@, c, k as int),
        decreases s@.len() - k,
    {
        k += 1;
    }
    k
}

/// A line loses one trailing `'\r'` when it was ended by `'\n'`.
pub open spec fn strip_cr(t: Seq<char>) -> Seq<char> {
    if t.len() > 0 && t.last() == '\r' {
        t.drop_last()
    } else {
        t
    }
}

pub open spec fn first_line(s: Seq<char>) -> Seq<char> {
    let k = find_char_from(s, '\n', 0);
    if k < s.len() {
        strip_cr(s.take(k))
    } else {
        s
    }
}

pub open spec fn after_first_line(s: Seq<char>) -> Seq<char> {
    let k = find_char_from(s, '\n', 0);
    if k < s.len() {
        s.skip(k + 1)
    } else {
        Seq::empty()
    }
}

pub proof fn lemma_after_first_line_shorter(s: Seq<char>)
    requires
        s.len() > 0,
    ensures
        after_first_line(s).len() < s.len(),
{
    lemma_find_char_from(s, '\n', 0);
}

/// `str::lines`: split at `"\n"` (a preceding `'\r'` is dropped with it);
/// the final line ending is optional.
pub open spec fn lines(s: Seq<char>) -> Seq<Seq<char>>
    decreases s.len(),
{
    if s.len() == 0 {
        Seq::empty()
    } else {
        proof {
            lemma_after_first_line_shorter(s);
        }
        seq![first_line(s)] + lines(after_first_line(s))
    }
}

pub open spec fn views(v: Seq<Vec<char>>) -> Seq<Seq<char>> {
    v.map_values(|x: Vec<char>| x@)
}

/// `str::lines` on a character vector.
pub fn split_lines(s: &Vec<char>) -> (r: Vec<Vec<char>>)
    ensures
        views(r@) == lines(s@),
{
    let n = s.len();
    let mut out: Vec<Vec<char>> = Vec::new();
    let mut pos: usize = 0;
    assert(s@.skip(0) =~= s@);
    while pos < n
        invariant
            n == s@.len(),
            pos <= n,
            views(out@) + lines(s@.skip(pos as int)) == lines(s@),
        decreases n - pos,
    {
        let ghost rest = s@.skip(pos as int);
        let k = find_char_exec(s, '\n', pos);
        proof {
            lemma_find_char_from(s@, '\n', pos as int);
            lemma_find_char_from(rest, '\n', 0);
            assert forall|j: int| pos <= j <= n implies find_char_from(s@, '\n', j)
                == find_char_from(rest, '\n', j - pos) + pos by {
                lemma_find_char_shift(s@, pos as int, j);
            }
        }
        let line;
        if k < n {
            let mut end = k;
            if end > pos && s[end - 1] == '\r' {
                end = end - 1;
            }
            line = slice(s, pos, end);
            assert(rest.take(k - pos) =~= s@.subrange(pos as int, k as int));
            assert(line@ =~= first_line(rest));
            assert(s@.skip(k + 1) =~= after_first_line(rest));
            pos = k + 1;
        } else {
            line = slice(s, pos, n);
            assert(line@ =~= first_line(rest));
            assert(s@.skip(n as int) =~= after_first_line(rest));
            pos = n;
        }
        let ghost old_out = out@;
        out.push(line);
        assert(views(out@) =~= views(old_out).push(line@));
        assert(lines(rest) == seq![first_line(rest)] + lines(after_first_line(rest)));
        assert(views(out@) + lines(s@.skip(pos as int)) =~= views(old_out) + lines(rest));
    }
    assert(s@.skip(n as int) =~= Seq::<char>::empty());
    assert(views(out@) + Seq::<Seq<char>>::empty() =~= views(out@));
    out
}

pub proof fn lemma_find_char_shift(s: Seq<char>, pos: int, j: int)
    requires
        0 <= pos <= j <= s.len(),
    ensures
        find_char_from(s, '\n', j) == find_char_from(s.skip(pos), '\n', j - pos) + pos,
    decreases s.len() - j,
{
    if j < s.len() && s[j] != '\n' {
        lemma_find_char_shift(s, pos, j + 1);
    }
}

/// The first line holding something other than whitespace.
pub open spec fn first_nonblank(ls: Seq<Seq<char>>) -> Option<Seq<char>>
    decreases ls.len(),
{
    if ls.len() == 0 {
        None
    } else if trim(ls[0]).len() > 0 {
        Some(ls[0])
    } else {
        first_nonblank(ls.drop_first())
    }
}

/// `lines().find(|l| !l.trim().is_empty())` on a character vector.
pub fn first_nonblank_line(s: &Vec<char>) -> (r: Option<Vec<char>>)
    ensures
        match r {
            Some(l) => first_nonblank(lines(s@)) == Some(l@),
            None => first_nonblank(lines(s@)) is None,
        },
{
    let ls = split_lines(s);
    let n = ls.len();
    let mut i: usize = 0;
    assert(views(ls@).skip(0) =~= views(ls@));
    while i < n
        invariant
            n == ls@.len(),
            i <= n,
            views(ls@) == lines(s@),
            first_nonblank(lines(s@)) == first_nonblank(views(ls@).skip(i as int)),
        decreases n - i,
    {
        assert(views(ls@).skip(i as int)[0] == ls@[i as int]@);
        let t = trim_exec(&ls[i]);
        if t.len() > 0 {
            return Some(slice(&ls[i], 0, ls[i].len()));
        }
        assert(views(ls@).skip(i as int).drop_first() =~= views(ls@).skip(i + 1));
        i += 1;
    }
    None
}

// ---------------------------------------------------------------------------
// Whitespace-separated tokens
// ---------------------------------------------------------------------------

/// Separator predicate: Unicode whitespace, or ASCII whitespace only.
pub open spec fn ws_by(c: char, ascii: bool) -> bool {
    if ascii {
        is_ascii_ws(c)
    } else {
        is_ws(c)
    }
}

pub open spec fn find_ws_from(s: Seq<char>, i: int, ascii: bool) -> int
    decreases s.len() - i,
{
    if i < 0 || i >= s.len() {
        s.len() as int
    } else if ws_by(s[i], ascii) {
        i
    } else {
        find_ws_from(s, i + 1, ascii)
    }
}

pub proof fn lemma_find_ws_from(s: Seq<char>, i: int, ascii: bool)
    requires
        0 <= i <= s.len(),
    ensures
        i <= find_ws_from(s, i, ascii) <= s.len(),
        find_ws_from(s, i, ascii) < s.len() ==> ws_by(s[find_ws_from(s, i, ascii)], ascii),
        forall|j: int| i <= j < find_ws_from(s, i, ascii) ==> !ws_by(s[j], ascii),
    decreases s.len() - i,
{
    if i < s.len() && !ws_by(s[i], ascii) {
        lemma_find_ws_from(s, i + 1, ascii);
    }
}

pub proof fn lemma_find_ws_shift(s: Seq<char>, pos: int, j: int, ascii: bool)
    requires
        0 <= pos <= j <= s.len(),
    ensures
        find_ws_from(s, j, ascii) == find_ws_from(s.skip(pos), j - pos, ascii) + pos,
    decreases s.len() - j,
{
    if j < s.len() && !ws_by(s[j], ascii) {
        lemma_find_ws_shift(s, pos, j + 1, ascii);
    }
}

/// `str::split_whitespace` (or `split_ascii_whitespace` when `ascii`):
/// the maximal runs of non-separator characters.
pub open spec fn tokens_by(s: Seq<char>, ascii: bool) -> Seq<Seq<char>>
    decreases s.len(),
{
    if s.len() == 0 {
        Seq::empty()
    } else if ws_by(s[0], ascii) {
        tokens_by(s.drop_first(), ascii)
    } else {
        let k = find_ws_from(s, 0, ascii);
        proof {
            lemma_find_ws_from(s, 0, ascii);
            lemma_find_ws_from(s, 1, ascii);
        }
        seq![s.take(k)] + tokens_by(s.skip(k), ascii)
    }
}

pub open spec fn tokens(s: Seq<char>) -> Seq<Seq<char>> {
    tokens_by(s, false)
}

fn char_is_ws_by(c: char, ascii: bool) -> (r: bool)
    ensures
        r == ws_by(c, ascii),
{
    if ascii {
        char_is_ascii_ws(c)
    } else {
        char_is_ws(c)
    }
}

/// `split_whitespace` / `split_ascii_whitespace` on a character vector.
pub fn split_tokens(s: &Vec<char>, ascii: bool) -> (r: Vec<Vec<char>>)
    ensures
        views(r@) == tokens_by(s@, ascii),
{
    let n = s.len();
    let mut out: Vec<Vec<char>> = Vec::new();
    let mut pos: usize = 0;
    assert(s@.skip(0) =~= s@);
    while pos < n
        invariant
            n == s@.len(),
            pos <= n,
            views(out@) + tokens_by(s@.skip(pos as int), ascii) == tokens_by(s@, ascii),
        decreases n - pos,
    {
        let ghost rest = s@.skip(pos as int);
        if char_is_ws_by(s[pos], ascii) {
            assert(rest.drop_first() =~= s@.skip(pos + 1));
            pos += 1;
        } else {
            let mut k = pos + 1;
            while k < n && !char_is_ws_by(s[k], ascii)
                invariant
                    pos < k <= n == s@.len(),
                    forall|j: int| pos <= j < k ==> !ws_by(s@[j], ascii),
                decreases n - k,
            {
                k += 1;
            }
            proof {
                lemma_find_ws_from(rest, 0, ascii);
                assert(find_ws_from(rest, 0, ascii) == k - pos) by {
                    lemma_find_ws_shift(s@, pos as int, pos as int, ascii);
                    lemma_find_ws_from(s@, pos as int, ascii);
                    if find_ws_from(s@, pos as int, ascii) < k {
                        assert(!ws_by(s@[find_ws_from(s@, pos as int, ascii)], ascii));
                    }
                }
            }
            let tok = slice(s, pos, k);
            assert(tok@ =~= rest.take(k - pos));
            assert(rest.skip(k - pos) =~= s@.skip(k as int));
            let ghost old_out = out@;
            out.push(tok);
            assert(views(out@) =~= views(old_out).push(tok@));
            assert(views(out@) + tokens_by(s@.skip(k as int), ascii) =~= views(old_out)
                + tokens_by(rest, ascii));
            pos = k;
        }
    }
    assert(s@.skip(n as int) =~= Seq::<char>::empty());
    assert(views(out@) + Seq::<Seq<char>>::empty() =~= views(out@));
    out
}

// ---------------------------------------------------------------------------
// Splitting on one character
// ---------------------------------------------------------------------------

/// `str::split(c)`: always at least one piece.
pub open spec fn split_char(s: Seq<char>, c: char) -> Seq<Seq<char>>
    decreases s.len(),
{
    let k = find_char_from(s, c, 0);
    if k < s.len() {
        proof {
            lemma_find_char_from(s, c, 0);
        }
        seq![s.take(k)] + split_char(s.skip(k + 1), c)
    } else {
        seq![s]
    }
}

pub proof fn lemma_find_char_shift_any(s: Seq<char>, c: char, pos: int, j: int)
    requires
        0 <= pos <= j <= s.len(),
    ensures
        find_char_from(s, c, j) == find_char_from(s.skip(pos), c, j - pos) + pos,
    decreases s.len() - j,
{
    if j < s.len() && s[j] != c {
        lemma_find_char_shift_any(s, c, pos, j + 1);
    }
}

pub proof fn lemma_split_char_len(s: Seq<char>, c: char)
    ensures
        split_char(s, c).len() >= 1,
        split_char(s, c).len() >= 2 <==> find_char_from(s, c, 0) < s.len(),
        split_char(s, c)[0] == s.take(find_char_from(s, c, 0)),
    decreases s.len(),
{
    lemma_find_char_from(s, c, 0);
    if find_char_from(s, c, 0) < s.len() {
        lemma_split_char_len(s.skip(find_char_from(s, c, 0) + 1), c);
    } else {
        assert(s.take(s.len() as int) =~= s);
    }
}

/// `str::split(c)` on a character vector.
pub fn split_on_char(s: &Vec<char>, c: char) -> (r: Vec<Vec<char>>)
    ensures
        views(r@) == split_char(s@, c),
{
    let n = s.len();
    let mut out: Vec<Vec<char>> = Vec::new();
    let mut pos: usize = 0;
    assert(s@.skip(0) =~= s@);
    loop
        invariant
            n == s@.len(),
            pos <= n,
            views(out@) + split_char(s@.skip(pos as int), c) == split_char(s@, c),
        decreases n - pos,
    {
        let ghost rest = s@.skip(pos as int);
        let k = find_char_exec(s, c, pos);
        proof {
            lemma_find_char_from(s@, c, pos as int);
            lemma_find_char_shift_any(s@, c, pos as int, pos as int);
        }
        let piece = slice(s, pos, k);
        assert(piece@ =~= rest.take(k - pos));
        let ghost old_out = out@;
        out.push(piece);
        assert(views(out@) =~= views(old_out).push(piece@));
        if k < n {
            assert(rest.skip(k - pos + 1) =~= s@.skip(k + 1));
            assert(views(out@) + split_char(s@.skip(k + 1), c) =~= views(old_out) + split_char(
                rest,
                c,
            ));
            pos = k + 1;
        } else {
            assert(rest.take(k - pos) =~= rest);
            assert(views(out@) =~= views(old_out) + split_char(rest, c));
            return out;
        }
    }
}

// ---------------------------------------------------------------------------
// Numbers
// ---------------------------------------------------------------------------

pub open spec fn digit_val(c: char) -> int {
    (c as int) - ('0' as int)
}

pub open spec fn all_digits(d: Seq<char>) -> bool {
    forall|i: int| 0 <= i < d.len() ==> is_ascii_digit(#[trigger] d[i])
}

/// Value of a string of decimal digits.
pub open spec fn digits_value(d: Seq<char>) -> int
    decreases d.len(),
{
    if d.len() == 0 {
        0
    } else {
        digits_value(d.drop_last()) * 10 + digit_val(d.last())
    }
}

/// `<unsigned>::from_str`: an optional `'+'`, then one or more ASCII digits
/// whose value does not exceed `max`.
pub open spec fn parse_unsigned(s: Seq<char>, max: int) -> Option<int> {
    let d = if s.len() > 0 && s[0] == '+' {
        s.drop_first()
    } else {
        s
    };
    if d.len() > 0 && all_digits(d) && digits_value(d) <= max {
        Some(digits_value(d))
    } else {
        None
    }
}

pub proof fn lemma_digits_value_mono(d: Seq<char>, j: int)
    requires
        all_digits(d),
        0 <= j <= d.len(),
    ensures
        0 <= digits_value(d.take(j)) <= digits_value(d),
    decreases d.len(),
{
    if d.len() > 0 {
        if j == d.len() {
            assert(d.take(j) =~= d);
            lemma_digits_value_mono(d.drop_last(), j - 1);
        } else {
            assert(d.take(j) =~= d.drop_last().take(j));
            lemma_digits_value_mono(d.drop_last(), j);
            lemma_digits_value_mono(d.drop_last(), d.len() - 1);
            assert(d.drop_last().take(d.len() - 1) =~= d.drop_last());
        }
    } else {
        assert(d.take(j) =~= d);
    }
}

/// Parse an unsigned decimal no larger than `max`, as `u64::from_str` and
/// `u32::from_str` do.
pub fn parse_unsigned_exec(s: &Vec<char>, max: u64) -> (r: Option<u64>)
    ensures
        r matches Some(v) ==> parse_unsigned(s@, max as int) == Some(v as int),
        r is None ==> parse_unsigned(s@, max as int) is None,
{
    let n = s.len();
    let start: usize = if n > 0 && s[0] == '+' {
        1
    } else {
        0
    };
    let ghost d = if s@.len() > 0 && s@[0] == '+' {
        s@.drop_first()
    } else {
        s@
    };
    assert(d =~= s@.skip(start as int));
    if start >= n {
        return None;
    }
    let mut acc: u64 = 0;
    let mut overflow = false;
    let mut i = start;
    assert(d.take(0) =~= Seq::<char>::empty());
    while i < n
        invariant
            start <= i <= n == s@.len(),
            d == s@.skip(start as int),
            d == (if s@.len() > 0 && s@[0] == '+' {
                s@.drop_first()
            } else {
                s@
            }),
            forall|j: int| start <= j < i ==> is_ascii_digit(#[trigger] s@[j]),
            !overflow ==> acc == digits_value(d.take(i - start)) && acc <= max,
            overflow ==> digits_value(d.take(i - start)) > max,
        decreases n - i,
    {
        let c = s[i];
        if !char_is_ascii_digit(c) {
            assert(d[i - start] == s@[i as int]);
            assert(!is_ascii_digit(d[i - start]));
            assert(!all_digits(d));
            return None;
        }
        let dig: u64 = (c as u32 - '0' as u32) as u64;
        assert(d.take(i - start + 1).drop_last() =~= d.take(i - start));
        assert(d.take(i - start + 1).last() == c);
        if !overflow {
            if dig <= max && acc <= (max - dig) / 10 {
                assert(acc * 10 + dig <= max) by (nonlinear_arith)
                    requires
                        dig <= max,
                        acc <= (max - dig) / 10,
                ;
                acc = acc * 10 + dig;
            } else {
                assert(acc * 10 + dig > max) by (nonlinear_arith)
                    requires
                        !(dig <= max && acc <= (max - dig) / 10),
                        0 <= dig,
                        0 <= acc,
                ;
                overflow = true;
            }
        } else {
            proof {
                assert(all_digits(d.take(i - start + 1)));
                lemma_digits_value_mono(d.take(i - start + 1), i - start);
                assert(d.take(i - start + 1).take(i - start) =~= d.take(i - start));
            }
        }
        i += 1;
    }
    assert(d.take(n - start) =~= d);
    assert(all_digits(d)) by {
        assert forall|j: int| 0 <= j < d.len() implies is_ascii_digit(#[trigger] d[j]) by {
            assert(d[j] == s@[j + start]);
        }
    }
    if overflow {
        None
    } else {
        Some(acc)
    }
}

/// Decimal digits of `n`, as `Display` writes them.
pub open spec fn decimal(n: nat) -> Seq<char>
    decreases n,
{
    if n < 10 {
        seq![(n + '0' as nat) as char]
    } else {
        decimal(n / 10).push(((n % 10) + '0' as nat) as char)
    }
}

/// `Display` of a signed integer.
pub open spec fn signed_decimal(i: int) -> Seq<char> {
    if i < 0 {
        seq!['-'] + decimal((-i) as nat)
    } else {
        decimal(i as nat)
    }
}

/// Append the decimal digits of `n` to `out`.
pub fn push_decimal(out: &mut Vec<char>, n: u64)
    ensures
        final(out)@ == old(out)@ + decimal(n as nat),
    decreases n,
{
    if n < 10 {
        out.push(char_of_digit(n));
    } else {
        push_decimal(out, n / 10);
        out.push(char_of_digit(n % 10));
    }
}

fn char_of_digit(n: u64) -> (c: char)
    requires
        n < 10,
    ensures
        c == (n + '0' as nat) as char,
{
    if n == 0 {
        '0'
    } else if n == 1 {
        '1'
    } else if n == 2 {
        '2'
    } else if n == 3 {
        '3'
    } else if n == 4 {
        '4'
    } else if n == 5 {
        '5'
    } else if n == 6 {
        '6'
    } else if n == 7 {
        '7'
    } else if n == 8 {
        '8'
    } else {
        '9'
    }
}

/// Append `Display` of a signed 32-bit value to `out`.
pub fn push_signed_decimal(out: &mut Vec<char>, i: i32)
    ensures
        final(out)@ == old(out)@ + signed_decimal(i as int),
{
    if i < 0 {
        out.push('-');
        let m: i64 = -(i as i64);
        push_decimal(out, m as u64);
    } else {
        push_decimal(out, i as u64);
    }
}

// ---------------------------------------------------------------------------
// Replacement
// ---------------------------------------------------------------------------

/// `str::replace(from, to)` with a non-empty pattern: left-to-right,
/// non-overlapping.
pub open spec fn replace_all(s: Seq<char>, from: Seq<char>, to: Seq<char>) -> Seq<char>
    decreases s.len(),
{
    if from.len() == 0 || s.len() == 0 {
        s
    } else if starts_with(s, from) {
        to + replace_all(s.skip(from.len() as int), from, to)
    } else {
        seq![s[0]] + replace_all(s.drop_first(), from, to)
    }
}

/// `str::replace(from, to)` on a character vector (non-empty pattern).
pub fn replace_exec(s: &Vec<char>, from: &str, to: &str) -> (r: Vec<char>)
    requires
        from@.len() > 0,
    ensures
        r@ == replace_all(s@, from@, to@),
{
    let fv = to_chars(from);
    let tv = to_chars(to);
    let n = s.len();
    let mut out: Vec<char> = Vec::new();
    let mut pos: usize = 0;
    assert(s@.skip(0) =~= s@);
    while pos < n
        invariant
            n == s@.len(),
            pos <= n,
            fv@ == from@,
            tv@ == to@,
            fv@.len() > 0,
            out@ + replace_all(s@.skip(pos as int), from@, to@) == replace_all(s@, from@, to@),
        decreases n - pos,
    {
        let ghost rest = s@.skip(pos as int);
        let ghost old_out = out@;
        if matches_at_exec(s, pos, &fv) {
            assert(rest.subrange(0, fv@.len() as int) =~= s@.subrange(
                pos as int,
                pos + fv@.len(),
            ));
            assert(rest.skip(fv@.len() as int) =~= s@.skip(pos + fv@.len()));
            extend(&mut out, &tv);
            assert(out@ + replace_all(s@.skip(pos + fv@.len()), from@, to@) =~= old_out
                + replace_all(rest, from@, to@));
            pos = pos + fv.len();
        } else {
            assert(!starts_with(rest, from@)) by {
                if starts_with(rest, from@) {
                    assert(rest.subrange(0, fv@.len() as int) =~= s@.subrange(
                        pos as int,
                        pos + fv@.len(),
                    ));
                }
            }
            assert(rest.drop_first() =~= s@.skip(pos + 1));
            out.push(s[pos]);
            assert(out@ + replace_all(s@.skip(pos + 1), from@, to@) =~= old_out + replace_all(
                rest,
                from@,
                to@,
            ));
            pos = pos + 1;
        }
    }
    assert(s@.skip(n as int) =~= Seq::<char>::empty());
    assert(out@ + Seq::<char>::empty() =~= out@);
    out
}

// ---------------------------------------------------------------------------
// Joining
// ---------------------------------------------------------------------------

/// `pieces.join("\n")`.
pub open spec fn join_lines(pieces: Seq<Seq<char>>) -> Seq<char>
    decreases pieces.len(),
{
    if pieces.len() == 0 {
        Seq::empty()
    } else if pieces.len() == 1 {
        pieces[0]
    } else {
        join_lines(pieces.drop_last()) + "\n"@ + pieces.last()
    }
}

/// Join strings with line breaks between them.
pub fn join_lines_exec(pieces: &Vec<String>) -> (r: String)
    ensures
        r@ == join_lines(pieces@.map_values(|s: String| s@)),
{
    let ghost pv = pieces@.map_values(|s: String| s@);
    let n = pieces.len();
    let mut out: Vec<char> = Vec::new();
    for i in 0..n
        invariant
            n == pieces@.len(),
            pv == pieces@.map_values(|s: String| s@),
            out@ == join_lines(pv.take(i as int)),
    {
        assert(pv.take(i + 1).drop_last() =~= pv.take(i as int));
        assert(pv.take(i + 1).last() == pieces@[i as int]@);
        if i > 0 {
            extend_str(&mut out, "\n");
        } else {
            assert(pv.take(1) =~= seq![pieces@[0]@]);
        }
        extend_str(&mut out, pieces[i].as_str());
    }
    assert(pv.take(n as int) =~= pv);
    from_chars(&out)
}

/// The pieces with `sep` between each two.
pub open spec fn join_sep(pieces: Seq<Seq<char>>, sep: Seq<char>) -> Seq<char>
    decreases pieces.len(),
{
    if pieces.len() == 0 {
        Seq::empty()
    } else if pieces.len() == 1 {
        pieces[0]
    } else {
        join_sep(pieces.drop_last(), sep) + sep + pieces.last()
    }
}

/// Join strings with `sep` between them.
pub fn join_sep_exec(pieces: &Vec<String>, sep: &str) -> (r: String)
    ensures
        r@ == join_sep(pieces@.map_values(|s: String| s@), sep@),
{
    let ghost pv = pieces@.map_values(|s: String| s@);
    let n = pieces.len();
    let mut out: Vec<char> = Vec::new();
    for i in 0..n
        invariant
            n == pieces@.len(),
            pv == pieces@.map_values(|s: String| s@),
            out@ == join_sep(pv.take(i as int), sep@),
    {
        assert(pv.take(i + 1).drop_last() =~= pv.take(i as int));
        assert(pv.take(i + 1).last() == pieces@[i as int]@);
        if i > 0 {
            extend_str(&mut out, sep);
        } else {
            assert(pv.take(1) =~= seq![pieces@[0]@]);
        }
        extend_str(&mut out, pieces[i].as_str());
    }
    assert(pv.take(n as int) =~= pv);
    from_chars(&out)
}

// ---------------------------------------------------------------------------
// Order
// ---------------------------------------------------------------------------

/// `a < b` in the order of `str`: character by character by code point, a
/// proper prefix first.
pub open spec fn lex_lt(a: Seq<char>, b: Seq<char>) -> bool
    decreases a.len(),
{
    if a.len() == 0 {
        b.len() > 0
    } else if b.len() == 0 {
        false
    } else if a[0] != b[0] {
        (a[0] as int) < (b[0] as int)
    } else {
        lex_lt(a.drop_first(), b.drop_first())
    }
}

pub proof fn lemma_lex_lt_irreflexive(a: Seq<char>)
    ensures
        !lex_lt(a, a),
    decreases a.len(),
{
    if a.len() > 0 {
        lemma_lex_lt_irreflexive(a.drop_first());
    }
}

pub proof fn lemma_lex_lt_asymmetric(a: Seq<char>, b: Seq<char>)
    ensures
        !(lex_lt(a, b) && lex_lt(b, a)),
    decreases a.len(),
{
    if a.len() > 0 && b.len() > 0 && a[0] == b[0] {
        lemma_lex_lt_asymmetric(a.drop_first(), b.drop_first());
    }
}

pub proof fn lemma_lex_lt_total(a: Seq<char>, b: Seq<char>)
    ensures
        a != b ==> lex_lt(a, b) || lex_lt(b, a),
    decreases a.len(),
{
    if a.len() > 0 && b.len() > 0 && a[0] == b[0] {
        lemma_lex_lt_total(a.drop_first(), b.drop_first());
        if a.drop_first() == b.drop_first() {
            assert(a =~= seq![a[0]] + a.drop_first());
            assert(b =~= seq![b[0]] + b.drop_first());
        }
    } else if a.len() > 0 && b.len() > 0 {
        assert((a[0] as int) != (b[0] as int));
    } else if a.len() == 0 && b.len() == 0 {
        assert(a =~= b);
    }
}

pub proof fn lemma_lex_lt_transitive(a: Seq<char>, b: Seq<char>, c: Seq<char>)
    requires
        lex_lt(a, b),
        lex_lt(b, c),
    ensures
        lex_lt(a, c),
    decreases a.len(),
{
    if a.len() > 0 && b.len() > 0 && c.len() > 0 && a[0] == b[0] && b[0] == c[0] {
        lemma_lex_lt_transitive(a.drop_first(), b.drop_first(), c.drop_first());
    }
}

/// Whether `a` sorts before `b` as `str` does.
pub fn lex_lt_exec(a: &Vec<char>, b: &Vec<char>) -> (r: bool)
    ensures
        r == lex_lt(a@, b@),
{
    let mut i: usize = 0;
    assert(a@.skip(0) =~= a@);
    assert(b@.skip(0) =~= b@);
    while i < a.len() && i < b.len()
        invariant
            i <= a@.len(),
            i <= b@.len(),
            lex_lt(a@, b@) == lex_lt(a@.skip(i as int), b@.skip(i as int)),
        decreases a@.len() - i,
    {
        assert(a@.skip(i as int)[0] == a@[i as int]);
        assert(b@.skip(i as int)[0] == b@[i as int]);
        if a[i] != b[i] {
            return a[i] < b[i];
        }
        assert(a@.skip(i as int).drop_first() =~= a@.skip(i + 1));
        assert(b@.skip(i as int).drop_first() =~= b@.skip(i + 1));
        i += 1;
    }
    i < b.len()
}

} // verus!
