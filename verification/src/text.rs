//! Character-level text handling shared by the gates: conversion of string
//! slices to character sequences, Unicode character classes, splitting,
//! trimming, lowercasing and substring search.

use vstd::prelude::*;
use vstd::string::StrSliceExecFns;

verus! {

broadcast use vstd::string::group_string_axioms;

/// Whether `c` has the Unicode `White_Space` property (PropList.txt): the
/// controls U+0009 to U+000D, the space, U+0085, the no-break space, the
/// Ogham space mark, the spaces U+2000 to U+200A, the line and paragraph
/// separators, the narrow no-break space, the medium mathematical space and
/// the ideographic space.
pub open spec fn unicode_white_space(c: char) -> bool {
    let u = c as int;
    ||| 0x9 <= u <= 0xd
    ||| u == 0x20
    ||| u == 0x85
    ||| u == 0xa0
    ||| u == 0x1680
    ||| 0x2000 <= u <= 0x200a
    ||| u == 0x2028
    ||| u == 0x2029
    ||| u == 0x202f
    ||| u == 0x205f
    ||| u == 0x3000
}

/// Whether a character beyond ASCII is alphabetic or numeric by the Unicode
/// tables (the classification that `char::is_alphanumeric` reports).
pub uninterp spec fn unicode_alphanumeric(c: char) -> bool;

/// Whether `c` is an ASCII letter or digit.
pub open spec fn ascii_alphanumeric(c: char) -> bool {
    ('a' <= c && c <= 'z') || ('A' <= c && c <= 'Z') || ('0' <= c && c <= '9')
}

/// Whether every character of `s` is ASCII.
pub open spec fn all_ascii(s: Seq<char>) -> bool {
    forall|i: int| 0 <= i < s.len() ==> (s[i] as int) < 128
}

/// The lowercase form of an ASCII character: A to Z become a to z, every
/// other character stays.
pub open spec fn ascii_lower(c: char) -> char {
    if 'A' <= c && c <= 'Z' {
        ((c as int) + 32) as char
    } else {
        c
    }
}

/// The lowercase form, by the Unicode case tables, of text that is not all
/// ASCII (what `str::to_lowercase` returns for it).
pub uninterp spec fn unicode_lowercase(s: Seq<char>) -> Seq<char>;

/// The lowercase form of a string (what `str::to_lowercase` returns): ASCII
/// text character by character, A to Z becoming a to z; other text by the
/// Unicode case tables.
pub open spec fn lowercased(s: Seq<char>) -> Seq<char> {
    if all_ascii(s) {
        s.map_values(|c: char| ascii_lower(c))
    } else {
        unicode_lowercase(s)
    }
}

/// Whether `c` is alphabetic or numeric (what `char::is_alphanumeric`
/// reports): on ASCII, letters and digits; beyond, by the Unicode tables.
pub open spec fn alphanumeric(c: char) -> bool {
    if (c as int) < 128 {
        ascii_alphanumeric(c)
    } else {
        unicode_alphanumeric(c)
    }
}

/// Whether `c` is white space (what `char::is_whitespace` reports).
fn char_is_whitespace(c: char) -> (r: bool)
    ensures
        r == unicode_white_space(c),
{
    let u = c as u32;
    (0x9 <= u && u <= 0xd) || u == 0x20 || u == 0x85 || u == 0xa0 || u == 0x1680 || (0x2000 <= u
        && u <= 0x200a) || u == 0x2028 || u == 0x2029 || u == 0x202f || u == 0x205f || u == 0x3000
}

/// Calls `char::is_alphanumeric`; the contract claims that on ASCII the result
/// holds exactly of letters and digits, and beyond ASCII that it is the
/// Unicode alphanumeric classification of `c`, a function of `c` alone whose
/// tables are left unsaid.
#[verifier::external_body]
fn char_is_alphanumeric(c: char) -> (r: bool)
    ensures
        r == alphanumeric(c),
        (c as int) >= 128 ==> r == unicode_alphanumeric(c),
{
    c.is_alphanumeric()
}

/// Calls `str::to_lowercase` on the string made of `s`; the contract claims
/// that ASCII text (empty text among it) is lowercased character by character,
/// A to Z becoming a to z, and that other text gets its Unicode lowercase
/// form, a function of `s` alone whose tables are left unsaid.
#[verifier::external_body]
pub(crate) fn lowercase(s: &[char]) -> (r: Vec<char>)
    ensures
        r@ == lowercased(s@),
        !all_ascii(s@) ==> r@ == unicode_lowercase(s@),
{
    s.iter().collect::<String>().to_lowercase().chars().collect()
}

/// The characters of a string slice, in order.
pub fn chars_of(s: &str) -> (r: Vec<char>)
    ensures
        r@ == s@,
{
    let mut out: Vec<char> = Vec::new();
    for c in it: s.chars()
        invariant
            out@ == it.seq().take(it.index() as int),
            it.seq() == s@,
    {
        out.push(c);
    }
    out
}

/// The character classes at which text is cut.
#[derive(Clone, Copy)]
pub enum Boundary {
    /// Unicode white space (`char::is_whitespace`).
    Whitespace,
    /// Any character that is neither alphabetic nor numeric.
    NonAlphanumeric,
    /// The line feed character.
    Newline,
}

pub open spec fn is_boundary(b: Boundary, c: char) -> bool {
    match b {
        Boundary::Whitespace => unicode_white_space(c),
        Boundary::NonAlphanumeric => !alphanumeric(c),
        Boundary::Newline => c == '\n',
    }
}

pub fn boundary_at(b: Boundary, c: char) -> (r: bool)
    ensures
        r == is_boundary(b, c),
{
    match b {
        Boundary::Whitespace => char_is_whitespace(c),
        Boundary::NonAlphanumeric => !char_is_alphanumeric(c),
        Boundary::Newline => c == '\n',
    }
}

/// The views of a sequence of character vectors.
pub open spec fn views(v: Seq<Vec<char>>) -> Seq<Seq<char>> {
    v.map_values(|w: Vec<char>| w@)
}

/// The pieces of `s` between boundary characters, empty pieces included, as
/// `str::split` yields them: `k` boundary characters give `k + 1` pieces.
pub open spec fn pieces(s: Seq<char>, b: Boundary) -> Seq<Seq<char>>
    decreases s.len(),
{
    if s.len() == 0 {
        seq![Seq::empty()]
    } else {
        let p = pieces(s.drop_last(), b);
        if is_boundary(b, s.last()) {
            p.push(Seq::empty())
        } else {
            p.update(p.len() - 1, p.last().push(s.last()))
        }
    }
}

pub proof fn lemma_pieces_not_empty(s: Seq<char>, b: Boundary)
    ensures
        pieces(s, b).len() >= 1,
    decreases s.len(),
{
    if s.len() > 0 {
        lemma_pieces_not_empty(s.drop_last(), b);
    }
}

/// Splits `s` at every boundary character (like `str::split`).
pub fn split_pieces(s: &Vec<char>, b: Boundary) -> (r: Vec<Vec<char>>)
    ensures
        views(r@) == pieces(s@, b),
{
    let mut done: Vec<Vec<char>> = Vec::new();
    let mut cur: Vec<char> = Vec::new();
    let n = s.len();
    let mut i: usize = 0;
    while i < n
        invariant
            0 <= i <= n,
            n == s.len(),
            views(done@).push(cur@) == pieces(s@.take(i as int), b),
        decreases n - i,
    {
        let c = s[i];
        let ghost before = views(done@).push(cur@);
        proof {
            assert(s@.take(i + 1).drop_last() =~= s@.take(i as int));
            lemma_pieces_not_empty(s@.take(i as int), b);
        }
        if boundary_at(b, c) {
            done.push(cur);
            cur = Vec::new();
            assert(views(done@).push(cur@) =~= before.push(Seq::empty()));
        } else {
            cur.push(c);
            assert(views(done@).push(cur@) =~= before.update(
                before.len() - 1,
                before.last().push(c),
            ));
        }
        i = i + 1;
    }
    done.push(cur);
    assert(s@.take(n as int) =~= s@);
    assert(views(done@) =~= pieces(s@, b));
    done
}

/// `s` without its leading boundary characters.
pub open spec fn trim_start(s: Seq<char>, b: Boundary) -> Seq<char>
    decreases s.len(),
{
    if s.len() > 0 && is_boundary(b, s[0]) {
        trim_start(s.drop_first(), b)
    } else {
        s
    }
}

/// `s` without its trailing boundary characters.
pub open spec fn trim_end(s: Seq<char>, b: Boundary) -> Seq<char>
    decreases s.len(),
{
    if s.len() > 0 && is_boundary(b, s.last()) {
        trim_end(s.drop_last(), b)
    } else {
        s
    }
}

/// `s` without its leading and trailing boundary characters (like `str::trim`
/// for white space, and like `str::trim_matches` for other classes).
pub open spec fn trim(s: Seq<char>, b: Boundary) -> Seq<char> {
    trim_end(trim_start(s, b), b)
}

proof fn lemma_trim_start_skip(s: Seq<char>, b: Boundary, i: int)
    requires
        0 <= i < s.len(),
        is_boundary(b, s[i]),
    ensures
        trim_start(s.subrange(i, s.len() as int), b) == trim_start(
            s.subrange(i + 1, s.len() as int),
            b,
        ),
{
    assert(s.subrange(i, s.len() as int).drop_first() =~= s.subrange(i + 1, s.len() as int));
}

proof fn lemma_trim_end_skip(s: Seq<char>, b: Boundary, j: int)
    requires
        0 < j <= s.len(),
        is_boundary(b, s[j - 1]),
    ensures
        trim_end(s.subrange(0, j), b) == trim_end(s.subrange(0, j - 1), b),
{
    assert(s.subrange(0, j).drop_last() =~= s.subrange(0, j - 1));
}

/// The bounds of the trimmed part of `s`.
pub fn trim_bounds(s: &Vec<char>, b: Boundary) -> (r: (usize, usize))
    ensures
        r.0 <= r.1 <= s@.len(),
        s@.subrange(r.0 as int, r.1 as int) == trim(s@, b),
{
    let n = s.len();
    let mut i: usize = 0;
    assert(s@.subrange(0, n as int) =~= s@);
    while i < n && boundary_at(b, s[i])
        invariant
            0 <= i <= n,
            n == s.len(),
            trim_start(s@, b) == trim_start(s@.subrange(i as int, n as int), b),
        decreases n - i,
    {
        proof {
            lemma_trim_start_skip(s@, b, i as int);
        }
        i = i + 1;
    }
    let ghost rest = s@.subrange(i as int, n as int);
    assert(trim_start(rest, b) == rest);
    let mut j: usize = n;
    assert(rest.subrange(0, (j - i) as int) =~= rest);
    while j > i && boundary_at(b, s[j - 1])
        invariant
            i <= j <= n,
            n == s.len(),
            rest == s@.subrange(i as int, n as int),
            trim_end(rest, b) == trim_end(rest.subrange(0, (j - i) as int), b),
        decreases j,
    {
        proof {
            lemma_trim_end_skip(rest, b, (j - i) as int);
            assert(rest.subrange(0, (j - i - 1) as int) =~= rest.subrange(0, (j - 1 - i) as int));
        }
        j = j - 1;
    }
    let ghost kept = rest.subrange(0, (j - i) as int);
    assert(trim_end(kept, b) == kept);
    assert(kept =~= s@.subrange(i as int, j as int));
    (i, j)
}

/// The characters of `s` from `from` (inclusive) to `to` (exclusive).
pub fn copy_range(s: &Vec<char>, from: usize, to: usize) -> (r: Vec<char>)
    requires
        from <= to <= s@.len(),
    ensures
        r@ == s@.subrange(from as int, to as int),
{
    let mut out: Vec<char> = Vec::new();
    let mut k = from;
    while k < to
        invariant
            from <= k <= to,
            to <= s@.len(),
            out@ == s@.subrange(from as int, k as int),
        decreases to - k,
    {
        out.push(s[k]);
        k = k + 1;
        assert(out@ =~= s@.subrange(from as int, k as int));
    }
    out
}

/// `s` without its leading and trailing boundary characters.
pub fn trim_chars(s: &Vec<char>, b: Boundary) -> (r: Vec<char>)
    ensures
        r@ == trim(s@, b),
{
    let (i, j) = trim_bounds(s, b);
    copy_range(s, i, j)
}


/// The non-empty members of `ps`, in order.
pub open spec fn nonempty(ps: Seq<Seq<char>>) -> Seq<Seq<char>>
    decreases ps.len(),
{
    if ps.len() == 0 {
        seq![]
    } else {
        let r = nonempty(ps.drop_last());
        if ps.last().len() > 0 {
            r.push(ps.last())
        } else {
            r
        }
    }
}

/// The words of `s` between runs of white space (like `str::split_whitespace`).
pub open spec fn whitespace_words(s: Seq<char>) -> Seq<Seq<char>> {
    nonempty(pieces(s, Boundary::Whitespace))
}

/// A word as the gates read it: stripped of leading and trailing
/// non-alphanumeric characters, then lowercased.
pub open spec fn clean_word(w: Seq<char>) -> Seq<char> {
    lowercased(trim(w, Boundary::NonAlphanumeric))
}

/// The cleaned forms of `ws` that are not empty, in order.
pub open spec fn cleaned(ws: Seq<Seq<char>>) -> Seq<Seq<char>>
    decreases ws.len(),
{
    if ws.len() == 0 {
        seq![]
    } else {
        let r = cleaned(ws.drop_last());
        let t = clean_word(ws.last());
        if t.len() > 0 {
            r.push(t)
        } else {
            r
        }
    }
}

/// The tokens of `s` as every gate reads them: white-space-separated words,
/// stripped of surrounding punctuation, lowercased, empty ones dropped.
pub open spec fn gate_tokens(s: Seq<char>) -> Seq<Seq<char>> {
    cleaned(whitespace_words(s))
}

/// The lowercased members of `ps` that are not empty, in order.
pub open spec fn lowered(ps: Seq<Seq<char>>) -> Seq<Seq<char>>
    decreases ps.len(),
{
    if ps.len() == 0 {
        seq![]
    } else {
        let r = lowered(ps.drop_last());
        let t = lowercased(ps.last());
        if t.len() > 0 {
            r.push(t)
        } else {
            r
        }
    }
}

/// The lowercased runs of alphanumeric characters of `s` (contractions such as
/// "it's" give two words).
pub open spec fn alphanumeric_words(s: Seq<char>) -> Seq<Seq<char>> {
    lowered(pieces(s, Boundary::NonAlphanumeric))
}

/// Growing a prefix by one element: the shorter prefix, then that element.
pub proof fn lemma_take_step<A>(ps: Seq<A>, i: int)
    requires
        0 <= i < ps.len(),
    ensures
        ps.take(i + 1).drop_last() == ps.take(i),
        ps.take(i + 1).last() == ps[i],
{
    assert(ps.take(i + 1).drop_last() =~= ps.take(i));
}

/// The tokens of `s` as the gates read them.
pub fn tokenize(s: &Vec<char>) -> (r: Vec<Vec<char>>)
    ensures
        views(r@) == gate_tokens(s@),
{
    let ps = split_pieces(s, Boundary::Whitespace);
    let ghost all = views(ps@);
    let mut out: Vec<Vec<char>> = Vec::new();
    let mut i: usize = 0;
    while i < ps.len()
        invariant
            0 <= i <= ps.len(),
            all == views(ps@),
            views(out@) == cleaned(nonempty(all.take(i as int))),
        decreases ps.len() - i,
    {
        proof {
            lemma_take_step(all, i as int);
        }
        if ps[i].len() > 0 {
            let t = lowercase(trim_chars(&ps[i], Boundary::NonAlphanumeric).as_slice());
            assert(nonempty(all.take(i as int)).push(all[i as int]).drop_last() =~= nonempty(
                all.take(i as int),
            ));
            if t.len() > 0 {
                out.push(t);
            }
            assert(views(out@) =~= cleaned(nonempty(all.take(i + 1))));
        }
        i = i + 1;
    }
    assert(all.take(ps.len() as int) =~= all);
    out
}

/// The lowercased alphanumeric words of `s`.
pub fn tokenize_words(s: &Vec<char>) -> (r: Vec<Vec<char>>)
    ensures
        views(r@) == alphanumeric_words(s@),
{
    let ps = split_pieces(s, Boundary::NonAlphanumeric);
    let ghost all = views(ps@);
    let mut out: Vec<Vec<char>> = Vec::new();
    let mut i: usize = 0;
    while i < ps.len()
        invariant
            0 <= i <= ps.len(),
            all == views(ps@),
            views(out@) == lowered(all.take(i as int)),
        decreases ps.len() - i,
    {
        proof {
            lemma_take_step(all, i as int);
        }
        let t = lowercase(ps[i].as_slice());
        if t.len() > 0 {
            out.push(t);
        }
        assert(views(out@) =~= lowered(all.take(i + 1)));
        i = i + 1;
    }
    assert(all.take(ps.len() as int) =~= all);
    out
}

/// Whether `n` occurs in `h` starting at index `i`.
pub open spec fn occurs_at(h: Seq<char>, n: Seq<char>, i: int) -> bool {
    0 <= i && i + n.len() <= h.len() && h.subrange(i, i + n.len()) == n
}

/// Whether `n` occurs anywhere in `h` (like `str::contains`).
pub open spec fn contains_text(h: Seq<char>, n: Seq<char>) -> bool {
    exists|i: int| #[trigger] occurs_at(h, n, i)
}

/// Whether `h` ends with `n` (like `str::ends_with`).
pub open spec fn ends_with(h: Seq<char>, n: Seq<char>) -> bool {
    occurs_at(h, n, h.len() - n.len())
}

pub fn matches_at(h: &Vec<char>, n: &Vec<char>, i: usize) -> (r: bool)
    ensures
        r == occurs_at(h@, n@, i as int),
{
    if n.len() > h.len() || i > h.len() - n.len() {
        return false;
    }
    let mut k: usize = 0;
    while k < n.len()
        invariant
            0 <= k <= n@.len(),
            i + n@.len() <= h.len(),
            forall|m: int| 0 <= m < k ==> h@[i + m] == n@[m],
        decreases n.len() - k,
    {
        if h[i + k] != n[k] {
            assert(h@.subrange(i as int, i + n@.len())[k as int] != n@[k as int]);
            return false;
        }
        k = k + 1;
    }
    assert(h@.subrange(i as int, i + n@.len()) =~= n@);
    true
}

pub fn find_text(h: &Vec<char>, n: &Vec<char>) -> (r: bool)
    ensures
        r == contains_text(h@, n@),
{
    if n.len() > h.len() {
        assert(forall|j: int| !#[trigger] occurs_at(h@, n@, j));
        return false;
    }
    let last = h.len() - n.len();
    let mut i: usize = 0;
    loop
        invariant
            0 <= i <= last,
            last == h@.len() - n@.len(),
            forall|j: int| 0 <= j < i ==> !#[trigger] occurs_at(h@, n@, j),
        ensures
            forall|j: int| 0 <= j <= last ==> !#[trigger] occurs_at(h@, n@, j),
        decreases last - i,
    {
        if matches_at(h, n, i) {
            return true;
        }
        if i == last {
            break;
        }
        i = i + 1;
    }
    assert(forall|j: int| !#[trigger] occurs_at(h@, n@, j));
    false
}

/// Whether `n` occurs in `h`.
pub fn str_contains(h: &str, n: &str) -> (r: bool)
    ensures
        r == contains_text(h@, n@),
{
    find_text(&chars_of(h), &chars_of(n))
}

pub fn same_chars(a: &Vec<char>, b: &Vec<char>) -> (r: bool)
    ensures
        r == (a@ == b@),
{
    if a.len() != b.len() {
        return false;
    }
    let mut k: usize = 0;
    while k < a.len()
        invariant
            0 <= k <= a@.len(),
            a@.len() == b@.len(),
            forall|m: int| 0 <= m < k ==> a@[m] == b@[m],
        decreases a.len() - k,
    {
        if a[k] != b[k] {
            return false;
        }
        k = k + 1;
    }
    assert(a@ =~= b@);
    true
}

/// Whether the characters `t` spell the word `w`.
pub fn is_word(t: &Vec<char>, w: &str) -> (r: bool)
    ensures
        r == (t@ == w@),
{
    same_chars(t, &chars_of(w))
}

/// Whether two string slices hold the same characters.
pub fn str_equal(a: &str, b: &str) -> (r: bool)
    ensures
        r == (a@ == b@),
{
    same_chars(&chars_of(a), &chars_of(b))
}

/// `s` without its leading and trailing white space (like `str::trim`).
pub fn trim_str(s: &str) -> (r: &str)
    ensures
        r@ == trim(s@, Boundary::Whitespace),
{
    let cs = chars_of(s);
    let (i, j) = trim_bounds(&cs, Boundary::Whitespace);
    s.substring_char(i, j)
}

} // verus!
