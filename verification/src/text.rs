//! Character-level text helpers shared by the phone-number, mail and
//! script builders: conversion between `str`/`String` and `Vec<char>`,
//! trimming, prefix and infix tests.
use vstd::prelude::*;

verus! {

/// ASCII decimal digit, as `char::is_ascii_digit` defines it.
pub open spec fn is_ascii_digit(c: char) -> bool {
    '0' <= c && c <= '9'
}

/// Whether `c` has the Unicode `White_Space` property, the set that
/// `char::is_whitespace` tests: U+0009 to U+000D, U+0020, U+0085, U+00A0,
/// U+1680, U+2000 to U+200A, U+2028, U+2029, U+202F, U+205F and U+3000.
pub open spec fn unicode_white_space(c: char) -> bool {
    ||| '\u{9}' <= c && c <= '\u{d}'
    ||| c == ' '
    ||| c == '\u{85}'
    ||| c == '\u{a0}'
    ||| c == '\u{1680}'
    ||| '\u{2000}' <= c && c <= '\u{200a}'
    ||| c == '\u{2028}'
    ||| c == '\u{2029}'
    ||| c == '\u{202f}'
    ||| c == '\u{205f}'
    ||| c == '\u{3000}'
}

/// Whether `c` is white space (see `unicode_white_space`).
pub fn is_white_space(c: char) -> (r: bool)
    ensures
        r == unicode_white_space(c),
{
    ('\u{9}' <= c && c <= '\u{d}') || c == ' ' || c == '\u{85}' || c == '\u{a0}'
        || c == '\u{1680}' || ('\u{2000}' <= c && c <= '\u{200a}') || c == '\u{2028}'
        || c == '\u{2029}' || c == '\u{202f}' || c == '\u{205f}' || c == '\u{3000}'
}

/// Calls `String::push`, which its documentation says appends the given `char`
/// to the end of the string.
#[verifier::external_body]
pub(crate) fn push_char(s: &mut String, c: char)
    ensures
        final(s)@ == old(s)@.push(c),
{
    s.push(c)
}

/// The characters of `s`, in order.
pub fn chars_of(s: &str) -> (v: Vec<char>)
    ensures
        v@ == s@,
{
    let n = s.unicode_len();
    let mut v: Vec<char> = Vec::new();
    let mut i: usize = 0;
    while i < n
        invariant
            n == s@.len(),
            i <= n,
            v@ == s@.subrange(0, i as int),
        decreases n - i,
    {
        let c = s.get_char(i);
        v.push(c);
        i = i + 1;
        assert(v@ =~= s@.subrange(0, i as int));
    }
    assert(v@ =~= s@);
    v
}

/// A `String` holding the characters of `chars`, in order.
pub fn string_of(chars: &Vec<char>) -> (s: String)
    ensures
        s@ == chars@,
{
    let mut s = String::new();
    let mut i: usize = 0;
    while i < chars.len()
        invariant
            i <= chars.len(),
            s@ == chars@.subrange(0, i as int),
        decreases chars.len() - i,
    {
        push_char(&mut s, chars[i]);
        i = i + 1;
        assert(s@ =~= chars@.subrange(0, i as int));
    }
    assert(s@ =~= chars@);
    s
}

/// An owned copy of `s`.
pub fn owned(s: &str) -> (r: String)
    ensures
        r@ == s@,
{
    s.to_owned()
}

/// Whether `a` and `b` hold the same characters.
pub fn str_eq(a: &str, b: &str) -> (r: bool)
    ensures
        r == (a@ == b@),
{
    let x = chars_of(a);
    let y = chars_of(b);
    if x.len() != y.len() {
        return false;
    }
    let mut i: usize = 0;
    while i < x.len()
        invariant
            x@ == a@,
            y@ == b@,
            x.len() == y.len(),
            i <= x.len(),
            forall|k: int| 0 <= k < i ==> x@[k] == y@[k],
        decreases x.len() - i,
    {
        if x[i] != y[i] {
            assert(x@[i as int] != y@[i as int]);
            return false;
        }
        i = i + 1;
    }
    assert(x@ =~= y@);
    true
}

/// Whether the characters `v` spell `lit`.
pub fn spells(v: &Vec<char>, lit: &str) -> (r: bool)
    ensures
        r == (v@ == lit@),
{
    let s = string_of(v);
    str_eq(s.as_str(), lit)
}

/// `a` followed by `b`.
pub fn concat(a: &str, b: &str) -> (r: String)
    ensures
        r@ == a@ + b@,
{
    let mut s = owned(a);
    s.append(b);
    s
}

/// `s` without its leading white space.
pub open spec fn trim_start(s: Seq<char>) -> Seq<char>
    decreases s.len(),
{
    if s.len() > 0 && unicode_white_space(s[0]) {
        trim_start(s.drop_first())
    } else {
        s
    }
}

/// `s` without its trailing white space.
pub open spec fn trim_end(s: Seq<char>) -> Seq<char>
    decreases s.len(),
{
    if s.len() > 0 && unicode_white_space(s.last()) {
        trim_end(s.drop_last())
    } else {
        s
    }
}

/// `s` without leading and trailing white space, as `str::trim` gives it.
pub open spec fn trim(s: Seq<char>) -> Seq<char> {
    trim_end(trim_start(s))
}

/// Trimming the start leaves a suffix of `s`.
pub proof fn lemma_trim_start_is_suffix(s: Seq<char>) -> (k: int)
    ensures
        0 <= k <= s.len(),
        trim_start(s) == s.subrange(k, s.len() as int),
        forall|i: int| 0 <= i < k ==> unicode_white_space(#[trigger] s[i]),
    decreases s.len(),
{
    if s.len() > 0 && unicode_white_space(s[0]) {
        let k = lemma_trim_start_is_suffix(s.drop_first());
        assert(s.drop_first().subrange(k, s.drop_first().len() as int) =~= s.subrange(
            k + 1,
            s.len() as int,
        ));
        assert forall|i: int| 0 <= i < k + 1 implies unicode_white_space(#[trigger] s[i]) by {
            if i > 0 {
                assert(s[i] == s.drop_first()[i - 1]);
            }
        }
        k + 1
    } else {
        assert(s.subrange(0, s.len() as int) =~= s);
        0
    }
}

/// Trimming the end leaves a prefix of `s`.
pub proof fn lemma_trim_end_is_prefix(s: Seq<char>) -> (j: int)
    ensures
        0 <= j <= s.len(),
        trim_end(s) == s.subrange(0, j),
        forall|i: int| j <= i < s.len() ==> unicode_white_space(#[trigger] s[i]),
    decreases s.len(),
{
    if s.len() > 0 && unicode_white_space(s.last()) {
        let j = lemma_trim_end_is_prefix(s.drop_last());
        assert(s.drop_last().subrange(0, j) =~= s.subrange(0, j));
        assert forall|i: int| j <= i < s.len() implies unicode_white_space(#[trigger] s[i]) by {
            if i < s.len() - 1 {
                assert(s[i] == s.drop_last()[i]);
            }
        }
        j
    } else {
        assert(s.subrange(0, s.len() as int) =~= s);
        s.len() as int
    }
}

/// The trimmed text is a contiguous part of `s`.
pub proof fn lemma_trim_is_part(s: Seq<char>) -> (ij: (int, int))
    ensures
        0 <= ij.0 <= ij.1 <= s.len(),
        trim(s) == s.subrange(ij.0, ij.1),
        forall|i: int| 0 <= i < ij.0 ==> unicode_white_space(#[trigger] s[i]),
        forall|i: int| ij.1 <= i < s.len() ==> unicode_white_space(#[trigger] s[i]),
{
    let k = lemma_trim_start_is_suffix(s);
    let rest = s.subrange(k, s.len() as int);
    let j = lemma_trim_end_is_prefix(rest);
    assert(rest.subrange(0, j) =~= s.subrange(k, k + j));
    assert forall|i: int| k + j <= i < s.len() implies unicode_white_space(#[trigger] s[i]) by {
        assert(s[i] == rest[i - k]);
    }
    (k, k + j)
}

/// A run without white space that occurs in `s` also occurs in the trimmed
/// text: trimming removes only white space from the ends.
pub proof fn lemma_trim_keeps_infix(s: Seq<char>, w: Seq<char>)
    requires
        w.len() > 0,
        forall|i: int| 0 <= i < w.len() ==> !unicode_white_space(#[trigger] w[i]),
        has_infix(s, w),
    ensures
        has_infix(trim(s), w),
{
    let ij = lemma_trim_is_part(s);
    let i = choose|i: int|
        0 <= i && i + w.len() <= s.len() && #[trigger] s.subrange(i, i + w.len()) == w;
    assert(s[i] == s.subrange(i, i + w.len())[0]);
    assert(!unicode_white_space(w[0]));
    let e = i + w.len() - 1;
    assert(s[e] == s.subrange(i, i + w.len())[w.len() - 1]);
    assert(!unicode_white_space(w[w.len() - 1]));
    assert(i >= ij.0);
    assert(e < ij.1);
    let t = trim(s);
    assert(t.subrange(i - ij.0, i - ij.0 + w.len()) =~= w);
}

/// `s` without leading and trailing white space.
pub fn trim_chars(s: &Vec<char>) -> (r: Vec<char>)
    ensures
        r@ == trim(s@),
{
    let n = s.len();
    let mut i: usize = 0;
    assert(s@.subrange(0, n as int) =~= s@);
    while i < n && is_white_space(s[i])
        invariant
            n == s@.len(),
            i <= n,
            trim_start(s@) == trim_start(s@.subrange(i as int, n as int)),
        decreases n - i,
    {
        assert(s@.subrange(i as int, n as int).drop_first() =~= s@.subrange(i + 1, n as int));
        i = i + 1;
    }
    assert(trim_start(s@) == s@.subrange(i as int, n as int));
    let mut j: usize = n;
    while j > i && is_white_space(s[j - 1])
        invariant
            n == s@.len(),
            i <= j <= n,
            trim(s@) == trim_end(s@.subrange(i as int, j as int)),
        decreases j,
    {
        assert(s@.subrange(i as int, j as int).drop_last() =~= s@.subrange(i as int, j - 1));
        j = j - 1;
    }
    let mut r: Vec<char> = Vec::new();
    let mut k: usize = i;
    while k < j
        invariant
            n == s@.len(),
            i <= k <= j <= n,
            r@ == s@.subrange(i as int, k as int),
        decreases j - k,
    {
        r.push(s[k]);
        k = k + 1;
        assert(r@ =~= s@.subrange(i as int, k as int));
    }
    r
}

/// Whether `s` begins with `prefix`.
pub fn starts_with(s: &Vec<char>, prefix: &str) -> (r: bool)
    ensures
        r == prefix@.is_prefix_of(s@),
{
    let p = chars_of(prefix);
    if p.len() > s.len() {
        return false;
    }
    let mut i: usize = 0;
    while i < p.len()
        invariant
            p@ == prefix@,
            p.len() <= s.len(),
            i <= p.len(),
            forall|k: int| 0 <= k < i ==> s@[k] == p@[k],
        decreases p.len() - i,
    {
        if s[i] != p[i] {
            return false;
        }
        i = i + 1;
    }
    assert(s@.subrange(0, p@.len() as int) =~= p@);
    true
}

/// Whether `needle` occurs in `s` as a contiguous run.
pub open spec fn has_infix(s: Seq<char>, needle: Seq<char>) -> bool {
    exists|i: int|
        0 <= i && i + needle.len() <= s.len() && #[trigger] s.subrange(i, i + needle.len())
            == needle
}

/// No character of `s` after the first is `+`.
pub open spec fn plus_only_leads(s: Seq<char>) -> bool {
    forall|i: int| 1 <= i < s.len() ==> s[i] != '+'
}

/// The middle part of a concatenation occurs in it.
pub proof fn lemma_infix_of_concat(a: Seq<char>, b: Seq<char>, c: Seq<char>)
    ensures
        has_infix(a + b + c, b),
{
    assert((a + b + c).subrange(a.len() as int, a.len() as int + b.len()) =~= b);
}

/// Whether the run `needle` occurs in `s` starting at position `at`.
fn occurs_at(s: &Vec<char>, needle: &Vec<char>, at: usize) -> (r: bool)
    requires
        at + needle.len() <= s.len(),
    ensures
        r == (s@.subrange(at as int, at + needle.len()) == needle@),
{
    let mut k: usize = 0;
    while k < needle.len()
        invariant
            at + needle.len() <= s.len(),
            k <= needle.len(),
            forall|m: int| 0 <= m < k ==> s@[at + m] == needle@[m],
        decreases needle.len() - k,
    {
        if s[at + k] != needle[k] {
            assert(s@.subrange(at as int, at + needle.len())[k as int] != needle@[k as int]);
            return false;
        }
        k = k + 1;
    }
    assert(s@.subrange(at as int, at + needle.len()) =~= needle@);
    true
}

/// Whether `needle` occurs in `s`, as `str::contains` with a string pattern decides it.
pub fn contains(s: &Vec<char>, needle: &str) -> (r: bool)
    ensures
        r == has_infix(s@, needle@),
{
    let p = chars_of(needle);
    if p.len() > s.len() {
        return false;
    }
    let last = s.len() - p.len();
    let mut i: usize = 0;
    loop
        invariant
            p@ == needle@,
            last + p.len() == s.len(),
            i <= last,
            forall|k: int| 0 <= k < i ==> #[trigger] s@.subrange(k, k + p.len()) != p@,
        ensures
            forall|k: int| 0 <= k <= last ==> #[trigger] s@.subrange(k, k + p.len()) != p@,
        decreases last - i,
    {
        if occurs_at(s, &p, i) {
            return true;
        }
        if i == last {
            break;
        }
        i = i + 1;
    }
    assert forall|k: int| 0 <= k && k + needle@.len() <= s@.len() implies #[trigger] s@.subrange(
        k,
        k + needle@.len(),
    ) != needle@ by {
        assert(k <= last);
    }
    false
}

/// `s` with every leading repetition of `p` removed, as `str::trim_start_matches`
/// with a string pattern gives it.
pub open spec fn strip_repeated(s: Seq<char>, p: Seq<char>) -> Seq<char>
    decreases s.len(),
{
    if p.len() > 0 && p.is_prefix_of(s) {
        strip_repeated(s.skip(p.len() as int), p)
    } else {
        s
    }
}

/// `s` with every leading repetition of `p` removed.
pub fn strip_prefix_repeatedly(s: &Vec<char>, p: &str) -> (r: Vec<char>)
    ensures
        r@ == strip_repeated(s@, p@),
{
    let pc = chars_of(p);
    let mut from: usize = 0;
    assert(s@.skip(0) =~= s@);
    while pc.len() > 0 && pc.len() <= s.len() - from && occurs_at(s, &pc, from)
        invariant
            pc@ == p@,
            from <= s.len(),
            strip_repeated(s@, p@) == strip_repeated(s@.skip(from as int), p@),
        decreases s.len() - from,
    {
        assert(s@.skip(from as int).subrange(0, pc.len() as int) =~= s@.subrange(
            from as int,
            from + pc.len(),
        ));
        assert(s@.skip(from as int).skip(pc.len() as int) =~= s@.skip(from + pc.len()));
        from = from + pc.len();
    }
    if pc.len() > 0 && pc.len() <= s.len() - from {
        assert(s@.skip(from as int).subrange(0, pc.len() as int) =~= s@.subrange(
            from as int,
            from + pc.len(),
        ));
    }
    let mut r: Vec<char> = Vec::new();
    let mut k: usize = from;
    while k < s.len()
        invariant
            from <= k <= s.len(),
            r@ == s@.subrange(from as int, k as int),
        decreases s.len() - k,
    {
        r.push(s[k]);
        k = k + 1;
        assert(r@ =~= s@.subrange(from as int, k as int));
    }
    assert(r@ =~= s@.skip(from as int));
    r
}

} // verus!
