//! The call-back mail of the call pop-up: subject from the translated template,
//! and the `mailto:` link that opens it.
use vstd::prelude::*;
use vstd::utf8::encode_utf8;
use crate::i18n::{t, translate, Locale};
use crate::text::{chars_of, concat, string_of};

verus! {

/// `rep` before every character of `s` and once more at the end: what
/// `str::replace` gives for the empty pattern.
pub open spec fn insert_everywhere(s: Seq<char>, rep: Seq<char>) -> Seq<char>
    decreases s.len(),
{
    if s.len() == 0 {
        rep
    } else {
        rep + seq![s[0]] + insert_everywhere(s.skip(1), rep)
    }
}

/// `s` with every occurrence of `pat` replaced by `rep`, scanning from the left
/// without overlaps, as `str::replace` does; the empty pattern matches before
/// every character and at the end.
pub open spec fn replace_all(s: Seq<char>, pat: Seq<char>, rep: Seq<char>) -> Seq<char>
    decreases s.len(),
{
    if pat.len() == 0 {
        insert_everywhere(s, rep)
    } else if s.len() == 0 {
        s
    } else if pat.len() <= s.len() && s.subrange(0, pat.len() as int) == pat {
        rep + replace_all(s.skip(pat.len() as int), pat, rep)
    } else {
        seq![s[0]] + replace_all(s.skip(1), pat, rep)
    }
}

/// Whether the run `pat` occurs in `s` at position `at`.
fn matches_at(s: &Vec<char>, pat: &Vec<char>, at: usize) -> (r: bool)
    requires
        at <= s.len(),
    ensures
        r == (pat.len() <= s.len() - at && s@.subrange(at as int, at + pat.len()) == pat@),
{
    if pat.len() > s.len() - at {
        return false;
    }
    let mut k: usize = 0;
    while k < pat.len()
        invariant
            at + pat.len() <= s.len(),
            k <= pat.len(),
            forall|m: int| 0 <= m < k ==> s@[at + m] == pat@[m],
        decreases pat.len() - k,
    {
        if s[at + k] != pat[k] {
            assert(s@.subrange(at as int, at + pat.len())[k as int] != pat@[k as int]);
            return false;
        }
        k = k + 1;
    }
    assert(s@.subrange(at as int, at + pat.len()) =~= pat@);
    true
}

/// Appends the characters of `rep` to `out`.
fn push_all(out: &mut Vec<char>, rep: &Vec<char>)
    ensures
        final(out)@ == old(out)@ + rep@,
{
    let ghost before = out@;
    let mut k: usize = 0;
    while k < rep.len()
        invariant
            k <= rep.len(),
            out@ == before + rep@.subrange(0, k as int),
        decreases rep.len() - k,
    {
        out.push(rep[k]);
        k = k + 1;
        assert(out@ =~= before + rep@.subrange(0, k as int));
    }
    assert(rep@.subrange(0, rep.len() as int) =~= rep@);
}

/// `rep` before every character of `s` and once more at the end.
fn insert_before_each(s: &Vec<char>, rep: &Vec<char>) -> (r: Vec<char>)
    ensures
        r@ == insert_everywhere(s@, rep@),
{
    let mut out: Vec<char> = Vec::new();
    let mut i: usize = 0;
    assert(s@.skip(0) =~= s@);
    while i < s.len()
        invariant
            i <= s.len(),
            insert_everywhere(s@, rep@) == out@ + insert_everywhere(s@.skip(i as int), rep@),
        decreases s.len() - i,
    {
        let ghost rest = s@.skip(i as int);
        assert(rest.skip(1) =~= s@.skip(i + 1));
        let ghost before = out@;
        push_all(&mut out, rep);
        out.push(s[i]);
        assert(out@ + insert_everywhere(s@.skip(i + 1), rep@) =~= before + (rep@ + seq![rest[0]]
            + insert_everywhere(rest.skip(1), rep@)));
        i = i + 1;
    }
    assert(s@.skip(s.len() as int) =~= Seq::<char>::empty());
    push_all(&mut out, rep);
    out
}

/// `s` with every occurrence of `pat` replaced by `rep`.
pub fn replace(s: &str, pat: &str, rep: &str) -> (r: String)
    ensures
        r@ == replace_all(s@, pat@, rep@),
{
    let sc = chars_of(s);
    let pc = chars_of(pat);
    let rc = chars_of(rep);
    if pc.len() == 0 {
        return string_of(&insert_before_each(&sc, &rc));
    }
    let mut out: Vec<char> = Vec::new();
    let mut i: usize = 0;
    assert(sc@.skip(0) =~= sc@);
    while i < sc.len()
        invariant
            sc@ == s@,
            pc@ == pat@,
            rc@ == rep@,
            pc.len() > 0,
            i <= sc.len(),
            replace_all(s@, pat@, rep@) == out@ + replace_all(sc@.skip(i as int), pat@, rep@),
        decreases sc.len() - i,
    {
        let ghost rest = sc@.skip(i as int);
        if matches_at(&sc, &pc, i) {
            assert(rest.subrange(0, pc.len() as int) =~= sc@.subrange(i as int, i + pc.len()));
            assert(rest.skip(pc.len() as int) =~= sc@.skip(i + pc.len()));
            let ghost before = out@;
            let mut k: usize = 0;
            while k < rc.len()
                invariant
                    k <= rc.len(),
                    out@ == before + rc@.subrange(0, k as int),
                decreases rc.len() - k,
            {
                out.push(rc[k]);
                k = k + 1;
                assert(out@ =~= before + rc@.subrange(0, k as int));
            }
            assert(rc@.subrange(0, rc.len() as int) =~= rc@);
            assert(out@ + replace_all(sc@.skip(i + pc.len()), pat@, rep@) =~= before + (rc@
                + replace_all(sc@.skip(i + pc.len()), pat@, rep@)));
            i = i + pc.len();
        } else {
            assert(pc@.len() <= rest.len() ==> rest.subrange(0, pc@.len() as int)
                =~= sc@.subrange(i as int, i + pc@.len()));
            assert(rest.skip(1) =~= sc@.skip(i + 1));
            let ghost before = out@;
            out.push(sc[i]);
            assert(out@ + replace_all(sc@.skip(i + 1), pat@, rep@) =~= before + (seq![sc@[i as int]]
                + replace_all(sc@.skip(i + 1), pat@, rep@)));
            i = i + 1;
        }
    }
    assert(sc@.skip(sc.len() as int) =~= Seq::<char>::empty());
    assert(out@ + Seq::<char>::empty() =~= out@);
    string_of(&out)
}

/// A byte that percent-encoding leaves as it is: an ASCII letter or digit, or
/// one of `-`, `.`, `_`, `~`.
pub open spec fn is_unreserved(b: u8) -> bool {
    ||| 0x30 <= b <= 0x39
    ||| 0x41 <= b <= 0x5A
    ||| 0x61 <= b <= 0x7A
    ||| b == 0x2D || b == 0x2E || b == 0x5F || b == 0x7E
}

/// The upper-case hexadecimal digit for a value below 16.
pub open spec fn hex_digit(n: u8) -> char {
    if n < 10 {
        (0x30 + n) as char
    } else {
        (0x41 - 10 + n) as char
    }
}

/// Percent-encoding of a byte sequence: unreserved bytes stay, every other
/// byte becomes `%` and two upper-case hexadecimal digits.
pub open spec fn percent_encoded(bytes: Seq<u8>) -> Seq<char>
    decreases bytes.len(),
{
    if bytes.len() == 0 {
        Seq::empty()
    } else {
        let b = bytes[0];
        let head = if is_unreserved(b) {
            seq![b as char]
        } else {
            seq!['%', hex_digit(b / 16), hex_digit(b % 16)]
        };
        head + percent_encoded(bytes.skip(1))
    }
}

/// Calls `urlencoding::encode`, which percent-encodes every byte of the UTF-8
/// form of `s` except ASCII alphanumerics and `-`, `_`, `.`, `~`, writing the
/// hexadecimal digits in upper case (`to_hex_digit` in the crate's source).
/// The contract states exactly that.
#[verifier::external_body]
fn url_encode(s: &str) -> (r: String)
    ensures
        r@ == percent_encoded(encode_utf8(s@)),
{
    urlencoding::encode(s).into_owned()
}

/// The subject of the call-back mail: the template with `{name}` and then
/// `{number}` replaced by the caller's name and number.
pub open spec fn mail_subject(template: Seq<char>, name: Seq<char>, number: Seq<char>) -> Seq<
    char,
> {
    replace_all(replace_all(template, "{name}"@, name), "{number}"@, number)
}

/// The `mailto:` link for a call-back mail with the given subject.
pub open spec fn mail_link(subject: Seq<char>) -> Seq<char> {
    "mailto:?subject="@ + percent_encoded(encode_utf8(subject))
}

/// The `mailto:` link for a call back to `name` at `number`, with the subject
/// template of the current language.
pub fn callback_mail_link(locale: &Locale, name: &str, number: &str) -> (r: String)
    ensures
        r@ == mail_link(mail_subject(translate(locale@, "mailto.subject"@), name@, number@)),
{
    proof {
        reveal_strlit("{name}");
        reveal_strlit("{number}");
    }
    let template = t(locale, "mailto.subject");
    let with_name = replace(template, "{name}", name);
    let subject = replace(with_name.as_str(), "{number}", number);
    let encoded = url_encode(subject.as_str());
    concat("mailto:?subject=", encoded.as_str())
}

/// A character that may stand in a URL query without further escaping.
pub open spec fn is_url_safe(c: char) -> bool {
    ||| '0' <= c <= '9'
    ||| 'A' <= c <= 'Z'
    ||| 'a' <= c <= 'z'
    ||| c == '-' || c == '.' || c == '_' || c == '~' || c == '%'
}

/// Percent-encoding yields only URL-safe characters.
proof fn lemma_percent_encoded_safe(bytes: Seq<u8>)
    ensures
        forall|i: int|
            0 <= i < percent_encoded(bytes).len() ==> #[trigger] is_url_safe(
                percent_encoded(bytes)[i],
            ),
    decreases bytes.len(),
{
    if bytes.len() > 0 {
        let b = bytes[0];
        lemma_percent_encoded_safe(bytes.skip(1));
        let head = if is_unreserved(b) {
            seq![b as char]
        } else {
            seq!['%', hex_digit(b / 16), hex_digit(b % 16)]
        };
        let tail = percent_encoded(bytes.skip(1));
        assert(percent_encoded(bytes) == head + tail);
        assert forall|i: int| 0 <= i < head.len() implies #[trigger] is_url_safe(head[i]) by {}
        assert forall|i: int|
            0 <= i < (head + tail).len() implies #[trigger] is_url_safe((head + tail)[i]) by {
            if i >= head.len() {
                assert((head + tail)[i] == tail[i - head.len()]);
            } else {
                assert((head + tail)[i] == head[i]);
            }
        }
    }
}

/// Whatever the caller's name and number hold (spaces, `&`, `#`, umlauts), the
/// subject part of the call-back link consists of URL-safe characters only, so
/// the mail program receives the whole subject.
pub proof fn law_mail_link_subject_is_url_safe(subject: Seq<char>)
    ensures
        mail_link(subject) == "mailto:?subject="@ + percent_encoded(encode_utf8(subject)),
        forall|i: int|
            0 <= i < percent_encoded(encode_utf8(subject)).len() ==> #[trigger] is_url_safe(
                percent_encoded(encode_utf8(subject))[i],
            ),
{
    lemma_percent_encoded_safe(encode_utf8(subject));
}

} // verus!
