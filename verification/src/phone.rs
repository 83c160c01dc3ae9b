//! Number clean-up for `tel:` links.
use vstd::prelude::*;
use crate::digits::{
    is_dial_string, lemma_dial_chars_is_dial_string, lemma_dial_string_edits,
    lemma_dial_chars_digit_count, lemma_digit_count_subrange, lemma_double_zero_digit_count,
    lemma_trunk_digit_count, lemma_plus_only_leads_subrange, lemma_dial_chars_plus_only_leads,
    lemma_plus_only_leads_edits, lemma_digit_count_concat, lemma_no_digit_count,
    lemma_dial_chars_avoids, count_digits, dial_chars, digit_count, double_zero_as_plus, has_plus490, keep_dial_chars,
    plus_for_double_zero, replace_prefix, starts_plus490,
};
use crate::search::{find_first, first_match};
use crate::text::{
    is_ascii_digit, chars_of, contains, has_infix, lemma_trim_is_part, plus_only_leads, string_of, strip_prefix_repeatedly,
    strip_repeated, trim, trim_chars, unicode_white_space,
};

verus! {

/// The expression that finds a number in a `tel:` argument: an optional `+`
/// followed by at least three digits, spaces, parentheses, dashes, slashes or dots.
pub const TEL_NUMBER_PATTERN: &'static str = r"[\+]?[\d\s\(\)\-/\.]{3,}";

/// The clean-up of one matched run `m`: trimmed, reduced to digits and `+`,
/// a leading `00` turned into `+`, and `+490…` turned into the local form `0…`
/// when the run carries the German trunk zero `(0)` after `+49` or `0049`.
/// `None` when fewer than three digits remain.
pub open spec fn tel_clean(m: Seq<char>) -> Option<Seq<char>> {
    let raw = trim(m);
    let has_trunk = (has_infix(raw, "+49"@) || has_infix(raw, "0049"@)) && has_infix(raw, "(0)"@);
    let d = double_zero_as_plus(dial_chars(raw));
    let d2 = if has_trunk && starts_plus490(d) {
        seq!['0'] + d.skip(4)
    } else {
        d
    };
    if digit_count(d2) < 3 {
        None
    } else {
        Some(d2)
    }
}

/// What `normalize_phone` gives for `input`: the clean-up of the first match of
/// `TEL_NUMBER_PATTERN`, or `None` when there is no match.
pub open spec fn tel_number(input: Seq<char>) -> Option<Seq<char>> {
    match first_match(TEL_NUMBER_PATTERN@, input) {
        Some(m) => tel_clean(m),
        None => None,
    }
}

/// Cleans up one matched run (see `tel_clean`).
pub fn clean_tel_match(m: &str) -> (r: Option<String>)
    ensures
        match r {
            Some(s) => tel_clean(m@) == Some(s@),
            None => tel_clean(m@) is None,
        },
{
    let chars = chars_of(m);
    let raw = trim_chars(&chars);
    let has_trunk = (contains(&raw, "+49") || contains(&raw, "0049")) && contains(&raw, "(0)");
    let d = plus_for_double_zero(keep_dial_chars(&raw));
    let d2 = if has_trunk && has_plus490(&d) {
        replace_prefix('0', &d, 4)
    } else {
        d
    };
    if count_digits(&d2) < 3 {
        None
    } else {
        Some(string_of(&d2))
    }
}

/// The clean-up never adds digits: a number cleaned from `m` has no more
/// digits than `m`.
pub proof fn lemma_tel_clean_digits(m: Seq<char>)
    ensures
        tel_clean(m) matches Some(n) ==> digit_count(n) <= digit_count(m),
{
    let raw = trim(m);
    let ij = lemma_trim_is_part(m);
    lemma_digit_count_subrange(m, ij.0, ij.1);
    lemma_dial_chars_digit_count(raw);
    let d = double_zero_as_plus(dial_chars(raw));
    lemma_double_zero_digit_count(dial_chars(raw));
    if starts_plus490(d) {
        lemma_trunk_digit_count(d);
    }
}

/// Trimming removes white space only, never a digit.
proof fn lemma_trim_digit_count(m: Seq<char>)
    ensures
        digit_count(trim(m)) == digit_count(m),
{
    let ij = lemma_trim_is_part(m);
    let a = m.subrange(0, ij.0);
    let b = m.subrange(ij.0, ij.1);
    let c = m.subrange(ij.1, m.len() as int);
    assert(m =~= a + b + c);
    lemma_digit_count_concat(a + b, c);
    lemma_digit_count_concat(a, b);
    assert forall|i: int| 0 <= i < a.len() implies !is_ascii_digit(#[trigger] a[i]) by {
        assert(a[i] == m[i]);
        assert(unicode_white_space(m[i]));
    }
    assert forall|i: int| 0 <= i < c.len() implies !is_ascii_digit(#[trigger] c[i]) by {
        assert(c[i] == m[ij.1 + i]);
        assert(unicode_white_space(m[ij.1 + i]));
    }
    lemma_no_digit_count(a);
    lemma_no_digit_count(c);
}

/// The clean-up keeps the digits of the matched run, except that a leading `00`
/// (which becomes `+`) and the trunk zero after `+49` may drop out: at most four
/// digits are lost and none is added. So a run with seven or more digits always
/// gives a number, without an upper bound; and a run with no `0` in it keeps
/// every digit and gives a number exactly when it has at least three.
pub proof fn law_tel_clean_keeps_digits(m: Seq<char>)
    ensures
        tel_clean(m) matches Some(n) ==> digit_count(n) >= 3 && digit_count(n) <= digit_count(m)
            && digit_count(n) + 4 >= digit_count(m),
        tel_clean(m) is None ==> digit_count(m) < 7,
        (forall|i: int| 0 <= i < m.len() ==> m[i] != '0') ==> (tel_clean(m) is Some
            <==> digit_count(m) >= 3),
        (forall|i: int| 0 <= i < m.len() ==> m[i] != '0') ==> (tel_clean(m) matches Some(n)
            ==> digit_count(n) == digit_count(m)),
{
    let raw = trim(m);
    lemma_trim_digit_count(m);
    lemma_dial_chars_digit_count(raw);
    let d0 = dial_chars(raw);
    lemma_double_zero_digit_count(d0);
    let d = double_zero_as_plus(d0);
    if starts_plus490(d) {
        lemma_trunk_digit_count(d);
    }
    if forall|i: int| 0 <= i < m.len() ==> m[i] != '0' {
        let ij = lemma_trim_is_part(m);
        assert forall|i: int| 0 <= i < raw.len() implies #[trigger] raw[i] != '0' by {
            assert(raw[i] == m[ij.0 + i]);
        }
        lemma_dial_chars_avoids(raw, '0');
        if d0.len() >= 1 {
            assert(d0[0] != '0');
        }
        assert(d == d0);
        if d.len() >= 4 {
            assert(d[3] != '0');
        }
    }
}

/// The clean-up keeps a `+` from appearing after the first character: a run
/// whose only `+` leads gives a number whose only `+` leads.
pub proof fn lemma_tel_clean_plus_only_leads(m: Seq<char>)
    requires
        plus_only_leads(m),
    ensures
        tel_clean(m) matches Some(n) ==> plus_only_leads(n),
{
    let raw = trim(m);
    let ij = lemma_trim_is_part(m);
    lemma_plus_only_leads_subrange(m, ij.0, ij.1);
    lemma_dial_chars_plus_only_leads(raw);
    let d0 = dial_chars(raw);
    if d0.len() >= 1 {
        lemma_plus_only_leads_edits(d0, 1);
    }
    let d = double_zero_as_plus(d0);
    if d.len() >= 4 {
        lemma_plus_only_leads_edits(d, 4);
    }
}

/// Extracts and normalises a phone number from arbitrary input.
///
/// Handles common German variants: `+49(0)1234/5678-90` becomes `01234567890`
/// (trunk zero collapsed to the local form), `+49 40 12345678` and
/// `0049 40 12345678` become `+494012345678`, `(0151) 555 01 00` becomes
/// `01515550100`. `None` when no number with at least three digits can be found.
pub fn normalize_phone(input: &str) -> (r: Option<String>)
    ensures
        match r {
            Some(s) => tel_number(input@) == Some(s@),
            None => tel_number(input@) is None,
        },
        digit_count(input@) < 3 ==> r is None,
        r matches Some(s) ==> plus_only_leads(s@),
{
    match find_first(TEL_NUMBER_PATTERN, input) {
        Some(m) => {
            proof {
                let i = choose|i: int|
                    0 <= i && i + m@.len() <= input@.len() && #[trigger] input@.subrange(
                        i,
                        i + m@.len(),
                    ) == m@;
                lemma_digit_count_subrange(input@, i, i + m@.len());
                lemma_tel_clean_digits(m@);
                lemma_tel_clean_plus_only_leads(m@);
            }
            clean_tel_match(m.as_str())
        },
        None => None,
    }
}

/// What a `tel:` link argument asks to dial: the argument without leading
/// `tel:` and then `//` prefixes, trimmed; `None` when that is blank or holds
/// no number.
pub open spec fn tel_dial_request(arg: Seq<char>) -> Option<Seq<char>> {
    let raw = trim(strip_repeated(strip_repeated(arg, "tel:"@), "//"@));
    if raw.len() == 0 {
        None
    } else {
        tel_number(raw)
    }
}

/// The number to dial for a `tel:` link argument (see `tel_dial_request`).
pub fn tel_dial_number(arg: &str) -> (r: Option<String>)
    ensures
        match r {
            Some(s) => tel_dial_request(arg@) == Some(s@),
            None => tel_dial_request(arg@) is None,
        },
        r matches Some(s) ==> plus_only_leads(s@),
{
    let chars = chars_of(arg);
    let rest = strip_prefix_repeatedly(&chars, "tel:");
    let rest = strip_prefix_repeatedly(&rest, "//");
    let raw = trim_chars(&rest);
    if raw.len() == 0 {
        return None;
    }
    let raw = string_of(&raw);
    normalize_phone(raw.as_str())
}

/// A number taken from a `tel:` argument holds nothing but ASCII digits and
/// `+`, and at least three digits.
pub proof fn law_tel_number_is_dial_string(input: Seq<char>)
    ensures
        tel_number(input) matches Some(n) ==> is_dial_string(n) && digit_count(n) >= 3,
{
    if let Some(m) = first_match(TEL_NUMBER_PATTERN@, input) {
        let raw = trim(m);
        lemma_dial_chars_is_dial_string(raw);
        lemma_dial_string_edits(dial_chars(raw), 0);
        let d = double_zero_as_plus(dial_chars(raw));
        if d.len() >= 4 {
            lemma_dial_string_edits(d, 4);
        }
    }
}

} // verus!
