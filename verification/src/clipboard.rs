//! Phone-number extraction from clipboard or selected text.
use vstd::prelude::*;
use crate::digits::{
    is_dial_char, is_dial_string, lemma_dial_chars_is_dial_string, lemma_dial_chars_of_dial_string,
    lemma_dial_string_edits, lemma_dial_string_without_white_space, lemma_plus_only_leads_subrange,
    lemma_dial_chars_plus_only_leads, lemma_plus_only_leads_edits, lemma_dial_chars_concat,
    dial_chars, double_zero_as_plus, drop_white_space, has_plus49, has_plus490, keep_dial_chars,
    plus_for_double_zero, replace_prefix, starts_plus49, starts_plus490, without_white_space,
};
use crate::search::{find_first, first_match};
use crate::text::{
    chars_of, contains, has_infix, lemma_trim_is_part, lemma_trim_keeps_infix, plus_only_leads,
    starts_with, string_of, trim, trim_chars, trim_end, trim_start,
};

verus! {

/// The expression that finds a number in free text: an optional `+` followed by
/// at least six digits, spaces, parentheses, dashes, slashes or dots.
pub const TEXT_NUMBER_PATTERN: &'static str = r"[\+]?[\d\s\(\)\-/\.]{6,}";

/// Whether the (trimmed) run `raw` marks the German trunk zero: with white space
/// removed it begins `+49(0)`, `+49-(0)`, `+49/(0)`, `0049(0)`, `0049-(0)` or
/// `0049/(0)`, or it contains `(0)` together with `+49` or `0049`.
pub open spec fn has_plus49_trunk(raw: Seq<char>) -> bool {
    let stripped = without_white_space(raw);
    ||| "+49(0)"@.is_prefix_of(stripped)
    ||| "+49-(0)"@.is_prefix_of(stripped)
    ||| "+49/(0)"@.is_prefix_of(stripped)
    ||| "0049(0)"@.is_prefix_of(stripped)
    ||| "0049-(0)"@.is_prefix_of(stripped)
    ||| "0049/(0)"@.is_prefix_of(stripped)
    ||| has_infix(raw, "+49"@) && has_infix(raw, "(0)"@)
    ||| has_infix(raw, "0049"@) && has_infix(raw, "(0)"@)
}

/// The normal form of a matched run: trimmed, reduced to digits and `+`, a
/// leading `00` turned into `+`; when the run marks the trunk zero, a leading
/// `+490` or `+49` becomes the local prefix `0`.
pub open spec fn normalized_number(m: Seq<char>) -> Seq<char> {
    let raw = trim(m);
    let d = double_zero_as_plus(dial_chars(raw));
    if has_plus49_trunk(raw) {
        if starts_plus490(d) {
            seq!['0'] + d.skip(4)
        } else if starts_plus49(d) {
            seq!['0'] + d.skip(3)
        } else {
            d
        }
    } else {
        d
    }
}

/// What `extract_phone_number` gives for `input`: `None` for blank input or when
/// `TEXT_NUMBER_PATTERN` finds nothing in the trimmed input, otherwise the normal
/// form of the first match.
pub open spec fn extracted_number(input: Seq<char>) -> Option<Seq<char>> {
    let t = trim(input);
    if t.len() == 0 {
        None
    } else {
        match first_match(TEXT_NUMBER_PATTERN@, t) {
            Some(m) => Some(normalized_number(m)),
            None => None,
        }
    }
}

/// Normalises one matched run (see `normalized_number`).
pub fn normalize_number(raw: &str) -> (r: String)
    ensures
        r@ == normalized_number(raw@),
{
    let chars = chars_of(raw);
    let raw = trim_chars(&chars);
    let stripped = drop_white_space(&raw);
    let has_trunk = starts_with(&stripped, "+49(0)") || starts_with(&stripped, "+49-(0)")
        || starts_with(&stripped, "+49/(0)") || starts_with(&stripped, "0049(0)")
        || starts_with(&stripped, "0049-(0)") || starts_with(&stripped, "0049/(0)")
        || contains(&raw, "+49") && contains(&raw, "(0)")
        || contains(&raw, "0049") && contains(&raw, "(0)");
    let d = plus_for_double_zero(keep_dial_chars(&raw));
    let d = if has_trunk {
        if has_plus490(&d) {
            replace_prefix('0', &d, 4)
        } else if has_plus49(&d) {
            replace_prefix('0', &d, 3)
        } else {
            d
        }
    } else {
        d
    };
    string_of(&d)
}

/// A run that names the country code `+49` or `0049` and carries the trunk
/// marker `(0)` normalises to a local number: never to one beginning `+49`, and
/// when the run itself begins with `+49` or `0049` (after white space), to one
/// beginning with the local prefix `0`.
pub proof fn law_trunk_zero_gives_local_number(m: Seq<char>)
    ensures
        ({
            let r = normalized_number(m);
            &&& (has_infix(m, "0049"@) || has_infix(m, "+49"@)) && has_infix(m, "(0)"@) ==> !(r.len()
                >= 3 && r[0] == '+' && r[1] == '4' && r[2] == '9')
            &&& ("0049"@.is_prefix_of(trim(m)) || "+49"@.is_prefix_of(trim(m))) && has_infix(
                m,
                "(0)"@,
            ) ==> r.len() > 0 && r[0] == '0'
        }),
{
    reveal_strlit("0049");
    reveal_strlit("+49");
    reveal_strlit("(0)");
    let raw = trim(m);
    let d = double_zero_as_plus(dial_chars(raw));
    if has_infix(m, "(0)"@) {
        lemma_trim_keeps_infix(m, "(0)"@);
    }
    if has_infix(m, "0049"@) {
        lemma_trim_keeps_infix(m, "0049"@);
    }
    if has_infix(m, "+49"@) {
        lemma_trim_keeps_infix(m, "+49"@);
    }
    if "0049"@.is_prefix_of(raw) || "+49"@.is_prefix_of(raw) {
        let n: int = if "0049"@.is_prefix_of(raw) { 4 } else { 3 };
        let p = raw.subrange(0, n);
        let q = raw.subrange(n, raw.len() as int);
        assert(raw =~= p + q);
        lemma_dial_chars_concat(p, q);
        assert(p.subrange(0, n) == p);
        assert(raw.subrange(0, n) =~= p);
        lemma_dial_chars_of_dial_string(p);
        assert(has_infix(raw, p)) by {
            assert(raw.subrange(0, 0int + p.len()) =~= p);
        }
        assert(dial_chars(raw)[0] == p[0]);
        assert(dial_chars(raw)[1] == p[1]);
        assert(dial_chars(raw)[2] == p[2]);
        if n == 4 {
            assert(dial_chars(raw)[3] == p[3]);
            assert(d[1] == dial_chars(raw)[2]);
            assert(d[2] == dial_chars(raw)[3]);
        }
    }
}

/// Normalising keeps a `+` from appearing after the first character: a run whose
/// only `+` leads has a normal form whose only `+` leads.
pub proof fn lemma_normalized_plus_only_leads(m: Seq<char>)
    requires
        plus_only_leads(m),
    ensures
        plus_only_leads(normalized_number(m)),
{
    let raw = trim(m);
    let ij = lemma_trim_is_part(m);
    lemma_plus_only_leads_subrange(m, ij.0, ij.1);
    lemma_dial_chars_plus_only_leads(raw);
    let d0 = dial_chars(raw);
    if d0.len() >= 1 {
        lemma_plus_only_leads_edits(d0, 1);
    }
    let d = double_zero_as_plus(d0);
    if d.len() >= 4 {
        lemma_plus_only_leads_edits(d, 4);
    }
    if d.len() >= 3 {
        lemma_plus_only_leads_edits(d, 3);
    }
}

/// Extracts and normalises a German phone number from a string.
///
/// `+49(0)1234/34421-10` becomes `012343442110` (the `0` after `+49` makes it a
/// local number), `+49 30 12345678` becomes `+493012345678`, `+4912345121210`
/// stays, `0049 89 22334455` becomes `+498922334455`, `(0151) 555-01-00` becomes
/// `01515550100`, `0151/5550100` becomes `01515550100`, and
/// `Tel: +49 (0) 8031 / 2626-0` becomes `0803126260`.
pub fn extract_phone_number(input: &str) -> (r: Option<String>)
    ensures
        match r {
            Some(s) => extracted_number(input@) == Some(s@),
            None => extracted_number(input@) is None,
        },
        r matches Some(s) ==> plus_only_leads(s@),
{
    let chars = chars_of(input);
    let t = trim_chars(&chars);
    if t.len() == 0 {
        return None;
    }
    let trimmed = string_of(&t);
    match find_first(TEXT_NUMBER_PATTERN, trimmed.as_str()) {
        Some(m) => {
            proof {
                lemma_normalized_plus_only_leads(m@);
            }
            Some(normalize_number(m.as_str()))
        },
        None => None,
    }
}

/// The normal form holds nothing but ASCII digits and `+`: whatever text was
/// matched, the dialer receives a plain dial string.
pub proof fn law_normalized_number_is_dial_string(m: Seq<char>)
    ensures
        is_dial_string(normalized_number(m)),
{
    let raw = trim(m);
    lemma_dial_chars_is_dial_string(raw);
    lemma_dial_string_edits(dial_chars(raw), 0);
    let d = double_zero_as_plus(dial_chars(raw));
    if d.len() >= 4 {
        lemma_dial_string_edits(d, 4);
    }
    if d.len() >= 3 {
        lemma_dial_string_edits(d, 3);
    }
}

/// A dial string is already trimmed.
proof fn lemma_dial_string_trimmed(d: Seq<char>)
    requires
        is_dial_string(d),
    ensures
        trim(d) == d,
{
    if d.len() > 0 {
        assert(is_dial_char(d[0]));
        assert(is_dial_char(d[d.len() - 1]));
    }
    assert(trim_start(d) == d);
    assert(trim_end(d) == d);
}

/// A dial string never marks the trunk zero: it holds no `(`, `-` or `/`.
proof fn lemma_dial_string_has_no_trunk(d: Seq<char>)
    requires
        is_dial_string(d),
    ensures
        !has_plus49_trunk(d),
{
    lemma_dial_string_without_white_space(d);
    reveal_strlit("+49(0)");
    reveal_strlit("+49-(0)");
    reveal_strlit("+49/(0)");
    reveal_strlit("0049(0)");
    reveal_strlit("0049-(0)");
    reveal_strlit("0049/(0)");
    reveal_strlit("(0)");
    if d.len() >= 6 {
        assert(is_dial_char(d[3]));
        assert(is_dial_char(d[4]));
        assert(d.subrange(0, 6)[3] == d[3]);
    }
    if d.len() >= 7 {
        assert(d.subrange(0, 7)[3] == d[3]);
        assert(d.subrange(0, 7)[4] == d[4]);
    }
    if d.len() >= 8 {
        assert(d.subrange(0, 8)[4] == d[4]);
    }
    assert forall|i: int|
        0 <= i && i + 3 <= d.len() implies #[trigger] d.subrange(i, i + 3) != "(0)"@ by {
        assert(is_dial_char(d[i]));
        assert(d.subrange(i, i + 3)[0] == d[i]);
    }
}

/// Normalising a number that is already normal changes nothing, unless it
/// begins with `00` (which normalisation turns into `+`).
pub proof fn law_normalize_number_idempotent(m: Seq<char>)
    ensures
        ({
            let r = normalized_number(m);
            !(r.len() >= 2 && r[0] == '0' && r[1] == '0') ==> normalized_number(r) == r
        }),
{
    let r = normalized_number(m);
    law_normalized_number_is_dial_string(m);
    lemma_dial_string_trimmed(r);
    lemma_dial_chars_of_dial_string(r);
    lemma_dial_string_has_no_trunk(r);
}

/// `extract_phone_number` hands out dial strings only.
pub proof fn law_extracted_number_is_dial_string(input: Seq<char>)
    ensures
        extracted_number(input) matches Some(n) ==> is_dial_string(n),
{
    let t = trim(input);
    if let Some(m) = first_match(TEXT_NUMBER_PATTERN@, t) {
        law_normalized_number_is_dial_string(m);
    }
}

} // verus!
