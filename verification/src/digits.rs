//! Character filters shared by the two phone-number normalisers.
use vstd::prelude::*;
use crate::text::{is_ascii_digit, plus_only_leads, unicode_white_space, is_white_space};

verus! {

/// A character that a dial string keeps: an ASCII digit or `+`.
pub open spec fn is_dial_char(c: char) -> bool {
    is_ascii_digit(c) || c == '+'
}

/// The characters of `s` that are ASCII digits or `+`, in order.
pub open spec fn dial_chars(s: Seq<char>) -> Seq<char>
    decreases s.len(),
{
    if s.len() == 0 {
        Seq::empty()
    } else if is_dial_char(s.last()) {
        dial_chars(s.drop_last()).push(s.last())
    } else {
        dial_chars(s.drop_last())
    }
}

/// The characters of `s` that are not white space, in order.
pub open spec fn without_white_space(s: Seq<char>) -> Seq<char>
    decreases s.len(),
{
    if s.len() == 0 {
        Seq::empty()
    } else if unicode_white_space(s.last()) {
        without_white_space(s.drop_last())
    } else {
        without_white_space(s.drop_last()).push(s.last())
    }
}

/// The number of ASCII digits in `s`.
pub open spec fn digit_count(s: Seq<char>) -> nat
    decreases s.len(),
{
    if s.len() == 0 {
        0
    } else if is_ascii_digit(s.last()) {
        digit_count(s.drop_last()) + 1
    } else {
        digit_count(s.drop_last())
    }
}

/// A leading `00` becomes `+`; anything else stays as it is.
pub open spec fn double_zero_as_plus(d: Seq<char>) -> Seq<char> {
    if d.len() >= 2 && d[0] == '0' && d[1] == '0' {
        seq!['+'] + d.skip(2)
    } else {
        d
    }
}

/// `d` begins with `+49`.
pub open spec fn starts_plus49(d: Seq<char>) -> bool {
    d.len() >= 3 && d[0] == '+' && d[1] == '4' && d[2] == '9'
}

/// `d` begins with `+490`.
pub open spec fn starts_plus490(d: Seq<char>) -> bool {
    starts_plus49(d) && d.len() >= 4 && d[3] == '0'
}

/// Every character of `s` is an ASCII digit or `+`.
pub open spec fn is_dial_string(s: Seq<char>) -> bool {
    forall|i: int| 0 <= i < s.len() ==> #[trigger] is_dial_char(s[i])
}

/// Filtering leaves only digits and `+`.
pub proof fn lemma_dial_chars_is_dial_string(s: Seq<char>)
    ensures
        is_dial_string(dial_chars(s)),
    decreases s.len(),
{
    if s.len() > 0 {
        lemma_dial_chars_is_dial_string(s.drop_last());
    }
}

/// A dial string stays one when a leading `00` becomes `+`, and when its first
/// `k` characters are replaced by `0`.
pub proof fn lemma_dial_string_edits(d: Seq<char>, k: int)
    requires
        is_dial_string(d),
        0 <= k <= d.len(),
    ensures
        is_dial_string(double_zero_as_plus(d)),
        is_dial_string(seq!['0'] + d.skip(k)),
{
    if d.len() >= 2 && d[0] == '0' && d[1] == '0' {
        let r = seq!['+'] + d.skip(2);
        assert forall|i: int| 0 <= i < r.len() implies #[trigger] is_dial_char(r[i]) by {
            if i > 0 {
                assert(r[i] == d[i + 1]);
            }
        }
    }
    let r = seq!['0'] + d.skip(k);
    assert forall|i: int| 0 <= i < r.len() implies #[trigger] is_dial_char(r[i]) by {
        if i > 0 {
            assert(r[i] == d[i - 1 + k]);
        }
    }
}

/// Digits of a concatenation are the digits of its parts.
pub proof fn lemma_digit_count_concat(a: Seq<char>, b: Seq<char>)
    ensures
        digit_count(a + b) == digit_count(a) + digit_count(b),
    decreases b.len(),
{
    if b.len() == 0 {
        assert(a + b =~= a);
    } else {
        assert((a + b).drop_last() =~= a + b.drop_last());
        lemma_digit_count_concat(a, b.drop_last());
    }
}

/// A contiguous part of `s` holds no more digits than `s`.
pub proof fn lemma_digit_count_subrange(s: Seq<char>, i: int, j: int)
    requires
        0 <= i <= j <= s.len(),
    ensures
        digit_count(s.subrange(i, j)) <= digit_count(s),
{
    assert(s =~= s.subrange(0, i) + s.subrange(i, j) + s.subrange(j, s.len() as int));
    lemma_digit_count_concat(s.subrange(0, i) + s.subrange(i, j), s.subrange(j, s.len() as int));
    lemma_digit_count_concat(s.subrange(0, i), s.subrange(i, j));
}

/// Keeping digits and `+` keeps every digit.
pub proof fn lemma_dial_chars_digit_count(s: Seq<char>)
    ensures
        digit_count(dial_chars(s)) == digit_count(s),
    decreases s.len(),
{
    if s.len() > 0 {
        lemma_dial_chars_digit_count(s.drop_last());
        let d = dial_chars(s.drop_last());
        if is_dial_char(s.last()) {
            assert(d.push(s.last()).drop_last() =~= d);
        }
    }
}

/// Turning a leading `00` into `+` does not add digits.
pub proof fn lemma_double_zero_digit_count(d: Seq<char>)
    ensures
        digit_count(double_zero_as_plus(d)) <= digit_count(d),
        digit_count(double_zero_as_plus(d)) + 2 >= digit_count(d),
{
    if d.len() >= 2 && d[0] == '0' && d[1] == '0' {
        assert(d =~= d.subrange(0, 2) + d.skip(2));
        assert(d.subrange(0, 2) =~= seq!['0', '0']);
        assert(digit_count(seq!['0', '0']) == 2) by {
            reveal_with_fuel(digit_count, 3);
            assert(seq!['0', '0'].drop_last() =~= seq!['0']);
            assert(seq!['0'].drop_last() =~= Seq::<char>::empty());
        }
        lemma_digit_count_concat(d.subrange(0, 2), d.skip(2));
        lemma_digit_count_concat(seq!['+'], d.skip(2));
        assert(seq!['+'].drop_last() =~= Seq::<char>::empty());
        assert(digit_count(Seq::<char>::empty()) == 0);
        assert(digit_count(seq!['+']) == 0);
    }
}

/// Replacing a leading `+490` by `0` does not add digits.
pub proof fn lemma_trunk_digit_count(d: Seq<char>)
    requires
        starts_plus490(d),
    ensures
        digit_count(seq!['0'] + d.skip(4)) <= digit_count(d),
        digit_count(seq!['0'] + d.skip(4)) + 2 == digit_count(d),
{
    assert(d =~= d.subrange(0, 4) + d.skip(4));
    lemma_digit_count_concat(d.subrange(0, 4), d.skip(4));
    lemma_digit_count_concat(seq!['0'], d.skip(4));
    assert(seq!['0'].drop_last() =~= Seq::<char>::empty());
    let p = d.subrange(0, 4);
    assert(p =~= seq!['+', '4', '9', '0']);
    assert(digit_count(seq!['0']) == 1) by {
        reveal_with_fuel(digit_count, 2);
    }
    assert(digit_count(seq!['+', '4', '9', '0']) == 3) by {
        reveal_with_fuel(digit_count, 5);
        assert(seq!['+', '4', '9', '0'].drop_last() =~= seq!['+', '4', '9']);
        assert(seq!['+', '4', '9'].drop_last() =~= seq!['+', '4']);
        assert(seq!['+', '4'].drop_last() =~= seq!['+']);
        assert(seq!['+'].drop_last() =~= Seq::<char>::empty());
    }
}

/// A dial string keeps all its characters when filtered.
pub proof fn lemma_dial_chars_of_dial_string(d: Seq<char>)
    requires
        is_dial_string(d),
    ensures
        dial_chars(d) == d,
    decreases d.len(),
{
    if d.len() > 0 {
        assert(is_dial_char(d[d.len() - 1]));
        lemma_dial_chars_of_dial_string(d.drop_last());
        assert(d.drop_last().push(d.last()) =~= d);
    }
}

/// A text none of whose characters is a digit holds no digits.
pub proof fn lemma_no_digit_count(s: Seq<char>)
    requires
        forall|i: int| 0 <= i < s.len() ==> !is_ascii_digit(#[trigger] s[i]),
    ensures
        digit_count(s) == 0,
    decreases s.len(),
{
    if s.len() > 0 {
        assert(!is_ascii_digit(s[s.len() - 1]));
        assert forall|i: int| 0 <= i < s.drop_last().len() implies !is_ascii_digit(
            #[trigger] s.drop_last()[i],
        ) by {
            assert(s.drop_last()[i] == s[i]);
        }
        lemma_no_digit_count(s.drop_last());
    }
}

/// Filtering brings in no character that `s` does not hold.
pub proof fn lemma_dial_chars_avoids(s: Seq<char>, c: char)
    requires
        forall|i: int| 0 <= i < s.len() ==> #[trigger] s[i] != c,
    ensures
        forall|i: int| 0 <= i < dial_chars(s).len() ==> #[trigger] dial_chars(s)[i] != c,
    decreases s.len(),
{
    if s.len() > 0 {
        assert(s[s.len() - 1] != c);
        assert forall|i: int| 0 <= i < s.drop_last().len() implies #[trigger] s.drop_last()[i]
            != c by {
            assert(s.drop_last()[i] == s[i]);
        }
        lemma_dial_chars_avoids(s.drop_last(), c);
        let p = dial_chars(s.drop_last());
        if is_dial_char(s.last()) {
            assert forall|i: int| 0 <= i < p.push(s.last()).len() implies #[trigger] p.push(
                s.last(),
            )[i] != c by {
                if i < p.len() {
                    assert(p.push(s.last())[i] == p[i]);
                }
            }
        }
    }
}

/// Filtering a concatenation filters its parts.
pub proof fn lemma_dial_chars_concat(a: Seq<char>, b: Seq<char>)
    ensures
        dial_chars(a + b) == dial_chars(a) + dial_chars(b),
    decreases b.len(),
{
    if b.len() == 0 {
        assert(a + b =~= a);
        assert(dial_chars(a) + dial_chars(b) =~= dial_chars(a));
    } else {
        assert((a + b).drop_last() =~= a + b.drop_last());
        lemma_dial_chars_concat(a, b.drop_last());
        if is_dial_char(b.last()) {
            assert(dial_chars(a) + dial_chars(b.drop_last()).push(b.last()) =~= (dial_chars(a)
                + dial_chars(b.drop_last())).push(b.last()));
        }
    }
}

/// A dial string holds no white space.
pub proof fn lemma_dial_string_without_white_space(d: Seq<char>)
    requires
        is_dial_string(d),
    ensures
        without_white_space(d) == d,
    decreases d.len(),
{
    if d.len() > 0 {
        assert(is_dial_char(d[d.len() - 1]));
        lemma_dial_string_without_white_space(d.drop_last());
        assert(d.drop_last().push(d.last()) =~= d);
    }
}

/// A contiguous part of a text whose only `+` leads has no `+` after its first
/// character either.
pub proof fn lemma_plus_only_leads_subrange(s: Seq<char>, i: int, j: int)
    requires
        plus_only_leads(s),
        0 <= i <= j <= s.len(),
    ensures
        plus_only_leads(s.subrange(i, j)),
{
    assert forall|k: int| 1 <= k < j - i implies s.subrange(i, j)[k] != '+' by {
        assert(s.subrange(i, j)[k] == s[i + k]);
    }
}

/// Filtering keeps a `+` from appearing after the first character.
pub proof fn lemma_dial_chars_plus_only_leads(s: Seq<char>)
    requires
        plus_only_leads(s),
    ensures
        plus_only_leads(dial_chars(s)),
        dial_chars(s).len() <= s.len(),
    decreases s.len(),
{
    if s.len() > 0 {
        let p = s.drop_last();
        assert(plus_only_leads(p)) by {
            assert forall|k: int| 1 <= k < p.len() implies p[k] != '+' by {
                assert(p[k] == s[k]);
            }
        }
        lemma_dial_chars_plus_only_leads(p);
        if is_dial_char(s.last()) {
            let d = dial_chars(p).push(s.last());
            assert forall|k: int| 1 <= k < d.len() implies d[k] != '+' by {
                if k == d.len() - 1 {
                    assert(s.last() == s[s.len() - 1]);
                }
            }
        }
    }
}

/// Turning a leading `00` into `+`, or replacing a prefix by `0`, keeps a `+`
/// from appearing after the first character.
pub proof fn lemma_plus_only_leads_edits(d: Seq<char>, k: int)
    requires
        plus_only_leads(d),
        1 <= k <= d.len(),
    ensures
        plus_only_leads(double_zero_as_plus(d)),
        plus_only_leads(seq!['0'] + d.skip(k)),
{
    if d.len() >= 2 && d[0] == '0' && d[1] == '0' {
        let r = seq!['+'] + d.skip(2);
        assert forall|i: int| 1 <= i < r.len() implies r[i] != '+' by {
            assert(r[i] == d[i + 1]);
        }
    }
    let r = seq!['0'] + d.skip(k);
    assert forall|i: int| 1 <= i < r.len() implies r[i] != '+' by {
        assert(r[i] == d[i - 1 + k]);
    }
}

/// The ASCII digits and `+` signs of `s`, in order.
pub fn keep_dial_chars(s: &Vec<char>) -> (r: Vec<char>)
    ensures
        r@ == dial_chars(s@),
{
    let mut r: Vec<char> = Vec::new();
    let mut i: usize = 0;
    while i < s.len()
        invariant
            i <= s.len(),
            r@ == dial_chars(s@.subrange(0, i as int)),
        decreases s.len() - i,
    {
        let c = s[i];
        assert(s@.subrange(0, i + 1).drop_last() =~= s@.subrange(0, i as int));
        if ('0' <= c && c <= '9') || c == '+' {
            r.push(c);
        }
        i = i + 1;
    }
    assert(s@.subrange(0, s.len() as int) =~= s@);
    r
}

/// The characters of `s` that are not white space, in order.
pub fn drop_white_space(s: &Vec<char>) -> (r: Vec<char>)
    ensures
        r@ == without_white_space(s@),
{
    let mut r: Vec<char> = Vec::new();
    let mut i: usize = 0;
    while i < s.len()
        invariant
            i <= s.len(),
            r@ == without_white_space(s@.subrange(0, i as int)),
        decreases s.len() - i,
    {
        let c = s[i];
        assert(s@.subrange(0, i + 1).drop_last() =~= s@.subrange(0, i as int));
        if !is_white_space(c) {
            r.push(c);
        }
        i = i + 1;
    }
    assert(s@.subrange(0, s.len() as int) =~= s@);
    r
}

/// The number of ASCII digits in `s`.
pub fn count_digits(s: &Vec<char>) -> (n: usize)
    ensures
        n == digit_count(s@),
{
    let mut n: usize = 0;
    let mut i: usize = 0;
    while i < s.len()
        invariant
            i <= s.len(),
            n == digit_count(s@.subrange(0, i as int)),
            n <= i,
        decreases s.len() - i,
    {
        let c = s[i];
        assert(s@.subrange(0, i + 1).drop_last() =~= s@.subrange(0, i as int));
        if '0' <= c && c <= '9' {
            n = n + 1;
        }
        i = i + 1;
    }
    assert(s@.subrange(0, s.len() as int) =~= s@);
    n
}

/// `prefix` followed by the characters of `d` from position `from` on.
pub fn replace_prefix(prefix: char, d: &Vec<char>, from: usize) -> (r: Vec<char>)
    requires
        from <= d.len(),
    ensures
        r@ == seq![prefix] + d@.skip(from as int),
{
    let mut r: Vec<char> = Vec::new();
    r.push(prefix);
    let mut i: usize = from;
    while i < d.len()
        invariant
            from <= i <= d.len(),
            r@ == seq![prefix] + d@.subrange(from as int, i as int),
        decreases d.len() - i,
    {
        r.push(d[i]);
        i = i + 1;
        assert(r@ =~= seq![prefix] + d@.subrange(from as int, i as int));
    }
    assert(d@.subrange(from as int, d.len() as int) =~= d@.skip(from as int));
    r
}

/// A leading `00` becomes `+`.
pub fn plus_for_double_zero(d: Vec<char>) -> (r: Vec<char>)
    ensures
        r@ == double_zero_as_plus(d@),
{
    if d.len() >= 2 && d[0] == '0' && d[1] == '0' {
        replace_prefix('+', &d, 2)
    } else {
        d
    }
}

/// Whether `d` begins with `+49`.
pub fn has_plus49(d: &Vec<char>) -> (r: bool)
    ensures
        r == starts_plus49(d@),
{
    d.len() >= 3 && d[0] == '+' && d[1] == '4' && d[2] == '9'
}

/// Whether `d` begins with `+490`.
pub fn has_plus490(d: &Vec<char>) -> (r: bool)
    ensures
        r == starts_plus490(d@),
{
    has_plus49(d) && d.len() >= 4 && d[3] == '0'
}

} // verus!
