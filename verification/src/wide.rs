//! NUL-terminated UTF-16 text for Windows API calls.
use vstd::prelude::*;
use crate::text::chars_of;

verus! {

/// The UTF-16 code units of one character: the scalar value itself below
/// `0x10000`, a surrogate pair above.
pub open spec fn utf16_units(c: char) -> Seq<u16> {
    let v = c as u32;
    if v < 0x10000 {
        seq![v as u16]
    } else {
        let w = v - 0x10000;
        seq![(0xD800 + w / 0x400) as u16, (0xDC00 + w % 0x400) as u16]
    }
}

/// The UTF-16 encoding of `s`, as `str::encode_utf16` yields it.
pub open spec fn utf16_encode(s: Seq<char>) -> Seq<u16>
    decreases s.len(),
{
    if s.len() == 0 {
        Seq::empty()
    } else {
        utf16_encode(s.drop_last()) + utf16_units(s.last())
    }
}

/// The UTF-16 code units of `c`.
fn encode_char(c: char) -> (r: Vec<u16>)
    ensures
        r@ == utf16_units(c),
{
    let v = c as u32;
    let mut r: Vec<u16> = Vec::new();
    if v < 0x10000 {
        r.push(v as u16);
    } else {
        let w = v - 0x10000;
        r.push((0xD800 + w / 0x400) as u16);
        r.push((0xDC00 + w % 0x400) as u16);
    }
    assert(r@ =~= utf16_units(c));
    r
}

/// `s` as UTF-16 with a terminating NUL, the form wide-string Windows APIs take.
pub fn to_wide(s: &str) -> (r: Vec<u16>)
    ensures
        r@ == utf16_encode(s@).push(0),
{
    let chars = chars_of(s);
    let mut r: Vec<u16> = Vec::new();
    let mut i: usize = 0;
    while i < chars.len()
        invariant
            chars@ == s@,
            i <= chars.len(),
            r@ == utf16_encode(chars@.subrange(0, i as int)),
        decreases chars.len() - i,
    {
        let units = encode_char(chars[i]);
        assert(chars@.subrange(0, i + 1).drop_last() =~= chars@.subrange(0, i as int));
        let mut k: usize = 0;
        let ghost before = r@;
        while k < units.len()
            invariant
                k <= units.len(),
                r@ == before + units@.subrange(0, k as int),
            decreases units.len() - k,
        {
            r.push(units[k]);
            k = k + 1;
            assert(r@ =~= before + units@.subrange(0, k as int));
        }
        assert(units@.subrange(0, units.len() as int) =~= units@);
        i = i + 1;
    }
    assert(chars@.subrange(0, chars.len() as int) =~= chars@);
    r.push(0);
    r
}

/// Only the NUL character encodes to a zero unit.
proof fn lemma_units_nonzero(c: char)
    requires
        c != '\0',
    ensures
        forall|k: int| 0 <= k < utf16_units(c).len() ==> #[trigger] utf16_units(c)[k] != 0,
{
    assert((c as u32) != 0);
}

/// Text without NUL characters encodes without zero units.
proof fn lemma_encode_nonzero(s: Seq<char>)
    requires
        forall|i: int| 0 <= i < s.len() ==> #[trigger] s[i] != '\0',
    ensures
        forall|k: int| 0 <= k < utf16_encode(s).len() ==> #[trigger] utf16_encode(s)[k] != 0,
    decreases s.len(),
{
    if s.len() > 0 {
        let p = s.drop_last();
        assert forall|i: int| 0 <= i < p.len() implies #[trigger] p[i] != '\0' by {
            assert(p[i] == s[i]);
        }
        lemma_encode_nonzero(p);
        lemma_units_nonzero(s.last());
        let e = utf16_encode(s);
        assert forall|k: int| 0 <= k < e.len() implies #[trigger] e[k] != 0 by {
            if k < utf16_encode(p).len() {
                assert(e[k] == utf16_encode(p)[k]);
            } else {
                assert(e[k] == utf16_units(s.last())[k - utf16_encode(p).len()]);
            }
        }
    }
}

/// A wide string made from text without NUL characters has exactly one zero
/// unit, its last: the terminator that Windows APIs read up to.
pub proof fn law_wide_string_terminated_once(s: Seq<char>)
    requires
        forall|i: int| 0 <= i < s.len() ==> #[trigger] s[i] != '\0',
    ensures
        utf16_encode(s).push(0).last() == 0,
        forall|k: int|
            0 <= k < utf16_encode(s).push(0).len() - 1 ==> #[trigger] utf16_encode(s).push(0)[k]
                != 0,
{
    lemma_encode_nonzero(s);
    let e = utf16_encode(s);
    assert forall|k: int| 0 <= k < e.push(0).len() - 1 implies #[trigger] e.push(0)[k] != 0 by {
        assert(e.push(0)[k] == e[k]);
    }
}

} // verus!
