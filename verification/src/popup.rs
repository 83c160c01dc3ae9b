//! Decisions of the call pop-up window: where it appears, what a click does,
//! which caller it shows, and the face names handed to font creation.
use vstd::prelude::*;
use crate::text::owned;
use crate::wide::{to_wide, utf16_encode};

verus! {

/// Width of the pop-up window in pixels.
pub const POPUP_WIDTH: i32 = 380;

/// Height of the pop-up window in pixels.
pub const POPUP_HEIGHT: i32 = 170;

/// What a left click at a point of the pop-up does.
#[derive(Clone, Copy, PartialEq, Eq, Debug, Structural)]
pub enum PopupClick {
    /// The close mark in the top right corner.
    Close,
    /// The call-back mail button.
    SendMail,
    /// Anywhere else: the window is dragged.
    Drag,
}

/// The meaning of a click at `(x, y)`: the close mark occupies the top 26
/// pixels of the rightmost 30, the mail button rows 110 to 144 between 16
/// pixels from either side.
pub open spec fn click_meaning(x: int, y: int) -> PopupClick {
    if y <= 26 && x >= POPUP_WIDTH - 30 {
        PopupClick::Close
    } else if 110 <= y <= 144 && 16 <= x <= POPUP_WIDTH - 16 {
        PopupClick::SendMail
    } else {
        PopupClick::Drag
    }
}

/// A 16-bit word read as a signed number.
pub open spec fn signed_word(w: int) -> int {
    if w < 0x8000 {
        w
    } else {
        w - 0x10000
    }
}

/// The client coordinates packed into a mouse message's `lParam`: `x` in the
/// low word and `y` in the high word of its low 32 bits, each signed.
pub open spec fn click_point(lparam: isize) -> (int, int) {
    let bits = lparam as u32;
    (signed_word((bits % 0x10000) as int), signed_word((bits / 0x10000) as int))
}

/// The signed reading of the 16-bit word `w`.
fn word_as_signed(w: u32) -> (r: i32)
    requires
        w < 0x10000,
    ensures
        r == signed_word(w as int),
{
    if w < 0x8000 {
        w as i32
    } else {
        w as i32 - 0x10000
    }
}

/// The point a mouse message's `lParam` carries.
pub fn click_coordinates(lparam: isize) -> (p: (i32, i32))
    ensures
        (p.0 as int, p.1 as int) == click_point(lparam),
{
    #[verifier::truncate]
    let bits = lparam as u32;
    let low = bits & 0xFFFF;
    let high = (bits >> 16) & 0xFFFF;
    assert(low == bits % 0x10000) by (bit_vector)
        requires
            low == bits & 0xFFFF,
    ;
    assert(high == bits / 0x10000) by (bit_vector)
        requires
            high == (bits >> 16) & 0xFFFF,
    ;
    (word_as_signed(low), word_as_signed(high))
}

/// What a left click with the given `lParam` does.
pub fn classify_click(lparam: isize) -> (r: PopupClick)
    ensures
        r == click_meaning(click_point(lparam).0, click_point(lparam).1),
{
    let (x, y) = click_coordinates(lparam);
    if y <= 26 && x >= POPUP_WIDTH - 30 {
        PopupClick::Close
    } else if 110 <= y && y <= 144 && 16 <= x && x <= POPUP_WIDTH - 16 {
        PopupClick::SendMail
    } else {
        PopupClick::Drag
    }
}

/// The top-left corner of the pop-up on a screen of the given size: 14 pixels
/// from the right edge and 50 from the bottom.
pub fn popup_origin(screen_width: i32, screen_height: i32) -> (p: (i32, i32))
    requires
        screen_width >= i32::MIN + POPUP_WIDTH + 14,
        screen_height >= i32::MIN + POPUP_HEIGHT + 50,
    ensures
        p.0 == screen_width - POPUP_WIDTH - 14,
        p.1 == screen_height - POPUP_HEIGHT - 50,
{
    (screen_width - POPUP_WIDTH - 14, screen_height - POPUP_HEIGHT - 50)
}

/// The caller shown by the pop-up: its first argument as the name
/// (`Unbekannt` when absent), its second as the number (empty when absent).
pub fn caller_from_args(args: &Vec<String>) -> (c: (String, String))
    ensures
        c.0@ == if args.len() > 1 {
            args[1]@
        } else {
            "Unbekannt"@
        },
        c.1@ == if args.len() > 2 {
            args[2]@
        } else {
            Seq::<char>::empty()
        },
{
    let name = if args.len() > 1 {
        args[1].clone()
    } else {
        owned("Unbekannt")
    };
    let number = if args.len() > 2 {
        args[2].clone()
    } else {
        String::new()
    };
    (name, number)
}

/// The 32-unit face-name buffer for a font family: the NUL-terminated UTF-16
/// family name, cut after 31 units, padded with zeros.
pub open spec fn face_units(family: Seq<char>) -> Seq<u16> {
    let w = utf16_encode(family).push(0);
    Seq::new(32, |i: int| if i < 31 && i < w.len() { w[i] } else { 0u16 })
}

/// The face-name buffer for `family` (see `face_units`).
pub fn font_face(family: &str) -> (r: Vec<u16>)
    ensures
        r@ == face_units(family@),
{
    let fam = to_wide(family);
    let mut face: Vec<u16> = Vec::new();
    let mut i: usize = 0;
    while i < 32
        invariant
            fam@ == utf16_encode(family@).push(0),
            i <= 32,
            face.len() == i,
            forall|k: int| 0 <= k < i ==> #[trigger] face@[k] == face_units(family@)[k],
        decreases 32 - i,
    {
        if i < 31 && i < fam.len() {
            face.push(fam[i]);
        } else {
            face.push(0);
        }
        i = i + 1;
    }
    assert(face@ =~= face_units(family@));
    face
}

/// The click regions do not overlap: no point both closes the pop-up and sends
/// the mail, and every click has exactly one meaning.
pub proof fn law_click_regions_disjoint(x: int, y: int)
    ensures
        !(y <= 26 && x >= POPUP_WIDTH - 30 && 110 <= y <= 144),
        click_meaning(x, y) == PopupClick::SendMail <==> (110 <= y <= 144 && 16 <= x <= POPUP_WIDTH
            - 16),
{
}

} // verus!
