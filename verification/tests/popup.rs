use fourdy_client::i18n::{init, Locale};
use fourdy_client::mailto::{callback_mail_link, replace};
use fourdy_client::popup::{
    caller_from_args, classify_click, click_coordinates, font_face, popup_origin, PopupClick,
};

fn lparam(x: i16, y: i16) -> isize {
    (((y as u16 as u32) << 16) | (x as u16 as u32)) as i32 as isize
}

#[test]
fn click_coordinates_are_signed_words() {
    assert_eq!(click_coordinates(lparam(12, 34)), (12, 34));
    assert_eq!(click_coordinates(lparam(-5, -7)), (-5, -7));
    assert_eq!(click_coordinates(lparam(379, 169)), (379, 169));
}

#[test]
fn clicks_hit_close_mail_or_drag() {
    assert_eq!(classify_click(lparam(360, 10)), PopupClick::Close);
    assert_eq!(classify_click(lparam(350, 26)), PopupClick::Close);
    assert_eq!(classify_click(lparam(349, 10)), PopupClick::Drag);
    assert_eq!(classify_click(lparam(16, 110)), PopupClick::SendMail);
    assert_eq!(classify_click(lparam(364, 144)), PopupClick::SendMail);
    assert_eq!(classify_click(lparam(365, 144)), PopupClick::Drag);
    assert_eq!(classify_click(lparam(100, 60)), PopupClick::Drag);
    assert_eq!(classify_click(lparam(100, -3)), PopupClick::Drag);
}

#[test]
fn popup_sits_bottom_right() {
    assert_eq!(popup_origin(1920, 1080), (1526, 860));
}

#[test]
fn caller_defaults_apply() {
    let args = vec!["popup.exe".to_string()];
    assert_eq!(caller_from_args(&args), ("Unbekannt".to_string(), String::new()));
    let args = vec!["popup.exe".to_string(), "Erika".to_string(), "0301234".to_string()];
    assert_eq!(caller_from_args(&args), ("Erika".to_string(), "0301234".to_string()));
}

#[test]
fn font_face_is_cut_and_padded() {
    let face = font_face("Segoe UI");
    assert_eq!(face.len(), 32);
    let expected: Vec<u16> = "Segoe UI".encode_utf16().collect();
    assert_eq!(&face[..8], &expected[..]);
    assert!(face[8..].iter().all(|&u| u == 0));
    let long = font_face("ABCDEFGHIJKLMNOPQRSTUVWXYZabcdefghij");
    assert_eq!(long[30], 'e' as u16);
    assert_eq!(long[31], 0);
}

#[test]
fn replace_matches_std() {
    for (s, p, r) in [("{name} {number}", "{name}", "Erika"), ("aaa", "aa", "b"), ("x", "{name}", "y"), ("{name}{name}", "{name}", ""), ("abc", "", "x"), ("", "", "-"), ("äb", "", "/")] {
        assert_eq!(replace(s, p, r), s.replace(p, r));
    }
}

#[test]
fn empty_pattern_is_replaced_around_every_character() {
    assert_eq!(replace("abc", "", "x"), "xaxbxcx");
}

#[test]
fn mail_link_encodes_subject() {
    let link = callback_mail_link(&Locale::new(), "Erika Muster", "+49 30 1234");
    assert_eq!(link, "mailto:?subject=Please%20call%20back%3A%20Erika%20Muster%20%2B49%2030%201234");
}

#[test]
fn mail_link_encodes_umlauts_as_utf8() {
    let mut locale = Locale::new();
    init(&mut locale, Some(0x0407));
    let link = callback_mail_link(&locale, "Jörg", "0301234");
    assert_eq!(link, "mailto:?subject=Bitte%20zur%C3%BCckrufen%3A%20J%C3%B6rg%200301234");
}
