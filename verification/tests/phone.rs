use fourdy_client::phone::{normalize_phone, tel_dial_number};

#[test]
fn international_with_spaces() {
    assert_eq!(
        normalize_phone("+49 40 12345678"),
        Some("+494012345678".into())
    );
}

#[test]
fn international_compact() {
    assert_eq!(
        normalize_phone("+4912345121210"),
        Some("+4912345121210".into())
    );
}

#[test]
fn double_zero_prefix_becomes_plus() {
    assert_eq!(
        normalize_phone("0049 40 12345678"),
        Some("+494012345678".into())
    );
}

#[test]
fn trunk_zero_in_parentheses() {
    assert_eq!(
        normalize_phone("+49(0)1234567890"),
        Some("01234567890".into())
    );
}

#[test]
fn trunk_zero_with_spaces() {
    assert_eq!(
        normalize_phone("+49 (0) 8031 2626 0"),
        Some("0803126260".into())
    );
}

#[test]
fn local_with_parentheses_and_dashes() {
    assert_eq!(
        normalize_phone("(0151) 555-01-00"),
        Some("01515550100".into())
    );
}

#[test]
fn embedded_in_text() {
    assert_eq!(
        normalize_phone("Call me at +49 40 12345678 please"),
        Some("+494012345678".into())
    );
}

#[test]
fn empty_input_returns_none() {
    assert_eq!(normalize_phone(""), None);
}

#[test]
fn pure_text_returns_none() {
    assert_eq!(normalize_phone("Hallo Welt"), None);
}

#[test]
fn too_few_digits_returns_none() {
    assert_eq!(normalize_phone("12"), None);
}

#[test]
fn three_digits_are_enough() {
    assert_eq!(normalize_phone("112"), Some("112".into()));
}

#[test]
fn three_separators_without_enough_digits_return_none() {
    // the run " 1-2" matches the pattern but keeps only two digits
    assert_eq!(normalize_phone("a 1-2 b"), None);
}

#[test]
fn trunk_zero_after_0049_becomes_local() {
    assert_eq!(normalize_phone("0049 (0) 89 123456"), Some("089123456".into()));
}

#[test]
fn tel_link_prefix_is_removed() {
    assert_eq!(tel_dial_number("tel:+49 40 12345678"), Some("+494012345678".into()));
}

#[test]
fn tel_link_with_slashes_is_removed() {
    assert_eq!(tel_dial_number("tel://0151-555-0100"), Some("01515550100".into()));
}

#[test]
fn tel_link_repeated_prefix_is_removed() {
    assert_eq!(tel_dial_number("tel:tel:////  112  "), Some("112".into()));
}

#[test]
fn tel_link_without_number_dials_nothing() {
    assert_eq!(tel_dial_number("tel:"), None);
    assert_eq!(tel_dial_number(""), None);
    assert_eq!(tel_dial_number("tel:   "), None);
}

#[test]
fn tel_number_consists_of_dial_characters() {
    for input in ["+49 (0) 8031 2626 0", "0049 40 12345678", "x (0151) 555-01-00 y"] {
        let n = normalize_phone(input).unwrap();
        assert!(n.chars().all(|c| c.is_ascii_digit() || c == '+'));
        assert!(n.chars().filter(|c| c.is_ascii_digit()).count() >= 3);
    }
}

#[test]
fn plus_inside_the_text_ends_the_number() {
    assert_eq!(normalize_phone("Ruf +49 40 +1234"), Some("+4940".into()));
}
