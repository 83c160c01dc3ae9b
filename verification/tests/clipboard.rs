use fourdy_client::clipboard::{extract_phone_number, normalize_number};

#[test]
fn test_international() {
    assert_eq!(
        extract_phone_number("+49 30 12345678"),
        Some("+493012345678".into())
    );
}

#[test]
fn test_international_compact() {
    assert_eq!(
        extract_phone_number("+4912345121210"),
        Some("+4912345121210".into())
    );
}

#[test]
fn test_plus49_with_trunk_zero() {
    assert_eq!(
        extract_phone_number("+49(0)1234/34421-10"),
        Some("012343442110".into())
    );
}

#[test]
fn test_plus49_space_trunk() {
    assert_eq!(
        extract_phone_number("+49 (0) 8031 / 2626-0"),
        Some("0803126260".into())
    );
}

#[test]
fn test_double_zero_prefix() {
    assert_eq!(
        extract_phone_number("0049 89 22334455"),
        Some("+498922334455".into())
    );
}

#[test]
fn test_local_with_parens() {
    assert_eq!(
        extract_phone_number("(0151) 555 01 00"),
        Some("01515550100".into())
    );
}

#[test]
fn test_local_with_slash() {
    assert_eq!(
        extract_phone_number("0151/5550100"),
        Some("01515550100".into())
    );
}

#[test]
fn test_local_with_dashes() {
    assert_eq!(
        extract_phone_number("0151-555-0100"),
        Some("01515550100".into())
    );
}

#[test]
fn test_from_text() {
    assert_eq!(
        extract_phone_number("Tel: +49 30 12345678 - Danke"),
        Some("+493012345678".into())
    );
}

#[test]
fn test_empty() {
    assert_eq!(extract_phone_number(""), None);
}

#[test]
fn test_no_number() {
    assert_eq!(extract_phone_number("Hallo Welt"), None);
}

#[test]
fn blank_input_gives_none() {
    assert_eq!(extract_phone_number(" \t\n "), None);
}

#[test]
fn five_characters_are_too_short() {
    assert_eq!(extract_phone_number("12345"), None);
    assert_eq!(extract_phone_number("123456"), Some("123456".into()));
}

#[test]
fn trunk_marker_with_slash_gives_local_number() {
    assert_eq!(normalize_number("+49/(0)30 1234"), "0301234");
}

#[test]
fn trunk_marker_later_in_text_replaces_plus49() {
    // `(0)` appears after the area code, so the digits begin `+4930`; the
    // country code alone becomes the local prefix `0`.
    assert_eq!(normalize_number("+49 30 (0)1"), "03001");
}

#[test]
fn trunk_marker_with_spaces_is_found() {
    assert_eq!(normalize_number("  + 4 9 (0) 30 1234 "), "0301234");
}

#[test]
fn normalize_keeps_plus_and_digits_only() {
    assert_eq!(normalize_number("+1 (555) 010-9999"), "+15550109999");
}

#[test]
fn normalized_numbers_are_dial_strings() {
    for input in ["Tel: +49 (0) 8031 / 2626-0", "0049 89 22334455", "Ruf an: (0151) 555 01 00!"] {
        let n = extract_phone_number(input).unwrap();
        assert!(n.chars().all(|c| c.is_ascii_digit() || c == '+'));
    }
}

#[test]
fn normalising_twice_changes_nothing() {
    for raw in ["+49 (0) 8031 / 2626-0", "0049 89 22334455", "(0151) 555 01 00", "+49 30 12345678", "\u{a0}+49(0)1234/34421-10\u{2003}"] {
        let once = normalize_number(raw);
        assert!(!once.starts_with("00"));
        assert_eq!(normalize_number(&once), once);
    }
    // a normal form that begins with 00 is not stable: 00123 becomes +123
    assert_eq!(normalize_number("+49(0)0 123"), "00123");
    assert_eq!(normalize_number("00123"), "+123");
}

#[test]
fn white_space_of_every_kind_is_trimmed() {
    assert_eq!(normalize_number("\u{3000}\t0151 555\u{2028}"), "0151555");
}

#[test]
fn plus_only_at_the_start() {
    assert_eq!(extract_phone_number("+49 30 + 1234567"), Some("+4930".to_string()));
    assert_eq!(extract_phone_number("Fax 030 1234+5678"), Some("0301234".to_string()));
}
