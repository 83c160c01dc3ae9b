use fourdy_client::i18n::{current_lang, detect_language, get_strings_for, init, t, Locale};

const SUPPORTED_LANGS: &[&str] = &[
    "en", "de", "fr", "it", "es", "nl", "pt", "pl", "cs", "hu", "sk", "sl", "ro", "bg", "hr",
    "et", "lv", "lt", "fi", "sv", "no", "da", "el", "tr", "ru",
];

#[test]
fn unknown_language_falls_back_to_english() {
    let unknown = get_strings_for("xx");
    let english = get_strings_for("en");
    assert!(unknown == english);
}

#[test]
fn german_and_english_translations_differ() {
    let de = get_strings_for("de");
    let en = get_strings_for("en");
    assert_ne!(
        de.get("mailto.subject"),
        en.get("mailto.subject"),
        "DE and EN should provide distinct mailto.subject translations"
    );
}

#[test]
fn every_supported_language_has_core_keys() {
    let required = [
        "mailto.subject",
        "tray.show",
        "tray.quit",
        "setup.title",
        "setup.button",
    ];
    for lang in SUPPORTED_LANGS {
        let map = get_strings_for(lang);
        for key in &required {
            assert!(
                map.contains_key(key),
                "language `{}` is missing required key `{}`",
                lang,
                key
            );
        }
    }
}

#[test]
fn t_returns_question_marks_for_unknown_key() {
    assert_eq!(t(&Locale::new(), "definitely.not.a.real.key.zzz"), "???");
}

#[test]
fn t_returns_english_translation_when_strings_uninitialised() {
    let value = t(&Locale::new(), "tray.show");
    assert_ne!(value, "???");
}

#[test]
fn every_supported_code_selects_its_own_table() {
    for (i, a) in SUPPORTED_LANGS.iter().enumerate() {
        for (j, b) in SUPPORTED_LANGS.iter().enumerate() {
            assert_eq!(get_strings_for(a) == get_strings_for(b), i == j);
        }
    }
}

#[test]
fn language_detection_uses_primary_language() {
    assert_eq!(detect_language(Some(0x0407)), "de");
    assert_eq!(detect_language(Some(0x0807)), "de");
    assert_eq!(detect_language(Some(0x040C)), "fr");
    assert_eq!(detect_language(Some(0x0409)), "en");
    assert_eq!(detect_language(Some(0x0411)), "en");
    assert_eq!(detect_language(Some(0x0408)), "el");
    assert_eq!(detect_language(Some(0x041F)), "tr");
    assert_eq!(detect_language(Some(0x0419)), "ru");
    assert_eq!(detect_language(None), "en");
}

#[test]
fn turkish_and_russian_have_their_own_tables() {
    assert!(get_strings_for("tr") != get_strings_for("en"));
    assert!(get_strings_for("ru") != get_strings_for("en"));
    let mut tr = Locale::new();
    init(&mut tr, Some(0x041F));
    assert_eq!(current_lang(&tr), "tr");
    assert_eq!(t(&tr, "tray.quit"), "Çıkış");
    let mut ru = Locale::new();
    init(&mut ru, Some(0x0419));
    assert_eq!(current_lang(&ru), "ru");
    assert_eq!(t(&ru, "tray.quit"), "Выход");
}

#[test]
fn callback_button_and_restart_message_are_translated() {
    assert_eq!(t(&Locale::new(), "popup.send_mail"), "\u{2709}  Send callback mail");
    assert_eq!(
        t(&Locale::new(), "setup.restart_msg"),
        "Configuration saved successfully.\nPlease restart the application."
    );
    let mut de = Locale::new();
    init(&mut de, Some(0x0407));
    assert_eq!(t(&de, "popup.send_mail"), "\u{2709}  Rückruf-Mail senden");
    assert_eq!(
        t(&de, "setup.restart_msg"),
        "Konfiguration gespeichert.\nBitte starte die Anwendung neu."
    );
}

#[test]
fn init_sets_language_and_table_once() {
    let mut locale = Locale::new();
    assert_eq!(current_lang(&locale), "en");
    init(&mut locale, Some(0x0407));
    assert_eq!(current_lang(&locale), "de");
    assert_eq!(t(&locale, "tray.quit"), "Beenden");
    init(&mut locale, Some(0x040C));
    assert_eq!(current_lang(&locale), "de");
    assert_eq!(t(&locale, "tray.quit"), "Beenden");
}

#[test]
fn missing_translation_falls_back_to_english() {
    let mut locale = Locale::new();
    init(&mut locale, Some(0x040C));
    assert_eq!(t(&locale, "tray.show"), "Afficher");
    // the French table has no restart message, the English one has
    assert_eq!(t(&locale, "setup.restart_title"), "4dy Client");
    assert_eq!(t(&locale, "no.such.key"), "???");
}
