use fourdy_client::config::{
    default_answer_call, default_dial_clipboard, default_dial_selection, default_hangup,
    default_height, default_open_dialer, default_true, default_width, initial_config,
    load_config_from, write_error, AppConfig, ConfigSource, HotkeyConfig, MailtoConfig,
    WindowConfig, WindowState, WriteStep,
};
use fourdy_client::i18n::{get_strings_for, init, Locale};

#[test]
fn hotkey_defaults_match_documented_values() {
    let h = HotkeyConfig::default();
    assert_eq!(h.dial_clipboard, "Ctrl+F10");
    assert_eq!(h.dial_selection, "Ctrl+F11");
    assert_eq!(h.answer_call, "Ctrl+F9");
    assert_eq!(h.hangup, "Ctrl+F12");
    assert_eq!(h.open_dialer, "Ctrl+Num0");
}

#[test]
fn window_defaults_are_800x600_remembered() {
    let w = WindowConfig::default();
    assert_eq!(w.width, 800);
    assert_eq!(w.height, 600);
    assert!(w.remember_position);
    assert!(!w.start_minimized);
}

#[test]
fn single_default_functions_agree_with_defaults() {
    assert_eq!(default_dial_clipboard(), "Ctrl+F10");
    assert_eq!(default_dial_selection(), "Ctrl+F11");
    assert_eq!(default_answer_call(), "Ctrl+F9");
    assert_eq!(default_hangup(), "Ctrl+F12");
    assert_eq!(default_open_dialer(), "Ctrl+Num0");
    assert_eq!(default_width(), 800);
    assert_eq!(default_height(), 600);
    assert!(default_true());
}

fn sample_config(pbx_url: &str) -> AppConfig {
    AppConfig {
        pbx_url: pbx_url.to_string(),
        mailto: MailtoConfig::default_for(&Locale::new()),
        hotkeys: HotkeyConfig::default(),
        window: WindowConfig::default(),
        user: None,
    }
}

#[test]
fn missing_config_file_is_reported() {
    let err = load_config_from(ConfigSource::Missing).unwrap_err();
    assert_eq!(err, "Config-Datei nicht gefunden");
}

#[test]
fn unreadable_config_file_is_reported_with_reason() {
    let err = load_config_from(ConfigSource::Unreadable("Zugriff verweigert".into())).unwrap_err();
    assert_eq!(err, "Fehler beim Lesen der Config: Zugriff verweigert");
}

#[test]
fn unparsable_config_file_is_reported_with_reason() {
    let err = load_config_from(ConfigSource::Unparsable("missing field `pbx_url`".into())).unwrap_err();
    assert_eq!(err, "Fehler beim Parsen der Config: missing field `pbx_url`");
}

#[test]
fn empty_pbx_url_is_rejected() {
    let err = load_config_from(ConfigSource::Parsed(sample_config(""))).unwrap_err();
    assert_eq!(err, "pbx_url darf nicht leer sein");
}

#[test]
fn parsed_config_is_accepted_unchanged() {
    let cfg = load_config_from(ConfigSource::Parsed(sample_config("https://acme.3cx.de"))).unwrap();
    assert_eq!(cfg.pbx_url, "https://acme.3cx.de");
    assert_eq!(cfg.hotkeys.open_dialer, "Ctrl+Num0");
}

#[test]
fn initial_config_fills_in_all_defaults() {
    let mut locale = Locale::new();
    init(&mut locale, Some(0x0407));
    let cfg = initial_config("https://example.3cx.de", &locale);
    assert_eq!(cfg.pbx_url, "https://example.3cx.de");
    assert_eq!(cfg.mailto.subject_template, "Bitte zurückrufen: {name} {number}");
    assert_eq!(cfg.mailto.default_recipient, "");
    assert_eq!(cfg.hotkeys.dial_clipboard, "Ctrl+F10");
    assert_eq!(cfg.window.width, 800);
    assert_eq!(cfg.window.height, 600);
    assert!(cfg.window.remember_position);
    assert!(!cfg.window.start_minimized);
    assert!(cfg.user.is_none());
}

#[test]
fn initial_config_loads_back_unchanged() {
    let cfg = initial_config("https://example.3cx.de", &Locale::new());
    let loaded = load_config_from(ConfigSource::Parsed(cfg)).unwrap();
    assert_eq!(loaded.pbx_url, "https://example.3cx.de");
    assert_eq!(loaded.mailto.subject_template, "Please call back: {name} {number}");
    assert_eq!(loaded.hotkeys.answer_call, "Ctrl+F9");
    assert_eq!(loaded.window.width, 800);
    assert!(loaded.user.is_none());
}

#[test]
fn default_mail_subject_follows_language() {
    let en = MailtoConfig::default_for(&Locale::new());
    assert_eq!(en.subject_template, "Please call back: {name} {number}");
    assert_eq!(en.subject_template, get_strings_for("en").get("mailto.subject").unwrap());
}

#[test]
fn write_errors_carry_their_step() {
    assert_eq!(
        write_error(WriteStep::CreateConfigDir, "x"),
        "Fehler beim Erstellen des Config-Verzeichnisses: x"
    );
    assert_eq!(write_error(WriteStep::SerializeConfig, "x"), "Fehler beim Serialisieren: x");
    assert_eq!(write_error(WriteStep::WriteConfig, "x"), "Fehler beim Schreiben der Config: x");
    assert_eq!(write_error(WriteStep::SerializeWindowState, "x"), "Serialisierungsfehler: x");
    assert_eq!(write_error(WriteStep::WriteWindowState, "x"), "Schreibfehler: x");
}

#[test]
fn window_state_holds_its_fields() {
    let state = WindowState { x: 100, y: 200, width: 1280, height: 720, maximized: false };
    let copy = state.clone();
    assert_eq!(copy.x, 100);
    assert_eq!(copy.y, 200);
    assert_eq!(copy.width, 1280);
    assert_eq!(copy.height, 720);
    assert!(!copy.maximized);
}
