use fourdy_client::hotkeys::{hotkey_bindings, hotkey_error};
use fourdy_client::config::HotkeyConfig;
use fourdy_client::i18n::{init, Locale};
use fourdy_client::inject::{get_csp_override, get_injection_script, get_notification_polyfill};
use fourdy_client::registry::{default_apps_settings_args, tel_handler_registration};
use fourdy_client::tray::{decimal_string, tray_action, tray_menu, tray_tooltip, TrayAction};
use fourdy_client::wide::to_wide;

#[test]
fn tooltip_counts_open_items() {
    assert_eq!(tray_tooltip(0), "4dy Client");
    assert_eq!(tray_tooltip(3), "4dy Client (3 offen)");
    assert_eq!(tray_tooltip(120), "4dy Client (120 offen)");
}

#[test]
fn decimal_form_matches_display() {
    for n in [0u32, 7, 10, 99, 100, 4294967295] {
        assert_eq!(decimal_string(n), n.to_string());
    }
}

#[test]
fn tray_menu_lists_entries_in_order() {
    let menu = tray_menu(&Locale::new());
    let ids: Vec<&str> = menu.iter().map(|e| e.id).collect();
    assert_eq!(ids, ["show", "reload_config", "open_config", "register_tel", "devtools", "sep", "quit"]);
    assert_eq!(menu[0].label, "Show");
    assert_eq!(menu[6].label, "Quit");
    assert!(!menu[5].enabled);
    assert!(menu.iter().filter(|e| e.enabled).all(|e| tray_action(e.id) != TrayAction::Nothing));
}

#[test]
fn tray_menu_is_translated() {
    let mut locale = Locale::new();
    init(&mut locale, Some(0x0407));
    let menu = tray_menu(&locale);
    assert_eq!(menu[0].label, "Anzeigen");
    assert_eq!(menu[6].label, "Beenden");
}

#[test]
fn tray_actions_follow_ids() {
    assert_eq!(tray_action("show"), TrayAction::Show);
    assert_eq!(tray_action("reload_config"), TrayAction::ReloadConfig);
    assert_eq!(tray_action("open_config"), TrayAction::OpenConfig);
    assert_eq!(tray_action("register_tel"), TrayAction::RegisterTel);
    assert_eq!(tray_action("devtools"), TrayAction::DevTools);
    assert_eq!(tray_action("quit"), TrayAction::Quit);
    assert_eq!(tray_action("sep"), TrayAction::Nothing);
}

#[test]
fn hotkeys_are_bound_in_order() {
    let b = hotkey_bindings(&HotkeyConfig::default());
    let pairs: Vec<(&str, &str)> = b.iter().map(|x| (x.shortcut.as_str(), x.action)).collect();
    assert_eq!(
        pairs,
        [
            ("Ctrl+F10", "dial_clipboard"),
            ("Ctrl+F11", "dial_selection"),
            ("Ctrl+F9", "answer_call"),
            ("Ctrl+F12", "hangup"),
            ("Ctrl+Num0", "open_dialer"),
        ]
    );
    assert_eq!(hotkey_error("Ctrl+F1", "taken"), "Hotkey 'Ctrl+F1': taken");
}

#[test]
fn static_scripts_are_handed_out_whole() {
    let csp = get_csp_override();
    assert_eq!(csp, get_csp_override());
    assert!(csp.trim().starts_with("(function() {"));
    assert!(csp.trim().ends_with("})();"));
    assert!(csp.contains("document.querySelectorAll('meta[http-equiv=\"Content-Security-Policy\"]')"));
    assert!(csp.contains("el.remove();"));
    assert!(csp.contains("setTimeout(function() { observer.disconnect(); }, 5000);"));
    assert!(csp.contains("console.log('[4dy] CSP-Override aktiv');"));
    let poly = get_notification_polyfill();
    assert_eq!(poly, get_notification_polyfill());
    assert!(poly.starts_with("\n// Notification-Polyfill"));
    assert!(poly.trim_end().ends_with("})();"));
    assert!(poly.contains("window.Notification = TauriNotification;"));
    assert!(poly.contains("get: function() { return 'granted'; }"));
    assert!(poly.contains("Promise.resolve('granted')"));
}

#[test]
fn injection_script_carries_translated_labels() {
    let mut locale = Locale::new();
    let script = get_injection_script(&mut locale, Some(0x0407));
    assert!(script.contains("Mehrere auswählen"));
    assert!(script.contains("'Möchtest du {count} Einträge löschen?'.replace('{count}', checked.length)"));
    assert!(script.contains("window.__4DY_CLIENT_INJECTED = true;"));
    assert!(!script.contains("{i18n_"));
    let english = get_injection_script(&mut Locale::new(), None);
    assert!(english.contains("Select multiple"));
}

#[test]
fn registration_writes_both_program_id_and_tel_keys() {
    let calls = tel_handler_registration("C:\\Apps\\tel-handler.exe");
    assert_eq!(calls.len(), 10);
    assert_eq!(calls[0], ["add", "HKCU\\Software\\Classes\\4dyClient.tel", "/ve", "/d", "URL:Tel Protocol", "/f"]);
    assert_eq!(calls[1], ["add", "HKCU\\Software\\Classes\\4dyClient.tel", "/v", "URL Protocol", "/d", "", "/f"]);
    assert_eq!(
        calls[2],
        ["add", "HKCU\\Software\\Classes\\4dyClient.tel\\shell\\open\\command", "/ve", "/d", "\"C:\\Apps\\tel-handler.exe\" \"%1\"", "/f"]
    );
    assert_eq!(calls[9][4], "\"C:\\Apps\\tel-handler.exe\" \"%1\"");
    assert_eq!(default_apps_settings_args(), ["/C", "start", "ms-settings:defaultapps"]);
}

#[test]
fn wide_strings_match_encode_utf16() {
    for s in ["", "4dy Client", "Bitte zurückrufen", "\u{2709} mail", "emoji \u{1F4DE}"] {
        let expected: Vec<u16> = s.encode_utf16().chain(std::iter::once(0)).collect();
        assert_eq!(to_wide(s), expected);
    }
}
