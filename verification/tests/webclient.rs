use fourdy_client::webclient::{
    caller_from_query, compact_placement, crm_navigation, dial_file_number, dial_number_script,
    dial_call_script, hotkey_reaction, open_and_dial_script, notification_plan, remember_after_move,
    remember_after_resize, selection_dial_script, webclient_url, CrmNavigation, HotkeyReaction,
    NotificationPlan, WorkArea, ANSWER_CALL_SCRIPT, DIAL_CLIPBOARD_SCRIPT, HANGUP_SCRIPT,
};

#[test]
fn dial_script_uses_cleaned_number() {
    assert_eq!(
        dial_number_script("+49 (0) 8031 / 2626-0"),
        "window.__4DY_DIAL && window.__4DY_DIAL('0803126260');"
    );
}

#[test]
fn dial_script_keeps_unrecognised_text() {
    assert_eq!(dial_number_script("**21#"), "window.__4DY_DIAL && window.__4DY_DIAL('**21#');");
}

#[test]
fn dial_call_script_embeds_number() {
    assert_eq!(dial_call_script("0301234"), "window.__4DY_DIAL && window.__4DY_DIAL('0301234');");
}

#[test]
fn selection_without_number_dials_nothing() {
    assert!(selection_dial_script("").is_none());
    assert!(selection_dial_script("Hallo Welt").is_none());
}

#[test]
fn selection_with_number_fills_dialer() {
    let (number, script) = selection_dial_script("Tel: +49 30 12345678 - Danke").unwrap();
    assert_eq!(number, "+493012345678");
    assert_eq!(script, open_and_dial_script("+493012345678"));
    assert!(script.starts_with("var isOpen = !!document.querySelector('.openContainer'); if (!isOpen) { var btn = document.getElementById('menuDialer'); if (btn) btn.click(); }"));
    assert!(script.ends_with("setTimeout(function() { window.__4DY_DIAL && window.__4DY_DIAL('+493012345678'); }, isOpen ? 50 : 400);"));
}

#[test]
fn dial_file_content_is_trimmed() {
    assert_eq!(dial_file_number("  +494012345678\r\n"), Some("+494012345678".to_string()));
    assert_eq!(dial_file_number(" \n"), None);
}

#[test]
fn hotkey_payloads_map_to_reactions() {
    assert_eq!(hotkey_reaction("\"dial_selection\""), HotkeyReaction::DialSelection);
    assert_eq!(hotkey_reaction("\"open_dialer\""), HotkeyReaction::OpenDialer);
    assert_eq!(hotkey_reaction("\"dial_clipboard\""), HotkeyReaction::RunScript(DIAL_CLIPBOARD_SCRIPT));
    assert_eq!(hotkey_reaction("answer_call"), HotkeyReaction::RunScript(ANSWER_CALL_SCRIPT));
    assert_eq!(hotkey_reaction("\"\"hangup\"\""), HotkeyReaction::RunScript(HANGUP_SCRIPT));
    assert_eq!(hotkey_reaction("\"reload\""), HotkeyReaction::Ignore);
    assert_eq!(hotkey_reaction(""), HotkeyReaction::Ignore);
}

#[test]
fn focused_window_skips_notification() {
    assert_eq!(notification_plan(true, false, true), NotificationPlan::Skip);
}

#[test]
fn hidden_or_minimised_window_becomes_compact() {
    assert_eq!(notification_plan(false, false, false), NotificationPlan::BringForward { compact: true });
    assert_eq!(notification_plan(false, true, true), NotificationPlan::BringForward { compact: true });
    assert_eq!(notification_plan(false, true, false), NotificationPlan::BringForward { compact: false });
}

#[test]
fn compact_dialer_sits_bottom_right() {
    let p = compact_placement(WorkArea { left: 0, top: 0, right: 1920, bottom: 1040 });
    assert_eq!((p.width, p.height, p.x, p.y), (760, 820, 1152, 20));
    let small = compact_placement(WorkArea { left: 0, top: 100, right: 1280, bottom: 700 });
    assert_eq!((small.width, small.height, small.x, small.y), (760, 590, 512, -90));
    let inverted = compact_placement(WorkArea { left: 0, top: 500, right: 800, bottom: 400 });
    assert_eq!(inverted.height, 820);
}

#[test]
fn window_state_is_remembered_only_when_normal() {
    assert!(remember_after_move(false));
    assert!(!remember_after_move(true));
    assert!(remember_after_resize(false, 781));
    assert!(!remember_after_resize(false, 780));
    assert!(!remember_after_resize(false, 760));
    assert!(!remember_after_resize(true, 1200));
}

#[test]
fn crm_call_is_reported_with_caller() {
    match crm_navigation("https://4dy-client.localhost/incoming?name=Erika%20Muster&number=%2B49301234") {
        CrmNavigation::IncomingCall { name, number } => {
            assert_eq!(name, "Erika Muster");
            assert_eq!(number, "+49301234");
        }
        _ => panic!("expected an incoming call"),
    }
}

#[test]
fn crm_call_without_name_is_unknown() {
    match crm_navigation("https://4dy-client.localhost/incoming?number=0301234") {
        CrmNavigation::IncomingCall { name, number } => {
            assert_eq!(name, "Unbekannt");
            assert_eq!(number, "0301234");
        }
        _ => panic!("expected an incoming call"),
    }
}

#[test]
fn other_navigation_passes_on() {
    assert!(matches!(crm_navigation("https://acme.3cx.de/#/people"), CrmNavigation::PassOn));
}

#[test]
fn unparsable_crm_address_is_swallowed() {
    assert!(matches!(crm_navigation("4dy-client.localhost/incoming?name=x"), CrmNavigation::Swallow));
}

#[test]
fn first_query_value_wins() {
    let pairs = vec![
        ("number".to_string(), "1".to_string()),
        ("name".to_string(), "A".to_string()),
        ("number".to_string(), "2".to_string()),
    ];
    assert_eq!(caller_from_query(&pairs), ("A".to_string(), "1".to_string()));
    assert_eq!(caller_from_query(&vec![]), ("Unbekannt".to_string(), String::new()));
}

#[test]
fn pbx_url_must_be_absolute() {
    let a = webclient_url("https://acme.3cx.de").unwrap();
    assert_eq!(a.text, "https://acme.3cx.de/");
    assert_eq!(a.url.as_str(), "https://acme.3cx.de/");
    let err = webclient_url("acme.3cx.de").unwrap_err();
    assert_eq!(err, "Ungültige PBX-URL: relative URL without a base");
    assert_eq!(webclient_url("not a url").unwrap_err(), "Ungültige PBX-URL: relative URL without a base");
}
