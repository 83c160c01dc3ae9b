//! The tray icon: its tooltip with the count of open items, its menu, and what
//! each menu entry does.
use vstd::prelude::*;
use crate::i18n::{t, translate, Locale, LocaleView};
use crate::text::{owned, str_eq, string_of};

verus! {

/// The character of a decimal digit below 10.
pub open spec fn digit_char(d: nat) -> char {
    seq!['0', '1', '2', '3', '4', '5', '6', '7', '8', '9'][d as int]
}

/// The decimal representation of `n`, without leading zeros, as `Display`
/// writes unsigned integers.
pub open spec fn decimal(n: nat) -> Seq<char>
    decreases n,
{
    if n < 10 {
        seq![digit_char(n)]
    } else {
        decimal(n / 10).push(digit_char(n % 10))
    }
}

/// The number that a string of decimal digits denotes.
pub open spec fn decimal_value(s: Seq<char>) -> int
    decreases s.len(),
{
    if s.len() == 0 {
        0
    } else {
        decimal_value(s.drop_last()) * 10 + (s.last() as int - 48)
    }
}

/// The decimal digits of `n`.
fn decimal_chars(n: u32) -> (r: Vec<char>)
    ensures
        r@ == decimal(n as nat),
    decreases n,
{
    let d = n % 10;
    let c = if d == 0 {
        '0'
    } else if d == 1 {
        '1'
    } else if d == 2 {
        '2'
    } else if d == 3 {
        '3'
    } else if d == 4 {
        '4'
    } else if d == 5 {
        '5'
    } else if d == 6 {
        '6'
    } else if d == 7 {
        '7'
    } else if d == 8 {
        '8'
    } else {
        '9'
    };
    assert(c == digit_char((n % 10) as nat));
    if n < 10 {
        let mut r: Vec<char> = Vec::new();
        r.push(c);
        assert(r@ =~= decimal(n as nat));
        r
    } else {
        let mut r = decimal_chars(n / 10);
        r.push(c);
        r
    }
}

/// The decimal form of `n`.
pub fn decimal_string(n: u32) -> (r: String)
    ensures
        r@ == decimal(n as nat),
{
    string_of(&decimal_chars(n))
}

/// A digit character denotes its digit.
proof fn lemma_digit_value(d: nat)
    requires
        d < 10,
    ensures
        digit_char(d) as int - 48 == d,
{
    let ds = seq!['0', '1', '2', '3', '4', '5', '6', '7', '8', '9'];
    assert(ds[d as int] as int == 48 + d) by {
        if d == 0 {
            assert(ds[0] == '0');
        } else if d == 1 {
            assert(ds[1] == '1');
        } else if d == 2 {
            assert(ds[2] == '2');
        } else if d == 3 {
            assert(ds[3] == '3');
        } else if d == 4 {
            assert(ds[4] == '4');
        } else if d == 5 {
            assert(ds[5] == '5');
        } else if d == 6 {
            assert(ds[6] == '6');
        } else if d == 7 {
            assert(ds[7] == '7');
        } else if d == 8 {
            assert(ds[8] == '8');
        } else {
            assert(ds[9] == '9');
        }
    }
}

/// Reading the decimal form of a number gives the number back, so the count in
/// the tooltip is the count of open items.
pub proof fn law_decimal_reads_back(n: nat)
    ensures
        decimal_value(decimal(n)) == n,
    decreases n,
{
    lemma_digit_value(n % 10);
    let s = decimal(n);
    if n < 10 {
        assert(s.drop_last() =~= Seq::<char>::empty());
        assert(decimal_value(s.drop_last()) == 0);
        assert(s.last() == digit_char(n % 10));
    } else {
        law_decimal_reads_back(n / 10);
        assert(s.drop_last() =~= decimal(n / 10));
        assert(s.last() == digit_char(n % 10));
        assert(decimal_value(s) == decimal_value(decimal(n / 10)) * 10 + (n % 10));
    }
}

/// The tray tooltip: `4dy Client (<count> offen)` while items are open,
/// `4dy Client` otherwise.
pub open spec fn tooltip_text(count: u32) -> Seq<char> {
    if count > 0 {
        "4dy Client ("@ + decimal(count as nat) + " offen)"@
    } else {
        "4dy Client"@
    }
}

/// The tray tooltip for `count` open items (see `tooltip_text`).
pub fn tray_tooltip(count: u32) -> (r: String)
    ensures
        r@ == tooltip_text(count),
{
    if count > 0 {
        let mut s = owned("4dy Client (");
        let digits = decimal_string(count);
        s.append(digits.as_str());
        s.append(" offen)");
        s
    } else {
        owned("4dy Client")
    }
}

/// The tooltip tells whether items are open and how many: it is the bare
/// `4dy Client` exactly when none are, and otherwise `4dy Client (`, a run of
/// decimal digits that reads back as the count, and ` offen)`.
pub proof fn law_tooltip_shows_open_count(count: u32)
    ensures
        tooltip_text(count) == "4dy Client"@ <==> count == 0,
        count > 0 ==> exists|d: Seq<char>|
            tooltip_text(count) == "4dy Client ("@ + d + " offen)"@ && #[trigger] decimal_value(d)
                == count,
{
    reveal_strlit("4dy Client");
    reveal_strlit("4dy Client (");
    reveal_strlit(" offen)");
    if count > 0 {
        let d = decimal(count as nat);
        law_decimal_reads_back(count as nat);
        assert(tooltip_text(count).len() > "4dy Client"@.len());
        assert(decimal_value(d) == count);
    }
}

/// One entry of the tray menu.
pub struct MenuEntry {
    pub id: &'static str,
    pub label: &'static str,
    pub enabled: bool,
}

/// The separator line's label.
pub const SEPARATOR_LABEL: &'static str = "\u{2500}\u{2500}\u{2500}\u{2500}\u{2500}\u{2500}\u{2500}\u{2500}\u{2500}";

/// The tray menu as (id, label, enabled) triples, top to bottom: show, reload
/// configuration, open configuration, register as `tel:` handler, developer
/// tools, a disabled separator, quit; labels in the current language.
pub open spec fn menu_of(v: LocaleView) -> Seq<(Seq<char>, Seq<char>, bool)> {
    seq![
        ("show"@, translate(v, "tray.show"@), true),
        ("reload_config"@, translate(v, "tray.reload_config"@), true),
        ("open_config"@, translate(v, "tray.open_config"@), true),
        ("register_tel"@, translate(v, "tray.register_tel"@), true),
        ("devtools"@, translate(v, "tray.devtools"@), true),
        ("sep"@, SEPARATOR_LABEL@, false),
        ("quit"@, translate(v, "tray.quit"@), true),
    ]
}

/// The view of menu entries as (id, label, enabled) triples.
pub open spec fn menu_view(m: Seq<MenuEntry>) -> Seq<(Seq<char>, Seq<char>, bool)> {
    m.map_values(|e: MenuEntry| (e.id@, e.label@, e.enabled))
}

/// The tray menu (see `menu_of`).
pub fn tray_menu(locale: &Locale) -> (r: Vec<MenuEntry>)
    ensures
        menu_view(r@) == menu_of(locale@),
{
    let mut r: Vec<MenuEntry> = Vec::new();
    r.push(MenuEntry { id: "show", label: t(locale, "tray.show"), enabled: true });
    r.push(MenuEntry { id: "reload_config", label: t(locale, "tray.reload_config"), enabled: true });
    r.push(MenuEntry { id: "open_config", label: t(locale, "tray.open_config"), enabled: true });
    r.push(MenuEntry { id: "register_tel", label: t(locale, "tray.register_tel"), enabled: true });
    r.push(MenuEntry { id: "devtools", label: t(locale, "tray.devtools"), enabled: true });
    r.push(MenuEntry { id: "sep", label: SEPARATOR_LABEL, enabled: false });
    r.push(MenuEntry { id: "quit", label: t(locale, "tray.quit"), enabled: true });
    assert(menu_view(r@) =~= menu_of(locale@));
    r
}

/// What choosing a tray menu entry does.
#[derive(Clone, Copy, PartialEq, Eq, Debug, Structural)]
pub enum TrayAction {
    /// Bring the web-client (or setup) window forward.
    Show,
    /// Load the configuration again and announce it.
    ReloadConfig,
    /// Open the configuration file in the associated editor.
    OpenConfig,
    /// Register the `tel:` link handler.
    RegisterTel,
    /// Toggle the developer tools.
    DevTools,
    /// Quit the application.
    Quit,
    /// Any other entry: nothing.
    Nothing,
}

/// The action of the menu entry with id `id`.
pub open spec fn action_of(id: Seq<char>) -> TrayAction {
    if id == "show"@ {
        TrayAction::Show
    } else if id == "reload_config"@ {
        TrayAction::ReloadConfig
    } else if id == "open_config"@ {
        TrayAction::OpenConfig
    } else if id == "register_tel"@ {
        TrayAction::RegisterTel
    } else if id == "devtools"@ {
        TrayAction::DevTools
    } else if id == "quit"@ {
        TrayAction::Quit
    } else {
        TrayAction::Nothing
    }
}

/// The action of a chosen menu entry (see `action_of`).
pub fn tray_action(id: &str) -> (r: TrayAction)
    ensures
        r == action_of(id@),
{
    if str_eq(id, "show") {
        TrayAction::Show
    } else if str_eq(id, "reload_config") {
        TrayAction::ReloadConfig
    } else if str_eq(id, "open_config") {
        TrayAction::OpenConfig
    } else if str_eq(id, "register_tel") {
        TrayAction::RegisterTel
    } else if str_eq(id, "devtools") {
        TrayAction::DevTools
    } else if str_eq(id, "quit") {
        TrayAction::Quit
    } else {
        TrayAction::Nothing
    }
}

/// Every enabled entry of the tray menu does something, and the separator does
/// nothing.
pub proof fn law_enabled_entries_act(v: LocaleView, i: int)
    requires
        0 <= i < 7,
    ensures
        menu_of(v)[i].2 ==> action_of(menu_of(v)[i].0) != TrayAction::Nothing,
        !menu_of(v)[i].2 ==> action_of(menu_of(v)[i].0) == TrayAction::Nothing,
{
    reveal_strlit("show");
    reveal_strlit("reload_config");
    reveal_strlit("open_config");
    reveal_strlit("register_tel");
    reveal_strlit("devtools");
    reveal_strlit("sep");
    reveal_strlit("quit");
    assert("sep"@.len() == 3);
    assert(action_of("sep"@) == TrayAction::Nothing);
}

} // verus!
