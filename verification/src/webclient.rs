//! Decisions of the web-client window: the scripts it runs for dialling and
//! hotkeys, how it reacts to an incoming-call notification, where the compact
//! dialer goes, when the window state is remembered, and how a call reported
//! by a CRM system through a new-window request is recognised.
use vstd::prelude::*;
use crate::clipboard::{extract_phone_number, extracted_number};
use crate::text::{chars_of, concat, contains, has_infix, owned, spells, string_of, str_eq, trim, trim_chars};

verus! {

/// Opens the dialer if it is closed.
pub const ENSURE_DIALER_OPEN_SCRIPT: &'static str =
    "if (!document.querySelector('.openContainer')) { var btn = document.getElementById('menuDialer'); if (btn) btn.click(); }";

/// Brings the dialer up and puts the focus into its number field.
pub const OPEN_DIALER_SCRIPT: &'static str =
    "var isOpen = !!document.querySelector('.openContainer'); if (!isOpen) { var btn = document.getElementById('menuDialer'); if (btn) btn.click(); } setTimeout(function() { var input = document.getElementById('dialpad-input'); if (input) { input.focus(); input.select(); } }, isOpen ? 50 : 300);";

/// Dials the clipboard text from within the page, reduced to digits and `+`,
/// when it has at least three characters left.
pub const DIAL_CLIPBOARD_SCRIPT: &'static str =
    r"navigator.clipboard.readText().then(text => { if (text && window.__4DY_DIAL) { const cleaned = text.replace(/[^\d+]/g, ''); if (cleaned.length >= 3) window.__4DY_DIAL(cleaned); } }).catch(() => console.warn('[4dy] Clipboard nicht lesbar'));";

/// Answers the ringing call.
pub const ANSWER_CALL_SCRIPT: &'static str = "window.__4DY_ANSWER && window.__4DY_ANSWER();";

/// Ends the current call.
pub const HANGUP_SCRIPT: &'static str = "window.__4DY_HANGUP && window.__4DY_HANGUP();";

/// The part of the dial script before the number.
pub const DIAL_HEAD: &'static str = "window.__4DY_DIAL && window.__4DY_DIAL('";

/// The part of the dial script after the number.
pub const DIAL_TAIL: &'static str = "');";

/// The script that has the web client call `number` as it stands.
pub open spec fn dial_call(number: Seq<char>) -> Seq<char> {
    DIAL_HEAD@ + number + DIAL_TAIL@
}

/// Has the web client call `number` as it stands.
pub fn dial_call_script(number: &str) -> (r: String)
    ensures
        r@ == dial_call(number@),
{
    let mut s = concat(DIAL_HEAD, number);
    s.append(DIAL_TAIL);
    s
}

/// The part of the open-and-dial script before the number: opens the dialer if
/// it is closed and, once it is up (after 50 ms when it was open, 400 ms when
/// it had to be opened), hands the number to the web client's dial function.
pub const OPEN_AND_DIAL_HEAD: &'static str =
    "var isOpen = !!document.querySelector('.openContainer'); if (!isOpen) { var btn = document.getElementById('menuDialer'); if (btn) btn.click(); } setTimeout(function() { window.__4DY_DIAL && window.__4DY_DIAL('";

/// The part of the open-and-dial script after the number.
pub const OPEN_AND_DIAL_TAIL: &'static str = "'); }, isOpen ? 50 : 400);";

/// The script that opens the dialer if needed and then calls `number`.
pub open spec fn open_and_dial(number: Seq<char>) -> Seq<char> {
    OPEN_AND_DIAL_HEAD@ + number + OPEN_AND_DIAL_TAIL@
}

/// Opens the dialer if needed and then calls `number`.
pub fn open_and_dial_script(number: &str) -> (r: String)
    ensures
        r@ == open_and_dial(number@),
{
    let mut s = concat(OPEN_AND_DIAL_HEAD, number);
    s.append(OPEN_AND_DIAL_TAIL);
    s
}

/// The script that dials `number`: the number as `extract_phone_number` cleans
/// it, or unchanged when no number can be extracted.
pub open spec fn dial_script(number: Seq<char>) -> Seq<char> {
    let cleaned = match extracted_number(number) {
        Some(n) => n,
        None => number,
    };
    dial_call(cleaned)
}

/// The script that dials `number` (see `dial_script`).
pub fn dial_number_script(number: &str) -> (r: String)
    ensures
        r@ == dial_script(number@),
{
    let cleaned = match extract_phone_number(number) {
        Some(n) => n,
        None => owned(number),
    };
    dial_call_script(cleaned.as_str())
}

/// What dialling the selected text does with the copied text: nothing when it
/// is empty or holds no number, otherwise the script that opens the dialer and
/// calls the extracted number.
pub open spec fn selection_dial(copied: Seq<char>) -> Option<(Seq<char>, Seq<char>)> {
    if copied.len() == 0 {
        None
    } else {
        match extracted_number(copied) {
            Some(n) => Some((n, open_and_dial(n))),
            None => None,
        }
    }
}

/// The number found in the copied selection and the script that dials it.
pub fn selection_dial_script(copied: &str) -> (r: Option<(String, String)>)
    ensures
        match r {
            Some(p) => selection_dial(copied@) == Some((p.0@, p.1@)),
            None => selection_dial(copied@) is None,
        },
{
    if copied.is_empty() {
        return None;
    }
    match extract_phone_number(copied) {
        Some(n) => {
            let script = open_and_dial_script(n.as_str());
            Some((n, script))
        },
        None => None,
    }
}

/// The number asked for by the content of the dial file: the trimmed content,
/// or `None` when that is empty.
pub fn dial_file_number(content: &str) -> (r: Option<String>)
    ensures
        match r {
            Some(n) => trim(content@).len() > 0 && n@ == trim(content@),
            None => trim(content@).len() == 0,
        },
{
    let chars = chars_of(content);
    let t = trim_chars(&chars);
    if t.len() == 0 {
        None
    } else {
        Some(string_of(&t))
    }
}

/// `s` without leading double quotes.
pub open spec fn trim_quotes_start(s: Seq<char>) -> Seq<char>
    decreases s.len(),
{
    if s.len() > 0 && s[0] == '"' {
        trim_quotes_start(s.drop_first())
    } else {
        s
    }
}

/// `s` without trailing double quotes.
pub open spec fn trim_quotes_end(s: Seq<char>) -> Seq<char>
    decreases s.len(),
{
    if s.len() > 0 && s.last() == '"' {
        trim_quotes_end(s.drop_last())
    } else {
        s
    }
}

/// `s` without leading and trailing double quotes, as `str::trim_matches('"')`
/// gives it.
pub open spec fn trim_quotes(s: Seq<char>) -> Seq<char> {
    trim_quotes_end(trim_quotes_start(s))
}

/// `s` without leading and trailing double quotes.
fn strip_quotes(s: &str) -> (r: Vec<char>)
    ensures
        r@ == trim_quotes(s@),
{
    let v = chars_of(s);
    let n = v.len();
    let mut i: usize = 0;
    assert(v@.subrange(0, n as int) =~= v@);
    while i < n && v[i] == '"'
        invariant
            v@ == s@,
            n == v@.len(),
            i <= n,
            trim_quotes_start(v@) == trim_quotes_start(v@.subrange(i as int, n as int)),
        decreases n - i,
    {
        assert(v@.subrange(i as int, n as int).drop_first() =~= v@.subrange(i + 1, n as int));
        i = i + 1;
    }
    let mut j: usize = n;
    while j > i && v[j - 1] == '"'
        invariant
            v@ == s@,
            n == v@.len(),
            i <= j <= n,
            trim_quotes(v@) == trim_quotes_end(v@.subrange(i as int, j as int)),
        decreases j,
    {
        assert(v@.subrange(i as int, j as int).drop_last() =~= v@.subrange(i as int, j - 1));
        j = j - 1;
    }
    let mut r: Vec<char> = Vec::new();
    let mut k: usize = i;
    while k < j
        invariant
            n == v@.len(),
            i <= k <= j <= n,
            r@ == v@.subrange(i as int, k as int),
        decreases j - k,
    {
        r.push(v[k]);
        k = k + 1;
        assert(r@ =~= v@.subrange(i as int, k as int));
    }
    r
}

/// How the web-client window reacts to a hotkey event.
#[derive(PartialEq, Eq, Debug)]
pub enum HotkeyReaction {
    /// Copy the selection, then dial the number found in it.
    DialSelection,
    /// Bring the window up and focus the dialer.
    OpenDialer,
    /// Run the script in the page.
    RunScript(&'static str),
    /// Not a known action.
    Ignore,
}

/// The reaction to the hotkey event whose payload (the action name, possibly in
/// JSON quotes) is `payload`.
pub open spec fn hotkey_reaction_for(payload: Seq<char>) -> HotkeyReaction {
    let action = trim_quotes(payload);
    if action == "dial_selection"@ {
        HotkeyReaction::DialSelection
    } else if action == "open_dialer"@ {
        HotkeyReaction::OpenDialer
    } else if action == "dial_clipboard"@ {
        HotkeyReaction::RunScript(DIAL_CLIPBOARD_SCRIPT)
    } else if action == "answer_call"@ {
        HotkeyReaction::RunScript(ANSWER_CALL_SCRIPT)
    } else if action == "hangup"@ {
        HotkeyReaction::RunScript(HANGUP_SCRIPT)
    } else {
        HotkeyReaction::Ignore
    }
}

/// The reaction to a hotkey event (see `hotkey_reaction_for`).
pub fn hotkey_reaction(payload: &str) -> (r: HotkeyReaction)
    ensures
        r == hotkey_reaction_for(payload@),
{
    let action = strip_quotes(payload);
    if spells(&action, "dial_selection") {
        HotkeyReaction::DialSelection
    } else if spells(&action, "open_dialer") {
        HotkeyReaction::OpenDialer
    } else if spells(&action, "dial_clipboard") {
        HotkeyReaction::RunScript(DIAL_CLIPBOARD_SCRIPT)
    } else if spells(&action, "answer_call") {
        HotkeyReaction::RunScript(ANSWER_CALL_SCRIPT)
    } else if spells(&action, "hangup") {
        HotkeyReaction::RunScript(HANGUP_SCRIPT)
    } else {
        HotkeyReaction::Ignore
    }
}

/// What the window does when the page asks for a notification.
#[derive(Clone, Copy, PartialEq, Eq, Debug, Structural)]
pub enum NotificationPlan {
    /// The window has the focus: nothing to do.
    Skip,
    /// Show and restore the window; when it was hidden or minimised, also shrink
    /// it to the compact dialer in the bottom right corner and open the dialer.
    BringForward { compact: bool },
}

/// The reaction to a notification request given the window's state.
pub fn notification_plan(focused: bool, visible: bool, minimized: bool) -> (p: NotificationPlan)
    ensures
        p == if focused {
            NotificationPlan::Skip
        } else {
            NotificationPlan::BringForward { compact: !visible || minimized }
        },
{
    if focused {
        NotificationPlan::Skip
    } else {
        NotificationPlan::BringForward { compact: !visible || minimized }
    }
}

/// The desktop work area (the screen without the task bar).
#[derive(Clone, Copy, PartialEq, Eq, Debug, Structural)]
pub struct WorkArea {
    pub left: i32,
    pub top: i32,
    pub right: i32,
    pub bottom: i32,
}

/// Size and position of the compact dialer window.
#[derive(Clone, Copy, PartialEq, Eq, Debug, Structural)]
pub struct CompactPlacement {
    pub width: u32,
    pub height: u32,
    pub x: i32,
    pub y: i32,
}

/// Width of the compact dialer.
pub const COMPACT_WIDTH: u32 = 760;

/// The compact dialer's height: the work-area height less 10, at most 820 (a
/// negative remainder, read as unsigned, is also capped to 820).
pub open spec fn compact_height(area: WorkArea) -> int {
    let h = area.bottom - area.top - 10;
    if 0 <= h <= 820 {
        h
    } else {
        820
    }
}

/// Where the compact dialer goes: 760 pixels wide, `compact_height` high, 8
/// pixels from the right edge of the work area and 200 above its bottom.
pub fn compact_placement(area: WorkArea) -> (p: CompactPlacement)
    requires
        i32::MIN <= area.bottom - area.top <= i32::MAX,
        i32::MIN <= area.bottom - area.top - 10,
        area.right - COMPACT_WIDTH - 8 >= i32::MIN,
        area.bottom - compact_height(area) - 200 >= i32::MIN,
    ensures
        p.width == COMPACT_WIDTH,
        p.height == compact_height(area),
        p.x == area.right - COMPACT_WIDTH - 8,
        p.y == area.bottom - compact_height(area) - 200,
{
    let h = area.bottom - area.top - 10;
    let height: u32 = if 0 <= h && h <= 820 {
        h as u32
    } else {
        820
    };
    let x = area.right - COMPACT_WIDTH as i32 - 8;
    let y = area.bottom - height as i32 - 200;
    CompactPlacement { width: COMPACT_WIDTH, height, x, y }
}

/// Whether a move of the window is remembered: only when it is not maximised.
pub fn remember_after_move(maximized: bool) -> (r: bool)
    ensures
        r == !maximized,
{
    !maximized
}

/// Whether a resize to `width` is remembered: only when the window is not
/// maximised and wider than 780 pixels.
pub open spec fn remembers_resize(maximized: bool, width: u32) -> bool {
    !maximized && width > 780
}

/// Whether a resize of the window is remembered (see `remembers_resize`).
pub fn remember_after_resize(maximized: bool, width: u32) -> (r: bool)
    ensures
        r == remembers_resize(maximized, width),
{
    !maximized && width > 780
}

/// The compact dialer is never remembered as the window size, so restoring the
/// remembered state never reopens the window in its compact form.
pub proof fn law_compact_size_never_remembered(maximized: bool)
    ensures
        !remembers_resize(maximized, COMPACT_WIDTH),
{
}

#[verifier::external_type_specification]
#[verifier::external_body]
pub struct ExUrl(url::Url);

/// Whether `url::Url::parse` accepts `input` as an absolute URL.
pub uninterp spec fn url_accepts(input: Seq<char>) -> bool;

/// The decoded key/value pairs, in order, that `url::Url::query_pairs` yields
/// for the URL parsed from `input`.
pub uninterp spec fn url_query_pairs(input: Seq<char>) -> Seq<(Seq<char>, Seq<char>)>;

/// The text of the URL parsed from `input`, as `url::Url::as_str` gives it
/// (the normalised serialisation, such as `https://host/` for `https://host`).
pub uninterp spec fn url_serialization(input: Seq<char>) -> Seq<char>;

/// The message of the error that `url::Url::parse` reports for `input`, as the
/// error's `Display` implementation writes it.
pub uninterp spec fn url_parse_error_text(input: Seq<char>) -> Seq<char>;

/// Key/value pairs as plain character sequences.
pub open spec fn pairs_view(pairs: Seq<(String, String)>) -> Seq<(Seq<char>, Seq<char>)> {
    pairs.map_values(|p: (String, String)| (p.0@, p.1@))
}

/// A parsed URL together with its text and the pairs of its query.
#[derive(Debug)]
pub struct ParsedUrl {
    pub url: url::Url,
    pub text: String,
    pub query: Vec<(String, String)>,
}

/// Calls `url::Url::parse`; on success also `url::Url::as_str` and
/// `url::Url::query_pairs` on the result (the pairs collected as owned strings
/// in order), on failure the `Display` implementation of the error. The URL is
/// opaque to the contract, so these calls share this item: what they give can
/// then be named by the text that was parsed. The contract claims that parsing
/// succeeds exactly when `url_accepts` holds of the input, that the text is
/// `url_serialization` of the input, the pairs `url_query_pairs` of the input,
/// and the error message `url_parse_error_text` of the input; none of them is
/// spelled out.
#[verifier::external_body]
fn parse_url(input: &str) -> (r: Result<ParsedUrl, String>)
    ensures
        r is Ok <==> url_accepts(input@),
        r matches Ok(p) ==> p.text@ == url_serialization(input@),
        r matches Ok(p) ==> pairs_view(p.query@) == url_query_pairs(input@),
        r matches Err(t) ==> t@ == url_parse_error_text(input@),
{
    match url::Url::parse(input) {
        Err(e) => Err(e.to_string()),
        Ok(url) => {
            let text = url.as_str().to_string();
            let query = url.query_pairs().map(|(k, v)| (k.into_owned(), v.into_owned())).collect();
            Ok(ParsedUrl { url, text, query })
        },
    }
}

/// Prefix of the message for a PBX URL that does not parse.
pub const INVALID_PBX_URL: &'static str = "Ung\u{fc}ltige PBX-URL: ";

/// The web-client address: the configured PBX URL parsed as an absolute URL
/// (its text is the URL's serialisation), or, when it does not parse, the
/// message `INVALID_PBX_URL` followed by the parser's error message.
pub fn webclient_url(pbx_url: &str) -> (r: Result<ParsedUrl, String>)
    ensures
        r is Ok <==> url_accepts(pbx_url@),
        r matches Ok(a) ==> a.text@ == url_serialization(pbx_url@),
        r matches Err(e) ==> e@ == INVALID_PBX_URL@ + url_parse_error_text(pbx_url@),
{
    match parse_url(pbx_url) {
        Ok(p) => Ok(p),
        Err(detail) => Err(concat(INVALID_PBX_URL, detail.as_str())),
    }
}

/// The part of an address that marks a call reported by a CRM system.
pub const CRM_INCOMING_MARKER: &'static str = "4dy-client.localhost/incoming";

/// The value of the first pair whose key is `key`.
pub open spec fn first_value(pairs: Seq<(Seq<char>, Seq<char>)>, key: Seq<char>) -> Option<
    Seq<char>,
>
    decreases pairs.len(),
{
    if pairs.len() == 0 {
        None
    } else if pairs[0].0 == key {
        Some(pairs[0].1)
    } else {
        first_value(pairs.skip(1), key)
    }
}

/// The caller's name in query pairs: the first `name` value, `Unbekannt`
/// when there is none.
pub open spec fn caller_name(pairs: Seq<(Seq<char>, Seq<char>)>) -> Seq<char> {
    match first_value(pairs, "name"@) {
        Some(v) => v,
        None => "Unbekannt"@,
    }
}

/// The caller's number in query pairs: the first `number` value, empty when
/// there is none.
pub open spec fn caller_number(pairs: Seq<(Seq<char>, Seq<char>)>) -> Seq<char> {
    match first_value(pairs, "number"@) {
        Some(v) => v,
        None => Seq::empty(),
    }
}

/// The value of the first pair whose key is `key`.
fn find_value(pairs: &Vec<(String, String)>, key: &str) -> (r: Option<String>)
    ensures
        match r {
            Some(v) => first_value(pairs_view(pairs@), key@) == Some(v@),
            None => first_value(pairs_view(pairs@), key@) is None,
        },
{
    let ghost all = pairs_view(pairs@);
    let mut i: usize = 0;
    assert(all.skip(0) =~= all);
    while i < pairs.len()
        invariant
            all == pairs_view(pairs@),
            i <= pairs.len(),
            first_value(all, key@) == first_value(all.skip(i as int), key@),
        decreases pairs.len() - i,
    {
        assert(all.skip(i as int)[0] == (pairs@[i as int].0@, pairs@[i as int].1@));
        if str_eq(pairs[i].0.as_str(), key) {
            return Some(pairs[i].1.clone());
        }
        assert(all.skip(i as int).skip(1) =~= all.skip(i + 1));
        i = i + 1;
    }
    assert(all.skip(i as int).len() == 0);
    None
}

/// The caller named by query pairs (see `caller_name` and `caller_number`).
pub fn caller_from_query(pairs: &Vec<(String, String)>) -> (c: (String, String))
    ensures
        c.0@ == caller_name(pairs_view(pairs@)),
        c.1@ == caller_number(pairs_view(pairs@)),
{
    let name = match find_value(pairs, "name") {
        Some(v) => v,
        None => owned("Unbekannt"),
    };
    let number = match find_value(pairs, "number") {
        Some(v) => v,
        None => String::new(),
    };
    (name, number)
}

/// What the window does with a page's request to open an address in a new window.
pub enum CrmNavigation {
    /// Not a CRM call: the request goes ahead.
    PassOn,
    /// A CRM call address that does not parse: the request is marked handled
    /// and nothing else happens.
    Swallow,
    /// A CRM call: the request is marked handled and the call is reported.
    IncomingCall { name: String, number: String },
}

/// The reaction to a request to open `uri`: addresses containing
/// `CRM_INCOMING_MARKER` are taken over, and when they parse, the caller named
/// in their query (see `caller_from_query`) is reported.
pub fn crm_navigation(uri: &str) -> (r: CrmNavigation)
    ensures
        r is PassOn <==> !has_infix(uri@, CRM_INCOMING_MARKER@),
        r is Swallow <==> has_infix(uri@, CRM_INCOMING_MARKER@) && !url_accepts(uri@),
        r matches CrmNavigation::IncomingCall { name, number } ==> name@ == caller_name(
            url_query_pairs(uri@),
        ) && number@ == caller_number(url_query_pairs(uri@)),
{
    let chars = chars_of(uri);
    if !contains(&chars, CRM_INCOMING_MARKER) {
        return CrmNavigation::PassOn;
    }
    match parse_url(uri) {
        Ok(p) => {
            let (name, number) = caller_from_query(&p.query);
            CrmNavigation::IncomingCall { name, number }
        },
        Err(_) => CrmNavigation::Swallow,
    }
}

} // verus!
