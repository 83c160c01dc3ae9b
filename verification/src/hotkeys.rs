//! Which global shortcut triggers which action.
use vstd::prelude::*;
use crate::config::HotkeyConfig;
use crate::text::concat;
use crate::webclient::{
    hotkey_reaction_for, trim_quotes, trim_quotes_end, trim_quotes_start, HotkeyReaction,
    ANSWER_CALL_SCRIPT, DIAL_CLIPBOARD_SCRIPT, HANGUP_SCRIPT,
};

verus! {

/// One global shortcut and the action name it announces when pressed.
pub struct HotkeyBinding {
    pub shortcut: String,
    pub action: &'static str,
}

/// The shortcuts of `config` with their actions, in the order they are
/// registered: dial the clipboard, dial the selection, answer, hang up, open
/// the dialer.
pub open spec fn bindings_of(config: HotkeyConfig) -> Seq<(Seq<char>, Seq<char>)> {
    seq![
        (config.dial_clipboard@, "dial_clipboard"@),
        (config.dial_selection@, "dial_selection"@),
        (config.answer_call@, "answer_call"@),
        (config.hangup@, "hangup"@),
        (config.open_dialer@, "open_dialer"@),
    ]
}

/// The view of a list of bindings as (shortcut, action) pairs.
pub open spec fn bindings_view(b: Seq<HotkeyBinding>) -> Seq<(Seq<char>, Seq<char>)> {
    b.map_values(|x: HotkeyBinding| (x.shortcut@, x.action@))
}

/// The bindings to register for `config` (see `bindings_of`).
pub fn hotkey_bindings(config: &HotkeyConfig) -> (r: Vec<HotkeyBinding>)
    ensures
        bindings_view(r@) == bindings_of(*config),
{
    let mut r: Vec<HotkeyBinding> = Vec::new();
    r.push(HotkeyBinding { shortcut: config.dial_clipboard.clone(), action: "dial_clipboard" });
    r.push(HotkeyBinding { shortcut: config.dial_selection.clone(), action: "dial_selection" });
    r.push(HotkeyBinding { shortcut: config.answer_call.clone(), action: "answer_call" });
    r.push(HotkeyBinding { shortcut: config.hangup.clone(), action: "hangup" });
    r.push(HotkeyBinding { shortcut: config.open_dialer.clone(), action: "open_dialer" });
    assert(bindings_view(r@) =~= bindings_of(*config));
    r
}

/// The message for a shortcut that could not be registered:
/// `Hotkey '<shortcut>': <reason>`.
pub fn hotkey_error(shortcut: &str, reason: &str) -> (r: String)
    ensures
        r@ == "Hotkey '"@ + shortcut@ + "': "@ + reason@,
{
    let mut s = concat("Hotkey '", shortcut);
    s.append("': ");
    s.append(reason);
    s
}

/// An action name announced as a JSON string, the form the event payload takes.
pub open spec fn quoted(action: Seq<char>) -> Seq<char> {
    seq!['"'] + action + seq!['"']
}

/// Quotes around an action name without quotes come off again.
proof fn lemma_unquote(a: Seq<char>)
    requires
        a.len() > 0,
        a[0] != '"',
        a.last() != '"',
    ensures
        trim_quotes(quoted(a)) == a,
{
    let q = quoted(a);
    assert(q.drop_first() =~= a + seq!['"']);
    assert(trim_quotes_start(a + seq!['"']) == a + seq!['"']);
    assert((a + seq!['"']).drop_last() =~= a);
    assert(trim_quotes_end(a) == a);
}

/// Every action a registered shortcut announces is one the web-client window
/// acts on: the two dialling actions and the dialer get their own handling, and
/// answering and hanging up run their scripts; none is ignored.
pub proof fn law_every_bound_action_is_handled(config: HotkeyConfig)
    ensures
        hotkey_reaction_for(quoted(bindings_of(config)[0].1)) == HotkeyReaction::RunScript(
            DIAL_CLIPBOARD_SCRIPT,
        ),
        hotkey_reaction_for(quoted(bindings_of(config)[1].1)) == HotkeyReaction::DialSelection,
        hotkey_reaction_for(quoted(bindings_of(config)[2].1)) == HotkeyReaction::RunScript(
            ANSWER_CALL_SCRIPT,
        ),
        hotkey_reaction_for(quoted(bindings_of(config)[3].1)) == HotkeyReaction::RunScript(
            HANGUP_SCRIPT,
        ),
        hotkey_reaction_for(quoted(bindings_of(config)[4].1)) == HotkeyReaction::OpenDialer,
{
    reveal_strlit("dial_clipboard");
    reveal_strlit("dial_selection");
    reveal_strlit("answer_call");
    reveal_strlit("hangup");
    reveal_strlit("open_dialer");
    lemma_unquote("dial_clipboard"@);
    lemma_unquote("dial_selection"@);
    lemma_unquote("answer_call"@);
    lemma_unquote("hangup"@);
    lemma_unquote("open_dialer"@);
    assert("dial_clipboard"@[5] != "dial_selection"@[5]);
    assert("answer_call"@[0] != "open_dialer"@[0]);
}

} // verus!
