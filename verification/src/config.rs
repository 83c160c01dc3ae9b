//! The application configuration: its shape, its defaults, and the checks and
//! messages around loading and saving it. Reading and writing the files, and the
//! JSON form, belong to the caller.
use vstd::prelude::*;
use crate::i18n::{t, translate, Locale, LocaleView};
use crate::text::{concat, owned};

verus! {

/// The whole configuration file.
#[derive(Clone, Debug)]
pub struct AppConfig {
    pub pbx_url: String,
    pub mailto: MailtoConfig,
    pub hotkeys: HotkeyConfig,
    pub window: WindowConfig,
    pub user: Option<UserConfig>,
}

/// Settings of the call-back mail.
#[derive(Clone, Debug)]
pub struct MailtoConfig {
    pub subject_template: String,
    pub default_recipient: String,
}

/// The global shortcuts, one per action.
#[derive(Clone, Debug)]
pub struct HotkeyConfig {
    pub dial_clipboard: String,
    pub dial_selection: String,
    pub answer_call: String,
    pub hangup: String,
    pub open_dialer: String,
}

/// Size and behaviour of the main window.
#[derive(Clone, Debug)]
pub struct WindowConfig {
    pub width: u32,
    pub height: u32,
    pub remember_position: bool,
    pub start_minimized: bool,
}

/// The user's name and extension.
#[derive(Clone, Debug)]
pub struct UserConfig {
    pub name: String,
    pub extension: String,
}

/// Position, size and maximised flag of the main window, as remembered between
/// sessions.
#[derive(Clone, Debug)]
pub struct WindowState {
    pub x: i32,
    pub y: i32,
    pub width: u32,
    pub height: u32,
    pub maximized: bool,
}

/// The default subject of the call-back mail: the translation of `mailto.subject`.
pub fn default_subject_template(locale: &Locale) -> (r: String)
    ensures
        r@ == translate(locale@, "mailto.subject"@),
{
    owned(t(locale, "mailto.subject"))
}

impl MailtoConfig {
    /// The default mail settings: the translated subject template and no recipient.
    pub fn default_for(locale: &Locale) -> (c: MailtoConfig)
        ensures
            c.subject_template@ == translate(locale@, "mailto.subject"@),
            c.default_recipient@ == Seq::<char>::empty(),
    {
        MailtoConfig { subject_template: default_subject_template(locale), default_recipient: String::new() }
    }
}

/// Default shortcut for dialling the clipboard: `Ctrl+F10`.
pub fn default_dial_clipboard() -> (r: String)
    ensures
        r@ == "Ctrl+F10"@,
{
    owned("Ctrl+F10")
}

/// Default shortcut for dialling the selected text: `Ctrl+F11`.
pub fn default_dial_selection() -> (r: String)
    ensures
        r@ == "Ctrl+F11"@,
{
    owned("Ctrl+F11")
}

/// Default shortcut for answering a call: `Ctrl+F9`.
pub fn default_answer_call() -> (r: String)
    ensures
        r@ == "Ctrl+F9"@,
{
    owned("Ctrl+F9")
}

/// Default shortcut for hanging up: `Ctrl+F12`.
pub fn default_hangup() -> (r: String)
    ensures
        r@ == "Ctrl+F12"@,
{
    owned("Ctrl+F12")
}

/// Default shortcut for opening the dialer: `Ctrl+Num0`.
pub fn default_open_dialer() -> (r: String)
    ensures
        r@ == "Ctrl+Num0"@,
{
    owned("Ctrl+Num0")
}

impl Default for HotkeyConfig {
    fn default() -> (c: HotkeyConfig)
        ensures
            c.dial_clipboard@ == "Ctrl+F10"@,
            c.dial_selection@ == "Ctrl+F11"@,
            c.answer_call@ == "Ctrl+F9"@,
            c.hangup@ == "Ctrl+F12"@,
            c.open_dialer@ == "Ctrl+Num0"@,
    {
        HotkeyConfig {
            dial_clipboard: default_dial_clipboard(),
            dial_selection: default_dial_selection(),
            answer_call: default_answer_call(),
            hangup: default_hangup(),
            open_dialer: default_open_dialer(),
        }
    }
}

/// Default window width: 800.
pub fn default_width() -> (r: u32)
    ensures
        r == 800,
{
    800
}

/// Default window height: 600.
pub fn default_height() -> (r: u32)
    ensures
        r == 600,
{
    600
}

/// Default for flags that are on unless configured otherwise.
pub fn default_true() -> (r: bool)
    ensures
        r,
{
    true
}

impl Default for WindowConfig {
    fn default() -> (c: WindowConfig)
        ensures
            c.width == 800,
            c.height == 600,
            c.remember_position,
            !c.start_minimized,
    {
        WindowConfig {
            width: default_width(),
            height: default_height(),
            remember_position: default_true(),
            start_minimized: false,
        }
    }
}

/// What reading the configuration file produced.
pub enum ConfigSource {
    /// There is no configuration file.
    Missing,
    /// The file exists but could not be read; the reason.
    Unreadable(String),
    /// The file was read but is not a valid configuration; the reason.
    Unparsable(String),
    /// The parsed configuration.
    Parsed(AppConfig),
}

/// The outcome of loading the configuration.
pub open spec fn load_outcome(source: ConfigSource) -> Result<Seq<char>, Seq<char>> {
    match source {
        ConfigSource::Missing => Err("Config-Datei nicht gefunden"@),
        ConfigSource::Unreadable(e) => Err("Fehler beim Lesen der Config: "@ + e@),
        ConfigSource::Unparsable(e) => Err("Fehler beim Parsen der Config: "@ + e@),
        ConfigSource::Parsed(c) => if c.pbx_url@.len() == 0 {
            Err("pbx_url darf nicht leer sein"@)
        } else {
            Ok(c.pbx_url@)
        },
    }
}

/// Loads the configuration from what reading the file produced: a missing,
/// unreadable or unparsable file, or an empty `pbx_url`, is an error with its
/// message; otherwise the parsed configuration is handed back unchanged.
pub fn load_config_from(source: ConfigSource) -> (r: Result<AppConfig, String>)
    ensures
        match r {
            Ok(c) => source == ConfigSource::Parsed(c) && load_outcome(source) == Ok::<
                Seq<char>,
                Seq<char>,
            >(c.pbx_url@),
            Err(e) => load_outcome(source) == Err::<Seq<char>, Seq<char>>(e@),
        },
{
    match source {
        ConfigSource::Missing => Err(owned("Config-Datei nicht gefunden")),
        ConfigSource::Unreadable(e) => Err(concat("Fehler beim Lesen der Config: ", e.as_str())),
        ConfigSource::Unparsable(e) => Err(concat("Fehler beim Parsen der Config: ", e.as_str())),
        ConfigSource::Parsed(c) => {
            if c.pbx_url.as_str().is_empty() {
                Err(owned("pbx_url darf nicht leer sein"))
            } else {
                Ok(c)
            }
        },
    }
}

/// Whether `c` is the minimal configuration for first start: the PBX URL
/// `pbx_url`, the mail subject template of the translations `v`, no default
/// recipient, the default hotkeys and window settings, and no user.
pub open spec fn is_initial_config(c: AppConfig, pbx_url: Seq<char>, v: LocaleView) -> bool {
    &&& c.pbx_url@ == pbx_url
    &&& c.mailto.subject_template@ == translate(v, "mailto.subject"@)
    &&& c.mailto.default_recipient@ == Seq::<char>::empty()
    &&& c.hotkeys.dial_clipboard@ == "Ctrl+F10"@
    &&& c.hotkeys.dial_selection@ == "Ctrl+F11"@
    &&& c.hotkeys.answer_call@ == "Ctrl+F9"@
    &&& c.hotkeys.hangup@ == "Ctrl+F12"@
    &&& c.hotkeys.open_dialer@ == "Ctrl+Num0"@
    &&& c.window.width == 800
    &&& c.window.height == 600
    &&& c.window.remember_position
    &&& !c.window.start_minimized
    &&& c.user is None
}

/// The minimal configuration written on first start: the given PBX URL, default
/// mail, hotkey and window settings, and no user.
pub fn initial_config(pbx_url: &str, locale: &Locale) -> (c: AppConfig)
    ensures
        is_initial_config(c, pbx_url@, locale@),
{
    AppConfig {
        pbx_url: owned(pbx_url),
        mailto: MailtoConfig::default_for(locale),
        hotkeys: HotkeyConfig::default(),
        window: WindowConfig::default(),
        user: None,
    }
}

/// A configuration written on first start for a non-empty PBX URL loads back:
/// read as it was written, loading accepts it with that URL, and
/// `load_config_from` then hands back that very configuration.
pub proof fn law_initial_config_loads_back(c: AppConfig, pbx_url: Seq<char>, v: LocaleView)
    requires
        is_initial_config(c, pbx_url, v),
        pbx_url.len() > 0,
    ensures
        load_outcome(ConfigSource::Parsed(c)) == Ok::<Seq<char>, Seq<char>>(pbx_url),
{
}

/// A step of writing a configuration or window-state file that can fail.
pub enum WriteStep {
    /// Creating the configuration directory.
    CreateConfigDir,
    /// Turning the configuration into JSON.
    SerializeConfig,
    /// Writing the configuration file.
    WriteConfig,
    /// Turning the window state into JSON.
    SerializeWindowState,
    /// Writing the window-state file.
    WriteWindowState,
}

/// The message prefix for a failed step.
pub open spec fn write_error_prefix(step: WriteStep) -> Seq<char> {
    match step {
        WriteStep::CreateConfigDir => "Fehler beim Erstellen des Config-Verzeichnisses: "@,
        WriteStep::SerializeConfig => "Fehler beim Serialisieren: "@,
        WriteStep::WriteConfig => "Fehler beim Schreiben der Config: "@,
        WriteStep::SerializeWindowState => "Serialisierungsfehler: "@,
        WriteStep::WriteWindowState => "Schreibfehler: "@,
    }
}

/// The error message for a failed write step with the given reason.
pub fn write_error(step: WriteStep, reason: &str) -> (r: String)
    ensures
        r@ == write_error_prefix(step) + reason@,
{
    match step {
        WriteStep::CreateConfigDir => concat(
            "Fehler beim Erstellen des Config-Verzeichnisses: ",
            reason,
        ),
        WriteStep::SerializeConfig => concat("Fehler beim Serialisieren: ", reason),
        WriteStep::WriteConfig => concat("Fehler beim Schreiben der Config: ", reason),
        WriteStep::SerializeWindowState => concat("Serialisierungsfehler: ", reason),
        WriteStep::WriteWindowState => concat("Schreibfehler: ", reason),
    }
}

} // verus!
