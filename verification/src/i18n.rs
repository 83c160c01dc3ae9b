//! Translations: language detection, the choice of table, and the lookup with
//! its English and `???` fallbacks. The translation state, set once by `init`,
//! is a `Locale` value that the caller owns.
use vstd::prelude::*;
use crate::text::{has_infix, owned, str_eq};
use crate::translations;

verus! {

/// The languages that have a translation table.
#[derive(Clone, Copy, PartialEq, Eq, Debug, Structural)]
pub enum Language {
    En,
    De,
    Fr,
    It,
    Es,
    Nl,
    Pt,
    Pl,
    Cs,
    Hu,
    Sk,
    Sl,
    Ro,
    Bg,
    Hr,
    Et,
    Lv,
    Lt,
    Fi,
    Sv,
    No,
    Da,
    El,
    Tr,
    Ru,
}

/// The text stored under `key` in the table of `lang`, if any.
pub open spec fn translation(lang: Language, key: Seq<char>) -> Option<Seq<char>> {
    match lang {
        Language::En => translations::en_entry(key),
        Language::De => translations::de_entry(key),
        Language::Fr => translations::fr_entry(key),
        Language::It => translations::it_entry(key),
        Language::Es => translations::es_entry(key),
        Language::Nl => translations::nl_entry(key),
        Language::Pt => translations::pt_entry(key),
        Language::Pl => translations::pl_entry(key),
        Language::Cs => translations::cs_entry(key),
        Language::Hu => translations::hu_entry(key),
        Language::Sk => translations::sk_entry(key),
        Language::Sl => translations::sl_entry(key),
        Language::Ro => translations::ro_entry(key),
        Language::Bg => translations::bg_entry(key),
        Language::Hr => translations::hr_entry(key),
        Language::Et => translations::et_entry(key),
        Language::Lv => translations::lv_entry(key),
        Language::Lt => translations::lt_entry(key),
        Language::Fi => translations::fi_entry(key),
        Language::Sv => translations::sv_entry(key),
        Language::No => translations::no_entry(key),
        Language::Da => translations::da_entry(key),
        Language::El => translations::el_entry(key),
        Language::Tr => translations::tr_entry(key),
        Language::Ru => translations::ru_entry(key),
    }
}

/// The language whose code is `code`; English for any code without a table.
pub open spec fn language_of_code(code: Seq<char>) -> Language {
    if code == "de"@ {
        Language::De
    } else if code == "fr"@ {
        Language::Fr
    } else if code == "it"@ {
        Language::It
    } else if code == "es"@ {
        Language::Es
    } else if code == "nl"@ {
        Language::Nl
    } else if code == "pt"@ {
        Language::Pt
    } else if code == "pl"@ {
        Language::Pl
    } else if code == "cs"@ {
        Language::Cs
    } else if code == "hu"@ {
        Language::Hu
    } else if code == "sk"@ {
        Language::Sk
    } else if code == "sl"@ {
        Language::Sl
    } else if code == "ro"@ {
        Language::Ro
    } else if code == "bg"@ {
        Language::Bg
    } else if code == "hr"@ {
        Language::Hr
    } else if code == "et"@ {
        Language::Et
    } else if code == "lv"@ {
        Language::Lv
    } else if code == "lt"@ {
        Language::Lt
    } else if code == "fi"@ {
        Language::Fi
    } else if code == "sv"@ {
        Language::Sv
    } else if code == "no"@ {
        Language::No
    } else if code == "da"@ {
        Language::Da
    } else if code == "el"@ {
        Language::El
    } else if code == "tr"@ {
        Language::Tr
    } else if code == "ru"@ {
        Language::Ru
    } else {
        Language::En
    }
}

/// The language code for a Windows UI language id: chosen by its primary
/// language (the low ten bits); `en` for any other primary language.
pub open spec fn code_for_langid(langid: u16) -> Seq<char> {
    let primary = langid & 0x3FF;
    if primary == 0x07 {
        "de"@
    } else if primary == 0x0C {
        "fr"@
    } else if primary == 0x10 {
        "it"@
    } else if primary == 0x0A {
        "es"@
    } else if primary == 0x13 {
        "nl"@
    } else if primary == 0x16 {
        "pt"@
    } else if primary == 0x15 {
        "pl"@
    } else if primary == 0x05 {
        "cs"@
    } else if primary == 0x0E {
        "hu"@
    } else if primary == 0x1B {
        "sk"@
    } else if primary == 0x24 {
        "sl"@
    } else if primary == 0x18 {
        "ro"@
    } else if primary == 0x02 {
        "bg"@
    } else if primary == 0x1A {
        "hr"@
    } else if primary == 0x25 {
        "et"@
    } else if primary == 0x26 {
        "lv"@
    } else if primary == 0x27 {
        "lt"@
    } else if primary == 0x0B {
        "fi"@
    } else if primary == 0x1D {
        "sv"@
    } else if primary == 0x14 {
        "no"@
    } else if primary == 0x06 {
        "da"@
    } else if primary == 0x08 {
        "el"@
    } else if primary == 0x1F {
        "tr"@
    } else if primary == 0x19 {
        "ru"@
    } else if primary == 0x09 {
        "en"@
    } else {
        "en"@
    }
}

/// The code of the language the user interface runs in, from the Windows UI
/// language id (`GetUserDefaultUILanguage`); `en` where there is none.
pub fn detect_language(ui_langid: Option<u16>) -> (code: String)
    ensures
        code@ == match ui_langid {
            Some(id) => code_for_langid(id),
            None => "en"@,
        },
{
    match ui_langid {
        None => owned("en"),
        Some(id) => {
            let primary = id & 0x3FF;
            if primary == 0x07 {
                owned("de")
            } else if primary == 0x0C {
                owned("fr")
            } else if primary == 0x10 {
                owned("it")
            } else if primary == 0x0A {
                owned("es")
            } else if primary == 0x13 {
                owned("nl")
            } else if primary == 0x16 {
                owned("pt")
            } else if primary == 0x15 {
                owned("pl")
            } else if primary == 0x05 {
                owned("cs")
            } else if primary == 0x0E {
                owned("hu")
            } else if primary == 0x1B {
                owned("sk")
            } else if primary == 0x24 {
                owned("sl")
            } else if primary == 0x18 {
                owned("ro")
            } else if primary == 0x02 {
                owned("bg")
            } else if primary == 0x1A {
                owned("hr")
            } else if primary == 0x25 {
                owned("et")
            } else if primary == 0x26 {
                owned("lv")
            } else if primary == 0x27 {
                owned("lt")
            } else if primary == 0x0B {
                owned("fi")
            } else if primary == 0x1D {
                owned("sv")
            } else if primary == 0x14 {
                owned("no")
            } else if primary == 0x06 {
                owned("da")
            } else if primary == 0x08 {
                owned("el")
            } else if primary == 0x1F {
                owned("tr")
            } else if primary == 0x19 {
                owned("ru")
            } else if primary == 0x09 {
                owned("en")
            } else {
                owned("en")
            }
        },
    }
}

/// One language's translation table.
#[derive(Clone, Copy, PartialEq, Eq, Debug, Structural)]
pub struct StringTable {
    pub lang: Language,
}

impl StringTable {
    /// The text stored under `key`, if any.
    pub fn get(&self, key: &str) -> (r: Option<&'static str>)
        ensures
            match r {
                Some(v) => translation(self.lang, key@) == Some(v@),
                None => translation(self.lang, key@) is None,
            },
    {
        match self.lang {
            Language::En => translations::en_lookup(key),
            Language::De => translations::de_lookup(key),
            Language::Fr => translations::fr_lookup(key),
            Language::It => translations::it_lookup(key),
            Language::Es => translations::es_lookup(key),
            Language::Nl => translations::nl_lookup(key),
            Language::Pt => translations::pt_lookup(key),
            Language::Pl => translations::pl_lookup(key),
            Language::Cs => translations::cs_lookup(key),
            Language::Hu => translations::hu_lookup(key),
            Language::Sk => translations::sk_lookup(key),
            Language::Sl => translations::sl_lookup(key),
            Language::Ro => translations::ro_lookup(key),
            Language::Bg => translations::bg_lookup(key),
            Language::Hr => translations::hr_lookup(key),
            Language::Et => translations::et_lookup(key),
            Language::Lv => translations::lv_lookup(key),
            Language::Lt => translations::lt_lookup(key),
            Language::Fi => translations::fi_lookup(key),
            Language::Sv => translations::sv_lookup(key),
            Language::No => translations::no_lookup(key),
            Language::Da => translations::da_lookup(key),
            Language::El => translations::el_lookup(key),
            Language::Tr => translations::tr_lookup(key),
            Language::Ru => translations::ru_lookup(key),
        }
    }

    /// Whether the table holds `key`.
    pub fn contains_key(&self, key: &str) -> (r: bool)
        ensures
            r == translation(self.lang, key@) is Some,
    {
        self.get(key).is_some()
    }
}

/// The table for the language code `lang`; the English table for any code
/// without a table of its own.
pub fn get_strings_for(lang: &str) -> (table: StringTable)
    ensures
        table.lang == language_of_code(lang@),
{
    if str_eq(lang, "de") {
        StringTable { lang: Language::De }
    } else if str_eq(lang, "fr") {
        StringTable { lang: Language::Fr }
    } else if str_eq(lang, "it") {
        StringTable { lang: Language::It }
    } else if str_eq(lang, "es") {
        StringTable { lang: Language::Es }
    } else if str_eq(lang, "nl") {
        StringTable { lang: Language::Nl }
    } else if str_eq(lang, "pt") {
        StringTable { lang: Language::Pt }
    } else if str_eq(lang, "pl") {
        StringTable { lang: Language::Pl }
    } else if str_eq(lang, "cs") {
        StringTable { lang: Language::Cs }
    } else if str_eq(lang, "hu") {
        StringTable { lang: Language::Hu }
    } else if str_eq(lang, "sk") {
        StringTable { lang: Language::Sk }
    } else if str_eq(lang, "sl") {
        StringTable { lang: Language::Sl }
    } else if str_eq(lang, "ro") {
        StringTable { lang: Language::Ro }
    } else if str_eq(lang, "bg") {
        StringTable { lang: Language::Bg }
    } else if str_eq(lang, "hr") {
        StringTable { lang: Language::Hr }
    } else if str_eq(lang, "et") {
        StringTable { lang: Language::Et }
    } else if str_eq(lang, "lv") {
        StringTable { lang: Language::Lv }
    } else if str_eq(lang, "lt") {
        StringTable { lang: Language::Lt }
    } else if str_eq(lang, "fi") {
        StringTable { lang: Language::Fi }
    } else if str_eq(lang, "sv") {
        StringTable { lang: Language::Sv }
    } else if str_eq(lang, "no") {
        StringTable { lang: Language::No }
    } else if str_eq(lang, "da") {
        StringTable { lang: Language::Da }
    } else if str_eq(lang, "el") {
        StringTable { lang: Language::El }
    } else if str_eq(lang, "tr") {
        StringTable { lang: Language::Tr }
    } else if str_eq(lang, "ru") {
        StringTable { lang: Language::Ru }
    } else {
        StringTable { lang: Language::En }
    }
}

/// The view of a `Locale`: the chosen language code and the chosen table,
/// each set at most once.
pub struct LocaleView {
    pub lang: Option<Seq<char>>,
    pub strings: Option<Language>,
}

/// The translation state of a process: the language code and the table, both
/// unset until `init` sets them, and never changed after that.
pub struct Locale {
    pub lang: Option<String>,
    pub strings: Option<StringTable>,
}

impl View for Locale {
    type V = LocaleView;

    open spec fn view(&self) -> LocaleView {
        LocaleView {
            lang: match self.lang {
                Some(s) => Some(s@),
                None => None,
            },
            strings: match self.strings {
                Some(t) => Some(t.lang),
                None => None,
            },
        }
    }
}

impl Locale {
    /// A state in which nothing has been set yet.
    pub fn new() -> (l: Locale)
        ensures
            l@.lang is None,
            l@.strings is None,
    {
        Locale { lang: None, strings: None }
    }
}

/// The code that `detect_language` gives for a Windows UI language id.
pub open spec fn detected_code(ui_langid: Option<u16>) -> Seq<char> {
    match ui_langid {
        Some(id) => code_for_langid(id),
        None => "en"@,
    }
}

/// The state after `init` with the detected code `code`: each part that is
/// still unset takes the detected language; a part already set stays.
pub open spec fn after_init(v: LocaleView, code: Seq<char>) -> LocaleView {
    LocaleView {
        lang: if v.lang is Some {
            v.lang
        } else {
            Some(code)
        },
        strings: if v.strings is Some {
            v.strings
        } else {
            Some(language_of_code(code))
        },
    }
}

/// What `t` gives for `key`: the chosen table's text, else the English text,
/// else `???`.
pub open spec fn translate(v: LocaleView, key: Seq<char>) -> Seq<char> {
    let chosen = match v.strings {
        Some(lang) => translation(lang, key),
        None => None,
    };
    match chosen {
        Some(text) => text,
        None => match translations::en_entry(key) {
            Some(text) => text,
            None => "???"@,
        },
    }
}

/// Detects the user-interface language and sets the language code and the
/// table, each only if it is not set yet.
pub fn init(locale: &mut Locale, ui_langid: Option<u16>)
    ensures
        final(locale)@ == after_init(old(locale)@, detected_code(ui_langid)),
{
    let lang = detect_language(ui_langid);
    if locale.strings.is_none() {
        locale.strings = Some(get_strings_for(lang.as_str()));
    }
    if locale.lang.is_none() {
        locale.lang = Some(lang);
    }
}

/// Translates `key`: the text of the chosen table, else the English text,
/// else `???`.
pub fn t(locale: &Locale, key: &str) -> (r: &'static str)
    ensures
        r@ == translate(locale@, key@),
{
    let chosen = match &locale.strings {
        Some(table) => table.get(key),
        None => None,
    };
    match chosen {
        Some(text) => text,
        None => match translations::en_lookup(key) {
            Some(text) => text,
            None => "???",
        },
    }
}

/// The current language code (`en`, `de`, `fr`, …); `en` before `init`.
pub fn current_lang(locale: &Locale) -> (r: &str)
    ensures
        r@ == match locale@.lang {
            Some(code) => code,
            None => "en"@,
        },
{
    match &locale.lang {
        Some(code) => code.as_str(),
        None => "en",
    }
}

/// The keys that every translation table holds.
pub open spec fn is_core_key(key: Seq<char>) -> bool {
    ||| key == "mailto.subject"@
    ||| key == "tray.show"@
    ||| key == "tray.quit"@
    ||| key == "setup.title"@
    ||| key == "setup.button"@
}

/// Every table holds the core keys (`mailto.subject`, `tray.show`, `tray.quit`,
/// `setup.title`, `setup.button`), so `t` never falls back to `???` for them.
pub proof fn law_every_table_has_core_keys(lang: Language, key: Seq<char>)
    requires
        is_core_key(key),
    ensures
        translation(lang, key) is Some,
{
}

/// What every table keeps to, whichever language: each of its keys is a key of
/// the English table, no text is `???`, the call-history texts hold no single
/// quote, backslash or line break (the page scripts embed them in quotes), the
/// mail subject holds the placeholders `{name}` and `{number}`, and the
/// delete question holds `{count}`.
pub proof fn law_every_table_keeps_its_shape(lang: Language, key: Seq<char>)
    ensures
        translation(lang, key) is Some ==> translations::en_entry(key) is Some,
        translation(lang, key) != Some("???"@),
        translations::is_hist_key(key) ==> (translation(lang, key) matches Some(v)
            ==> translations::plain_hist_text(v)),
        translation(lang, "mailto.subject"@) matches Some(v) && has_infix(v, "{name}"@)
            && has_infix(v, "{number}"@),
        translation(lang, "hist.confirm_delete"@) matches Some(v) && has_infix(v, "{count}"@),
{
    match lang {
        Language::En => translations::lemma_en_table_shape(key),
        Language::De => translations::lemma_de_table_shape(key),
        Language::Fr => translations::lemma_fr_table_shape(key),
        Language::It => translations::lemma_it_table_shape(key),
        Language::Es => translations::lemma_es_table_shape(key),
        Language::Nl => translations::lemma_nl_table_shape(key),
        Language::Pt => translations::lemma_pt_table_shape(key),
        Language::Pl => translations::lemma_pl_table_shape(key),
        Language::Cs => translations::lemma_cs_table_shape(key),
        Language::Hu => translations::lemma_hu_table_shape(key),
        Language::Sk => translations::lemma_sk_table_shape(key),
        Language::Sl => translations::lemma_sl_table_shape(key),
        Language::Ro => translations::lemma_ro_table_shape(key),
        Language::Bg => translations::lemma_bg_table_shape(key),
        Language::Hr => translations::lemma_hr_table_shape(key),
        Language::Et => translations::lemma_et_table_shape(key),
        Language::Lv => translations::lemma_lv_table_shape(key),
        Language::Lt => translations::lemma_lt_table_shape(key),
        Language::Fi => translations::lemma_fi_table_shape(key),
        Language::Sv => translations::lemma_sv_table_shape(key),
        Language::No => translations::lemma_no_table_shape(key),
        Language::Da => translations::lemma_da_table_shape(key),
        Language::El => translations::lemma_el_table_shape(key),
        Language::Tr => translations::lemma_tr_table_shape(key),
        Language::Ru => translations::lemma_ru_table_shape(key),
    }
}

/// `t` answers `???` exactly for the keys that the English table lacks,
/// whatever the state: a chosen table never knows a key that English does not,
/// and no table holds `???` as a text.
pub proof fn law_question_marks_exactly_for_unknown_keys(v: LocaleView, key: Seq<char>)
    ensures
        translate(v, key) == "???"@ <==> translations::en_entry(key) is None,
{
    law_every_table_keeps_its_shape(Language::En, key);
    if let Some(lang) = v.strings {
        law_every_table_keeps_its_shape(lang, key);
    }
}

/// Only the first `init` decides: a second `init`, whatever language it
/// detects, leaves the state as the first one set it.
pub proof fn law_first_init_decides(v: LocaleView, first: Seq<char>, second: Seq<char>)
    ensures
        after_init(after_init(v, first), second) == after_init(v, first),
{
}

/// After `init` on a fresh state both parts are set, and the table is the one
/// of the chosen language code.
pub proof fn law_init_sets_matching_table(code: Seq<char>)
    ensures
        after_init(LocaleView { lang: None, strings: None }, code).lang == Some(code),
        after_init(LocaleView { lang: None, strings: None }, code).strings == Some(
            language_of_code(code),
        ),
{
}

/// The code of a language.
pub open spec fn code_of(lang: Language) -> Seq<char> {
    match lang {
        Language::En => "en"@,
        Language::De => "de"@,
        Language::Fr => "fr"@,
        Language::It => "it"@,
        Language::Es => "es"@,
        Language::Nl => "nl"@,
        Language::Pt => "pt"@,
        Language::Pl => "pl"@,
        Language::Cs => "cs"@,
        Language::Hu => "hu"@,
        Language::Sk => "sk"@,
        Language::Sl => "sl"@,
        Language::Ro => "ro"@,
        Language::Bg => "bg"@,
        Language::Hr => "hr"@,
        Language::Et => "et"@,
        Language::Lv => "lv"@,
        Language::Lt => "lt"@,
        Language::Fi => "fi"@,
        Language::Sv => "sv"@,
        Language::No => "no"@,
        Language::Da => "da"@,
        Language::El => "el"@,
        Language::Tr => "tr"@,
        Language::Ru => "ru"@,
    }
}

/// A code without a table of its own selects the English table.
pub proof fn law_unknown_code_selects_english(code: Seq<char>)
    requires
        forall|lang: Language| code != #[trigger] code_of(lang),
    ensures
        language_of_code(code) == Language::En,
{
    assert(code != code_of(Language::De));
    assert(code != code_of(Language::Fr));
    assert(code != code_of(Language::It));
    assert(code != code_of(Language::Es));
    assert(code != code_of(Language::Nl));
    assert(code != code_of(Language::Pt));
    assert(code != code_of(Language::Pl));
    assert(code != code_of(Language::Cs));
    assert(code != code_of(Language::Hu));
    assert(code != code_of(Language::Sk));
    assert(code != code_of(Language::Sl));
    assert(code != code_of(Language::Ro));
    assert(code != code_of(Language::Bg));
    assert(code != code_of(Language::Hr));
    assert(code != code_of(Language::Et));
    assert(code != code_of(Language::Lv));
    assert(code != code_of(Language::Lt));
    assert(code != code_of(Language::Fi));
    assert(code != code_of(Language::Sv));
    assert(code != code_of(Language::No));
    assert(code != code_of(Language::Da));
    assert(code != code_of(Language::El));
    assert(code != code_of(Language::Tr));
    assert(code != code_of(Language::Ru));
}

/// Each language code selects its own language.
proof fn lemma_codes_select_their_language()
    ensures
        language_of_code("de"@) == Language::De,
        language_of_code("fr"@) == Language::Fr,
        language_of_code("it"@) == Language::It,
        language_of_code("es"@) == Language::Es,
        language_of_code("nl"@) == Language::Nl,
        language_of_code("pt"@) == Language::Pt,
        language_of_code("pl"@) == Language::Pl,
        language_of_code("cs"@) == Language::Cs,
        language_of_code("hu"@) == Language::Hu,
        language_of_code("sk"@) == Language::Sk,
        language_of_code("sl"@) == Language::Sl,
        language_of_code("ro"@) == Language::Ro,
        language_of_code("bg"@) == Language::Bg,
        language_of_code("hr"@) == Language::Hr,
        language_of_code("et"@) == Language::Et,
        language_of_code("lv"@) == Language::Lv,
        language_of_code("lt"@) == Language::Lt,
        language_of_code("fi"@) == Language::Fi,
        language_of_code("sv"@) == Language::Sv,
        language_of_code("no"@) == Language::No,
        language_of_code("da"@) == Language::Da,
        language_of_code("el"@) == Language::El,
        language_of_code("tr"@) == Language::Tr,
        language_of_code("ru"@) == Language::Ru,
        language_of_code("en"@) == Language::En,
{
    reveal_strlit("de");
    reveal_strlit("fr");
    reveal_strlit("it");
    reveal_strlit("es");
    reveal_strlit("nl");
    reveal_strlit("pt");
    reveal_strlit("pl");
    reveal_strlit("cs");
    reveal_strlit("hu");
    reveal_strlit("sk");
    reveal_strlit("sl");
    reveal_strlit("ro");
    reveal_strlit("bg");
    reveal_strlit("hr");
    reveal_strlit("et");
    reveal_strlit("lv");
    reveal_strlit("lt");
    reveal_strlit("fi");
    reveal_strlit("sv");
    reveal_strlit("no");
    reveal_strlit("da");
    reveal_strlit("el");
    reveal_strlit("tr");
    reveal_strlit("ru");
    reveal_strlit("en");
    assert("fr"@[0] == 'f' && "de"@[0] == 'd');
    assert("it"@[0] == 'i' && "de"@[0] == 'd');
    assert("it"@[0] == 'i' && "fr"@[0] == 'f');
    assert("es"@[0] == 'e' && "de"@[0] == 'd');
    assert("es"@[0] == 'e' && "fr"@[0] == 'f');
    assert("es"@[0] == 'e' && "it"@[0] == 'i');
    assert("nl"@[0] == 'n' && "de"@[0] == 'd');
    assert("nl"@[0] == 'n' && "fr"@[0] == 'f');
    assert("nl"@[0] == 'n' && "it"@[0] == 'i');
    assert("nl"@[0] == 'n' && "es"@[0] == 'e');
    assert("pt"@[0] == 'p' && "de"@[0] == 'd');
    assert("pt"@[0] == 'p' && "fr"@[0] == 'f');
    assert("pt"@[0] == 'p' && "it"@[0] == 'i');
    assert("pt"@[0] == 'p' && "es"@[0] == 'e');
    assert("pt"@[0] == 'p' && "nl"@[0] == 'n');
    assert("pl"@[0] == 'p' && "de"@[0] == 'd');
    assert("pl"@[0] == 'p' && "fr"@[0] == 'f');
    assert("pl"@[0] == 'p' && "it"@[0] == 'i');
    assert("pl"@[0] == 'p' && "es"@[0] == 'e');
    assert("pl"@[0] == 'p' && "nl"@[0] == 'n');
    assert("pl"@[1] == 'l' && "pt"@[1] == 't');
    assert("cs"@[0] == 'c' && "de"@[0] == 'd');
    assert("cs"@[0] == 'c' && "fr"@[0] == 'f');
    assert("cs"@[0] == 'c' && "it"@[0] == 'i');
    assert("cs"@[0] == 'c' && "es"@[0] == 'e');
    assert("cs"@[0] == 'c' && "nl"@[0] == 'n');
    assert("cs"@[0] == 'c' && "pt"@[0] == 'p');
    assert("cs"@[0] == 'c' && "pl"@[0] == 'p');
    assert("hu"@[0] == 'h' && "de"@[0] == 'd');
    assert("hu"@[0] == 'h' && "fr"@[0] == 'f');
    assert("hu"@[0] == 'h' && "it"@[0] == 'i');
    assert("hu"@[0] == 'h' && "es"@[0] == 'e');
    assert("hu"@[0] == 'h' && "nl"@[0] == 'n');
    assert("hu"@[0] == 'h' && "pt"@[0] == 'p');
    assert("hu"@[0] == 'h' && "pl"@[0] == 'p');
    assert("hu"@[0] == 'h' && "cs"@[0] == 'c');
    assert("sk"@[0] == 's' && "de"@[0] == 'd');
    assert("sk"@[0] == 's' && "fr"@[0] == 'f');
    assert("sk"@[0] == 's' && "it"@[0] == 'i');
    assert("sk"@[0] == 's' && "es"@[0] == 'e');
    assert("sk"@[0] == 's' && "nl"@[0] == 'n');
    assert("sk"@[0] == 's' && "pt"@[0] == 'p');
    assert("sk"@[0] == 's' && "pl"@[0] == 'p');
    assert("sk"@[0] == 's' && "cs"@[0] == 'c');
    assert("sk"@[0] == 's' && "hu"@[0] == 'h');
    assert("sl"@[0] == 's' && "de"@[0] == 'd');
    assert("sl"@[0] == 's' && "fr"@[0] == 'f');
    assert("sl"@[0] == 's' && "it"@[0] == 'i');
    assert("sl"@[0] == 's' && "es"@[0] == 'e');
    assert("sl"@[0] == 's' && "nl"@[0] == 'n');
    assert("sl"@[0] == 's' && "pt"@[0] == 'p');
    assert("sl"@[0] == 's' && "pl"@[0] == 'p');
    assert("sl"@[0] == 's' && "cs"@[0] == 'c');
    assert("sl"@[0] == 's' && "hu"@[0] == 'h');
    assert("sl"@[1] == 'l' && "sk"@[1] == 'k');
    assert("ro"@[0] == 'r' && "de"@[0] == 'd');
    assert("ro"@[0] == 'r' && "fr"@[0] == 'f');
    assert("ro"@[0] == 'r' && "it"@[0] == 'i');
    assert("ro"@[0] == 'r' && "es"@[0] == 'e');
    assert("ro"@[0] == 'r' && "nl"@[0] == 'n');
    assert("ro"@[0] == 'r' && "pt"@[0] == 'p');
    assert("ro"@[0] == 'r' && "pl"@[0] == 'p');
    assert("ro"@[0] == 'r' && "cs"@[0] == 'c');
    assert("ro"@[0] == 'r' && "hu"@[0] == 'h');
    assert("ro"@[0] == 'r' && "sk"@[0] == 's');
    assert("ro"@[0] == 'r' && "sl"@[0] == 's');
    assert("bg"@[0] == 'b' && "de"@[0] == 'd');
    assert("bg"@[0] == 'b' && "fr"@[0] == 'f');
    assert("bg"@[0] == 'b' && "it"@[0] == 'i');
    assert("bg"@[0] == 'b' && "es"@[0] == 'e');
    assert("bg"@[0] == 'b' && "nl"@[0] == 'n');
    assert("bg"@[0] == 'b' && "pt"@[0] == 'p');
    assert("bg"@[0] == 'b' && "pl"@[0] == 'p');
    assert("bg"@[0] == 'b' && "cs"@[0] == 'c');
    assert("bg"@[0] == 'b' && "hu"@[0] == 'h');
    assert("bg"@[0] == 'b' && "sk"@[0] == 's');
    assert("bg"@[0] == 'b' && "sl"@[0] == 's');
    assert("bg"@[0] == 'b' && "ro"@[0] == 'r');
    assert("hr"@[0] == 'h' && "de"@[0] == 'd');
    assert("hr"@[0] == 'h' && "fr"@[0] == 'f');
    assert("hr"@[0] == 'h' && "it"@[0] == 'i');
    assert("hr"@[0] == 'h' && "es"@[0] == 'e');
    assert("hr"@[0] == 'h' && "nl"@[0] == 'n');
    assert("hr"@[0] == 'h' && "pt"@[0] == 'p');
    assert("hr"@[0] == 'h' && "pl"@[0] == 'p');
    assert("hr"@[0] == 'h' && "cs"@[0] == 'c');
    assert("hr"@[1] == 'r' && "hu"@[1] == 'u');
    assert("hr"@[0] == 'h' && "sk"@[0] == 's');
    assert("hr"@[0] == 'h' && "sl"@[0] == 's');
    assert("hr"@[0] == 'h' && "ro"@[0] == 'r');
    assert("hr"@[0] == 'h' && "bg"@[0] == 'b');
    assert("et"@[0] == 'e' && "de"@[0] == 'd');
    assert("et"@[0] == 'e' && "fr"@[0] == 'f');
    assert("et"@[0] == 'e' && "it"@[0] == 'i');
    assert("et"@[1] == 't' && "es"@[1] == 's');
    assert("et"@[0] == 'e' && "nl"@[0] == 'n');
    assert("et"@[0] == 'e' && "pt"@[0] == 'p');
    assert("et"@[0] == 'e' && "pl"@[0] == 'p');
    assert("et"@[0] == 'e' && "cs"@[0] == 'c');
    assert("et"@[0] == 'e' && "hu"@[0] == 'h');
    assert("et"@[0] == 'e' && "sk"@[0] == 's');
    assert("et"@[0] == 'e' && "sl"@[0] == 's');
    assert("et"@[0] == 'e' && "ro"@[0] == 'r');
    assert("et"@[0] == 'e' && "bg"@[0] == 'b');
    assert("et"@[0] == 'e' && "hr"@[0] == 'h');
    assert("lv"@[0] == 'l' && "de"@[0] == 'd');
    assert("lv"@[0] == 'l' && "fr"@[0] == 'f');
    assert("lv"@[0] == 'l' && "it"@[0] == 'i');
    assert("lv"@[0] == 'l' && "es"@[0] == 'e');
    assert("lv"@[0] == 'l' && "nl"@[0] == 'n');
    assert("lv"@[0] == 'l' && "pt"@[0] == 'p');
    assert("lv"@[0] == 'l' && "pl"@[0] == 'p');
    assert("lv"@[0] == 'l' && "cs"@[0] == 'c');
    assert("lv"@[0] == 'l' && "hu"@[0] == 'h');
    assert("lv"@[0] == 'l' && "sk"@[0] == 's');
    assert("lv"@[0] == 'l' && "sl"@[0] == 's');
    assert("lv"@[0] == 'l' && "ro"@[0] == 'r');
    assert("lv"@[0] == 'l' && "bg"@[0] == 'b');
    assert("lv"@[0] == 'l' && "hr"@[0] == 'h');
    assert("lv"@[0] == 'l' && "et"@[0] == 'e');
    assert("lt"@[0] == 'l' && "de"@[0] == 'd');
    assert("lt"@[0] == 'l' && "fr"@[0] == 'f');
    assert("lt"@[0] == 'l' && "it"@[0] == 'i');
    assert("lt"@[0] == 'l' && "es"@[0] == 'e');
    assert("lt"@[0] == 'l' && "nl"@[0] == 'n');
    assert("lt"@[0] == 'l' && "pt"@[0] == 'p');
    assert("lt"@[0] == 'l' && "pl"@[0] == 'p');
    assert("lt"@[0] == 'l' && "cs"@[0] == 'c');
    assert("lt"@[0] == 'l' && "hu"@[0] == 'h');
    assert("lt"@[0] == 'l' && "sk"@[0] == 's');
    assert("lt"@[0] == 'l' && "sl"@[0] == 's');
    assert("lt"@[0] == 'l' && "ro"@[0] == 'r');
    assert("lt"@[0] == 'l' && "bg"@[0] == 'b');
    assert("lt"@[0] == 'l' && "hr"@[0] == 'h');
    assert("lt"@[0] == 'l' && "et"@[0] == 'e');
    assert("lt"@[1] == 't' && "lv"@[1] == 'v');
    assert("fi"@[0] == 'f' && "de"@[0] == 'd');
    assert("fi"@[1] == 'i' && "fr"@[1] == 'r');
    assert("fi"@[0] == 'f' && "it"@[0] == 'i');
    assert("fi"@[0] == 'f' && "es"@[0] == 'e');
    assert("fi"@[0] == 'f' && "nl"@[0] == 'n');
    assert("fi"@[0] == 'f' && "pt"@[0] == 'p');
    assert("fi"@[0] == 'f' && "pl"@[0] == 'p');
    assert("fi"@[0] == 'f' && "cs"@[0] == 'c');
    assert("fi"@[0] == 'f' && "hu"@[0] == 'h');
    assert("fi"@[0] == 'f' && "sk"@[0] == 's');
    assert("fi"@[0] == 'f' && "sl"@[0] == 's');
    assert("fi"@[0] == 'f' && "ro"@[0] == 'r');
    assert("fi"@[0] == 'f' && "bg"@[0] == 'b');
    assert("fi"@[0] == 'f' && "hr"@[0] == 'h');
    assert("fi"@[0] == 'f' && "et"@[0] == 'e');
    assert("fi"@[0] == 'f' && "lv"@[0] == 'l');
    assert("fi"@[0] == 'f' && "lt"@[0] == 'l');
    assert("sv"@[0] == 's' && "de"@[0] == 'd');
    assert("sv"@[0] == 's' && "fr"@[0] == 'f');
    assert("sv"@[0] == 's' && "it"@[0] == 'i');
    assert("sv"@[0] == 's' && "es"@[0] == 'e');
    assert("sv"@[0] == 's' && "nl"@[0] == 'n');
    assert("sv"@[0] == 's' && "pt"@[0] == 'p');
    assert("sv"@[0] == 's' && "pl"@[0] == 'p');
    assert("sv"@[0] == 's' && "cs"@[0] == 'c');
    assert("sv"@[0] == 's' && "hu"@[0] == 'h');
    assert("sv"@[1] == 'v' && "sk"@[1] == 'k');
    assert("sv"@[1] == 'v' && "sl"@[1] == 'l');
    assert("sv"@[0] == 's' && "ro"@[0] == 'r');
    assert("sv"@[0] == 's' && "bg"@[0] == 'b');
    assert("sv"@[0] == 's' && "hr"@[0] == 'h');
    assert("sv"@[0] == 's' && "et"@[0] == 'e');
    assert("sv"@[0] == 's' && "lv"@[0] == 'l');
    assert("sv"@[0] == 's' && "lt"@[0] == 'l');
    assert("sv"@[0] == 's' && "fi"@[0] == 'f');
    assert("no"@[0] == 'n' && "de"@[0] == 'd');
    assert("no"@[0] == 'n' && "fr"@[0] == 'f');
    assert("no"@[0] == 'n' && "it"@[0] == 'i');
    assert("no"@[0] == 'n' && "es"@[0] == 'e');
    assert("no"@[1] == 'o' && "nl"@[1] == 'l');
    assert("no"@[0] == 'n' && "pt"@[0] == 'p');
    assert("no"@[0] == 'n' && "pl"@[0] == 'p');
    assert("no"@[0] == 'n' && "cs"@[0] == 'c');
    assert("no"@[0] == 'n' && "hu"@[0] == 'h');
    assert("no"@[0] == 'n' && "sk"@[0] == 's');
    assert("no"@[0] == 'n' && "sl"@[0] == 's');
    assert("no"@[0] == 'n' && "ro"@[0] == 'r');
    assert("no"@[0] == 'n' && "bg"@[0] == 'b');
    assert("no"@[0] == 'n' && "hr"@[0] == 'h');
    assert("no"@[0] == 'n' && "et"@[0] == 'e');
    assert("no"@[0] == 'n' && "lv"@[0] == 'l');
    assert("no"@[0] == 'n' && "lt"@[0] == 'l');
    assert("no"@[0] == 'n' && "fi"@[0] == 'f');
    assert("no"@[0] == 'n' && "sv"@[0] == 's');
    assert("da"@[1] == 'a' && "de"@[1] == 'e');
    assert("da"@[0] == 'd' && "fr"@[0] == 'f');
    assert("da"@[0] == 'd' && "it"@[0] == 'i');
    assert("da"@[0] == 'd' && "es"@[0] == 'e');
    assert("da"@[0] == 'd' && "nl"@[0] == 'n');
    assert("da"@[0] == 'd' && "pt"@[0] == 'p');
    assert("da"@[0] == 'd' && "pl"@[0] == 'p');
    assert("da"@[0] == 'd' && "cs"@[0] == 'c');
    assert("da"@[0] == 'd' && "hu"@[0] == 'h');
    assert("da"@[0] == 'd' && "sk"@[0] == 's');
    assert("da"@[0] == 'd' && "sl"@[0] == 's');
    assert("da"@[0] == 'd' && "ro"@[0] == 'r');
    assert("da"@[0] == 'd' && "bg"@[0] == 'b');
    assert("da"@[0] == 'd' && "hr"@[0] == 'h');
    assert("da"@[0] == 'd' && "et"@[0] == 'e');
    assert("da"@[0] == 'd' && "lv"@[0] == 'l');
    assert("da"@[0] == 'd' && "lt"@[0] == 'l');
    assert("da"@[0] == 'd' && "fi"@[0] == 'f');
    assert("da"@[0] == 'd' && "sv"@[0] == 's');
    assert("da"@[0] == 'd' && "no"@[0] == 'n');
    assert("el"@[0] == 'e' && "de"@[0] == 'd');
    assert("el"@[0] == 'e' && "fr"@[0] == 'f');
    assert("el"@[0] == 'e' && "it"@[0] == 'i');
    assert("el"@[1] == 'l' && "es"@[1] == 's');
    assert("el"@[0] == 'e' && "nl"@[0] == 'n');
    assert("el"@[0] == 'e' && "pt"@[0] == 'p');
    assert("el"@[0] == 'e' && "pl"@[0] == 'p');
    assert("el"@[0] == 'e' && "cs"@[0] == 'c');
    assert("el"@[0] == 'e' && "hu"@[0] == 'h');
    assert("el"@[0] == 'e' && "sk"@[0] == 's');
    assert("el"@[0] == 'e' && "sl"@[0] == 's');
    assert("el"@[0] == 'e' && "ro"@[0] == 'r');
    assert("el"@[0] == 'e' && "bg"@[0] == 'b');
    assert("el"@[0] == 'e' && "hr"@[0] == 'h');
    assert("el"@[1] == 'l' && "et"@[1] == 't');
    assert("el"@[0] == 'e' && "lv"@[0] == 'l');
    assert("el"@[0] == 'e' && "lt"@[0] == 'l');
    assert("el"@[0] == 'e' && "fi"@[0] == 'f');
    assert("el"@[0] == 'e' && "sv"@[0] == 's');
    assert("el"@[0] == 'e' && "no"@[0] == 'n');
    assert("el"@[0] == 'e' && "da"@[0] == 'd');
    assert("tr"@[0] == 't' && "de"@[0] == 'd');
    assert("tr"@[0] == 't' && "fr"@[0] == 'f');
    assert("tr"@[0] == 't' && "it"@[0] == 'i');
    assert("tr"@[0] == 't' && "es"@[0] == 'e');
    assert("tr"@[0] == 't' && "nl"@[0] == 'n');
    assert("tr"@[0] == 't' && "pt"@[0] == 'p');
    assert("tr"@[0] == 't' && "pl"@[0] == 'p');
    assert("tr"@[0] == 't' && "cs"@[0] == 'c');
    assert("tr"@[0] == 't' && "hu"@[0] == 'h');
    assert("tr"@[0] == 't' && "sk"@[0] == 's');
    assert("tr"@[0] == 't' && "sl"@[0] == 's');
    assert("tr"@[0] == 't' && "ro"@[0] == 'r');
    assert("tr"@[0] == 't' && "bg"@[0] == 'b');
    assert("tr"@[0] == 't' && "hr"@[0] == 'h');
    assert("tr"@[0] == 't' && "et"@[0] == 'e');
    assert("tr"@[0] == 't' && "lv"@[0] == 'l');
    assert("tr"@[0] == 't' && "lt"@[0] == 'l');
    assert("tr"@[0] == 't' && "fi"@[0] == 'f');
    assert("tr"@[0] == 't' && "sv"@[0] == 's');
    assert("tr"@[0] == 't' && "no"@[0] == 'n');
    assert("tr"@[0] == 't' && "da"@[0] == 'd');
    assert("tr"@[0] == 't' && "el"@[0] == 'e');
    assert("ru"@[0] == 'r' && "de"@[0] == 'd');
    assert("ru"@[0] == 'r' && "fr"@[0] == 'f');
    assert("ru"@[0] == 'r' && "it"@[0] == 'i');
    assert("ru"@[0] == 'r' && "es"@[0] == 'e');
    assert("ru"@[0] == 'r' && "nl"@[0] == 'n');
    assert("ru"@[0] == 'r' && "pt"@[0] == 'p');
    assert("ru"@[0] == 'r' && "pl"@[0] == 'p');
    assert("ru"@[0] == 'r' && "cs"@[0] == 'c');
    assert("ru"@[0] == 'r' && "hu"@[0] == 'h');
    assert("ru"@[0] == 'r' && "sk"@[0] == 's');
    assert("ru"@[0] == 'r' && "sl"@[0] == 's');
    assert("ru"@[1] == 'u' && "ro"@[1] == 'o');
    assert("ru"@[0] == 'r' && "bg"@[0] == 'b');
    assert("ru"@[0] == 'r' && "hr"@[0] == 'h');
    assert("ru"@[0] == 'r' && "et"@[0] == 'e');
    assert("ru"@[0] == 'r' && "lv"@[0] == 'l');
    assert("ru"@[0] == 'r' && "lt"@[0] == 'l');
    assert("ru"@[0] == 'r' && "fi"@[0] == 'f');
    assert("ru"@[0] == 'r' && "sv"@[0] == 's');
    assert("ru"@[0] == 'r' && "no"@[0] == 'n');
    assert("ru"@[0] == 'r' && "da"@[0] == 'd');
    assert("ru"@[0] == 'r' && "el"@[0] == 'e');
    assert("ru"@[0] == 'r' && "tr"@[0] == 't');
    assert("en"@[0] == 'e' && "de"@[0] == 'd');
    assert("en"@[0] == 'e' && "fr"@[0] == 'f');
    assert("en"@[0] == 'e' && "it"@[0] == 'i');
    assert("en"@[1] == 'n' && "es"@[1] == 's');
    assert("en"@[0] == 'e' && "nl"@[0] == 'n');
    assert("en"@[0] == 'e' && "pt"@[0] == 'p');
    assert("en"@[0] == 'e' && "pl"@[0] == 'p');
    assert("en"@[0] == 'e' && "cs"@[0] == 'c');
    assert("en"@[0] == 'e' && "hu"@[0] == 'h');
    assert("en"@[0] == 'e' && "sk"@[0] == 's');
    assert("en"@[0] == 'e' && "sl"@[0] == 's');
    assert("en"@[0] == 'e' && "ro"@[0] == 'r');
    assert("en"@[0] == 'e' && "bg"@[0] == 'b');
    assert("en"@[0] == 'e' && "hr"@[0] == 'h');
    assert("en"@[1] == 'n' && "et"@[1] == 't');
    assert("en"@[0] == 'e' && "lv"@[0] == 'l');
    assert("en"@[0] == 'e' && "lt"@[0] == 'l');
    assert("en"@[0] == 'e' && "fi"@[0] == 'f');
    assert("en"@[0] == 'e' && "sv"@[0] == 's');
    assert("en"@[0] == 'e' && "no"@[0] == 'n');
    assert("en"@[0] == 'e' && "da"@[0] == 'd');
    assert("en"@[1] == 'n' && "el"@[1] == 'l');
    assert("en"@[0] == 'e' && "tr"@[0] == 't');
    assert("en"@[0] == 'e' && "ru"@[0] == 'r');
}

/// Detection follows the Windows primary language (the low ten bits of the UI
/// language id), whatever the sublanguage: 0x07 German, 0x0C French, 0x10 Italian, 0x0A Spanish, 0x13 Dutch, 0x16 Portuguese, 0x15 Polish, 0x05 Czech, 0x0E Hungarian, 0x1B Slovak, 0x24 Slovenian, 0x18 Romanian, 0x02 Bulgarian, 0x1A Croatian, 0x25 Estonian, 0x26 Latvian, 0x27 Lithuanian, 0x0B Finnish, 0x1D Swedish, 0x14 Norwegian, 0x06 Danish, 0x08 Greek, 0x09 English, 0x1F Turkish, 0x19 Russian each give the code of that
/// language and select its table; every other primary language gives English.
pub proof fn law_detection_by_primary_language(langid: u16)
    ensures
        ({
            let primary = langid & 0x3FF;
            let detected = code_for_langid(langid);
            &&& primary == 0x07 ==> detected == "de"@ && language_of_code(detected) == Language::De
            &&& primary == 0x0C ==> detected == "fr"@ && language_of_code(detected) == Language::Fr
            &&& primary == 0x10 ==> detected == "it"@ && language_of_code(detected) == Language::It
            &&& primary == 0x0A ==> detected == "es"@ && language_of_code(detected) == Language::Es
            &&& primary == 0x13 ==> detected == "nl"@ && language_of_code(detected) == Language::Nl
            &&& primary == 0x16 ==> detected == "pt"@ && language_of_code(detected) == Language::Pt
            &&& primary == 0x15 ==> detected == "pl"@ && language_of_code(detected) == Language::Pl
            &&& primary == 0x05 ==> detected == "cs"@ && language_of_code(detected) == Language::Cs
            &&& primary == 0x0E ==> detected == "hu"@ && language_of_code(detected) == Language::Hu
            &&& primary == 0x1B ==> detected == "sk"@ && language_of_code(detected) == Language::Sk
            &&& primary == 0x24 ==> detected == "sl"@ && language_of_code(detected) == Language::Sl
            &&& primary == 0x18 ==> detected == "ro"@ && language_of_code(detected) == Language::Ro
            &&& primary == 0x02 ==> detected == "bg"@ && language_of_code(detected) == Language::Bg
            &&& primary == 0x1A ==> detected == "hr"@ && language_of_code(detected) == Language::Hr
            &&& primary == 0x25 ==> detected == "et"@ && language_of_code(detected) == Language::Et
            &&& primary == 0x26 ==> detected == "lv"@ && language_of_code(detected) == Language::Lv
            &&& primary == 0x27 ==> detected == "lt"@ && language_of_code(detected) == Language::Lt
            &&& primary == 0x0B ==> detected == "fi"@ && language_of_code(detected) == Language::Fi
            &&& primary == 0x1D ==> detected == "sv"@ && language_of_code(detected) == Language::Sv
            &&& primary == 0x14 ==> detected == "no"@ && language_of_code(detected) == Language::No
            &&& primary == 0x06 ==> detected == "da"@ && language_of_code(detected) == Language::Da
            &&& primary == 0x08 ==> detected == "el"@ && language_of_code(detected) == Language::El
            &&& primary == 0x09 ==> detected == "en"@ && language_of_code(detected) == Language::En
            &&& primary == 0x1F ==> detected == "tr"@ && language_of_code(detected) == Language::Tr
            &&& primary == 0x19 ==> detected == "ru"@ && language_of_code(detected) == Language::Ru
            &&& (primary != 0x07 && primary != 0x0C && primary != 0x10 && primary != 0x0A && primary != 0x13 && primary != 0x16 && primary != 0x15 && primary != 0x05 && primary != 0x0E && primary != 0x1B && primary != 0x24 && primary != 0x18 && primary != 0x02 && primary != 0x1A && primary != 0x25 && primary != 0x26 && primary != 0x27 && primary != 0x0B && primary != 0x1D && primary != 0x14 && primary != 0x06 && primary != 0x08 && primary != 0x09 && primary != 0x1F && primary != 0x19) ==> detected == "en"@
        }),
{
    lemma_codes_select_their_language();
    reveal_strlit("en");
    reveal_strlit("de");
    reveal_strlit("fr");
    reveal_strlit("it");
    reveal_strlit("es");
    reveal_strlit("nl");
    reveal_strlit("pt");
    reveal_strlit("pl");
    reveal_strlit("cs");
    reveal_strlit("hu");
    reveal_strlit("sk");
    reveal_strlit("sl");
    reveal_strlit("ro");
    reveal_strlit("bg");
    reveal_strlit("hr");
    reveal_strlit("et");
    reveal_strlit("lv");
    reveal_strlit("lt");
    reveal_strlit("fi");
    reveal_strlit("sv");
    reveal_strlit("no");
    reveal_strlit("da");
    reveal_strlit("el");
    reveal_strlit("tr");
    reveal_strlit("ru");
}

/// Every code that language detection can produce has a table of its own: the
/// table it selects belongs to that very code.
pub proof fn law_detected_code_has_own_table(langid: u16)
    ensures
        code_of(language_of_code(code_for_langid(langid))) == code_for_langid(langid),
{
    reveal_strlit("en");
    reveal_strlit("de");
    reveal_strlit("fr");
    reveal_strlit("it");
    reveal_strlit("es");
    reveal_strlit("nl");
    reveal_strlit("pt");
    reveal_strlit("pl");
    reveal_strlit("cs");
    reveal_strlit("hu");
    reveal_strlit("sk");
    reveal_strlit("sl");
    reveal_strlit("ro");
    reveal_strlit("bg");
    reveal_strlit("hr");
    reveal_strlit("et");
    reveal_strlit("lv");
    reveal_strlit("lt");
    reveal_strlit("fi");
    reveal_strlit("sv");
    reveal_strlit("no");
    reveal_strlit("da");
    reveal_strlit("el");
    reveal_strlit("tr");
    reveal_strlit("ru");
}

} // verus!
