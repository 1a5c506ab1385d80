//! Languages, the texts in them, and the settings that are kept.

use crate::digits;
use crate::parts;
use crate::text;
use strings::Strings;
use vstd::prelude::*;

pub mod round_trip;
pub mod settings;
pub mod strings;
pub mod tables;

verus! {

/// A language of the interface.
#[derive(Clone, Copy, PartialEq, Eq, Structural, Debug)]
pub enum Lang {
    En,
    Fr,
    Es,
    Ru,
    De,
    It,
    Pt,
    Zh,
    Tr,
}

/// The languages of the picker, in its order.
pub const PICKER_LANGS: [Lang; 9] = [
    Lang::En,
    Lang::Fr,
    Lang::Es,
    Lang::Ru,
    Lang::De,
    Lang::It,
    Lang::Pt,
    Lang::Zh,
    Lang::Tr,
];

/// The place of a language in the picker.
pub open spec fn lang_index(l: Lang) -> int {
    match l {
        Lang::En => 0,
        Lang::Fr => 1,
        Lang::Es => 2,
        Lang::Ru => 3,
        Lang::De => 4,
        Lang::It => 5,
        Lang::Pt => 6,
        Lang::Zh => 7,
        Lang::Tr => 8,
    }
}

/// The language at a place of the picker; English for any other number.
pub open spec fn lang_at(i: int) -> Lang {
    if i == 1 {
        Lang::Fr
    }     else if i == 2 {
        Lang::Es
    }     else if i == 3 {
        Lang::Ru
    }     else if i == 4 {
        Lang::De
    }     else if i == 5 {
        Lang::It
    }     else if i == 6 {
        Lang::Pt
    }     else if i == 7 {
        Lang::Zh
    }     else if i == 8 {
        Lang::Tr
    } else {
        Lang::En
    }
}

/// The two-letter code of a language.
pub open spec fn lang_code(l: Lang) -> Seq<char> {
    match l {
        Lang::En => "en"@,
        Lang::Fr => "fr"@,
        Lang::Es => "es"@,
        Lang::Ru => "ru"@,
        Lang::De => "de"@,
        Lang::It => "it"@,
        Lang::Pt => "pt"@,
        Lang::Zh => "zh"@,
        Lang::Tr => "tr"@,
    }
}

/// The language of a two-letter code.
pub open spec fn code_lang(c: Seq<char>) -> Option<Lang> {
    if c == "en"@ {
        Some(Lang::En)
    }     else if c == "fr"@ {
        Some(Lang::Fr)
    }     else if c == "es"@ {
        Some(Lang::Es)
    }     else if c == "ru"@ {
        Some(Lang::Ru)
    }     else if c == "de"@ {
        Some(Lang::De)
    }     else if c == "it"@ {
        Some(Lang::It)
    }     else if c == "pt"@ {
        Some(Lang::Pt)
    }     else if c == "zh"@ {
        Some(Lang::Zh)
    }     else if c == "tr"@ {
        Some(Lang::Tr)
    } else {
        None
    }
}

/// The language in its own words.
pub open spec fn lang_name(l: Lang) -> Seq<char> {
    match l {
        Lang::En => "ENGLISH"@,
        Lang::Fr => "FRAN\u{00C7}AIS"@,
        Lang::Es => "ESPA\u{00D1}OL"@,
        Lang::Ru => "\u{0420}\u{0423}\u{0421}\u{0421}\u{041A}\u{0418}\u{0419}"@,
        Lang::De => "DEUTSCH"@,
        Lang::It => "ITALIANO"@,
        Lang::Pt => "PORTUGU\u{00CA}S"@,
        Lang::Zh => "\u{4E2D}\u{6587}"@,
        Lang::Tr => "T\u{00DC}RK\u{00C7}E"@,
    }
}

/// The name of a language in the picker.
pub open spec fn picker_label(l: Lang, cjk_possible: bool) -> Seq<char> {
    if l == Lang::Zh && !cjk_possible {
        "CHINESE (NEEDS MORE MEMORY)"@
    } else {
        lang_name(l)
    }
}

impl Lang {
    /// Are the texts drawn from the system font? The bitmap font has no Chinese.
    pub fn needs_cjk(self) -> (r: bool)
        ensures
            r == (self == Lang::Zh),
    {
        matches!(self, Lang::Zh)
    }

    /// The place of the language in the picker.
    pub fn index(self) -> (r: usize)
        ensures
            r == lang_index(self),
            r < 9,
    {
        match self {
            Lang::En => 0,
            Lang::Fr => 1,
            Lang::Es => 2,
            Lang::Ru => 3,
            Lang::De => 4,
            Lang::It => 5,
            Lang::Pt => 6,
            Lang::Zh => 7,
            Lang::Tr => 8,
        }
    }

    /// The language at a place of the picker; English for any other number.
    pub fn from_index(i: usize) -> (r: Lang)
        ensures
            r == lang_at(i as int),
    {
        match i {
            1 => Lang::Fr,
            2 => Lang::Es,
            3 => Lang::Ru,
            4 => Lang::De,
            5 => Lang::It,
            6 => Lang::Pt,
            7 => Lang::Zh,
            8 => Lang::Tr,
            _ => Lang::En,
        }
    }

    /// The two-letter code of the language.
    pub fn code(self) -> (r: &'static str)
        ensures
            r@ == lang_code(self),
    {
        match self {
            Lang::En => "en",
            Lang::Fr => "fr",
            Lang::Es => "es",
            Lang::Ru => "ru",
            Lang::De => "de",
            Lang::It => "it",
            Lang::Pt => "pt",
            Lang::Zh => "zh",
            Lang::Tr => "tr",
        }
    }

    /// The language of a two-letter code.
    pub fn from_code(s: &str) -> (r: Option<Lang>)
        ensures
            r == code_lang(s@),
    {
        if text::str_eq(s, "en") {
            Some(Lang::En)
        }         else if text::str_eq(s, "fr") {
            Some(Lang::Fr)
        }         else if text::str_eq(s, "es") {
            Some(Lang::Es)
        }         else if text::str_eq(s, "ru") {
            Some(Lang::Ru)
        }         else if text::str_eq(s, "de") {
            Some(Lang::De)
        }         else if text::str_eq(s, "it") {
            Some(Lang::It)
        }         else if text::str_eq(s, "pt") {
            Some(Lang::Pt)
        }         else if text::str_eq(s, "zh") {
            Some(Lang::Zh)
        }         else if text::str_eq(s, "tr") {
            Some(Lang::Tr)
        } else {
            None
        }
    }

    /// The name in the picker: a Latin label where the system font cannot be
    /// had, since the language's own name would stay blank.
    pub fn picker_name(self, cjk_possible: bool) -> (r: &'static str)
        ensures
            r@ == picker_label(self, cjk_possible),
    {
        if self.needs_cjk() && !cjk_possible {
            return "CHINESE (NEEDS MORE MEMORY)";
        }
        self.native_name()
    }

    /// The language in its own words.
    pub fn native_name(self) -> (r: &'static str)
        ensures
            r@ == lang_name(self),
    {
        match self {
            Lang::En => "ENGLISH",
            Lang::Fr => "FRAN\u{00C7}AIS",
            Lang::Es => "ESPA\u{00D1}OL",
            Lang::Ru => "\u{0420}\u{0423}\u{0421}\u{0421}\u{041A}\u{0418}\u{0419}",
            Lang::De => "DEUTSCH",
            Lang::It => "ITALIANO",
            Lang::Pt => "PORTUGU\u{00CA}S",
            Lang::Zh => "\u{4E2D}\u{6587}",
            Lang::Tr => "T\u{00DC}RK\u{00C7}E",
        }
    }
}

/// A language is found again at its place in the picker.
pub proof fn index_round_trip(l: Lang)
    ensures
        lang_at(lang_index(l)) == l,
        0 <= lang_index(l) < 9,
        PICKER_LANGS@[lang_index(l)] == l,
{
}

/// A language is found again by its code.
pub proof fn code_round_trip(l: Lang)
    ensures
        code_lang(lang_code(l)) == Some(l),
        lang_code(l).len() == 2,
{
    reveal_strlit("en");
    reveal_strlit("fr");
    reveal_strlit("es");
    reveal_strlit("ru");
    reveal_strlit("de");
    reveal_strlit("it");
    reveal_strlit("pt");
    reveal_strlit("zh");
    reveal_strlit("tr");
    match l {
        Lang::En => {
        },
        Lang::Fr => {
            assert("fr"@[0] != "en"@[0]);
        },
        Lang::Es => {
            assert("es"@[1] != "en"@[1]);
            assert("es"@[0] != "fr"@[0]);
        },
        Lang::Ru => {
            assert("ru"@[0] != "en"@[0]);
            assert("ru"@[0] != "fr"@[0]);
            assert("ru"@[0] != "es"@[0]);
        },
        Lang::De => {
            assert("de"@[0] != "en"@[0]);
            assert("de"@[0] != "fr"@[0]);
            assert("de"@[0] != "es"@[0]);
            assert("de"@[0] != "ru"@[0]);
        },
        Lang::It => {
            assert("it"@[0] != "en"@[0]);
            assert("it"@[0] != "fr"@[0]);
            assert("it"@[0] != "es"@[0]);
            assert("it"@[0] != "ru"@[0]);
            assert("it"@[0] != "de"@[0]);
        },
        Lang::Pt => {
            assert("pt"@[0] != "en"@[0]);
            assert("pt"@[0] != "fr"@[0]);
            assert("pt"@[0] != "es"@[0]);
            assert("pt"@[0] != "ru"@[0]);
            assert("pt"@[0] != "de"@[0]);
            assert("pt"@[0] != "it"@[0]);
        },
        Lang::Zh => {
            assert("zh"@[0] != "en"@[0]);
            assert("zh"@[0] != "fr"@[0]);
            assert("zh"@[0] != "es"@[0]);
            assert("zh"@[0] != "ru"@[0]);
            assert("zh"@[0] != "de"@[0]);
            assert("zh"@[0] != "it"@[0]);
            assert("zh"@[0] != "pt"@[0]);
        },
        Lang::Tr => {
            assert("tr"@[0] != "en"@[0]);
            assert("tr"@[0] != "fr"@[0]);
            assert("tr"@[0] != "es"@[0]);
            assert("tr"@[0] != "ru"@[0]);
            assert("tr"@[0] != "de"@[0]);
            assert("tr"@[0] != "it"@[0]);
            assert("tr"@[0] != "pt"@[0]);
            assert("tr"@[0] != "zh"@[0]);
        },
    }
}

/// The texts of a language.
#[verifier::opaque]
pub open spec fn table_of(l: Lang) -> Strings {
    strings::named(lang_index(l))
}

/// The texts of a language.
pub fn texts_of(l: Lang) -> (r: Strings)
    ensures
        r == table_of(l),
{
    proof {
        reveal(table_of);
    }
    strings::by_number(l.index())
}

// ── Texts with a number or a detail in them ────────────────────────────────

/// A template with `arg` in the place of its first `{}`.
pub open spec fn filled_in(template: Seq<char>, arg: Seq<char>) -> Seq<char> {
    match text::find_of(template, "{}"@) {
        Some(i) => template.take(i) + arg + template.skip(i + 2),
        None => template,
    }
}

/// A template with `arg` in the place of its first `{}`.
pub(crate) fn fill(template: &str, arg: &str) -> (r: String)
    ensures
        r@ == filled_in(template@, arg@),
{
    proof {
        reveal_strlit("{}");
    }
    match parts::split_once(template, "{}") {
        Some((a, b)) => parts::concat3(a.as_str(), arg, b.as_str()),
        None => template.to_owned(),
    }
}

/// A signed number in decimal digits.
pub open spec fn signed(n: int) -> Seq<char> {
    if n < 0 {
        "-"@ + digits::decimal((-n) as nat)
    } else {
        digits::decimal(n as nat)
    }
}

/// A signed number in decimal digits.
pub(crate) fn signed_text(n: i64) -> (r: String)
    ensures
        r@ == signed(n as int),
{
    if n < 0 {
        let magnitude: u64 = ((-(n as i128)) as u64);
        let d: String = digits::dec(magnitude);
        parts::concat("-", d.as_str())
    } else {
        digits::dec(n as u64)
    }
}

/// How many games there are, with the plural of each language.
pub open spec fn games_text(l: Lang, n: nat) -> Seq<char> {
    match l {
        Lang::En => if n == 1 {
            "1 GAME"@
        } else {
            digits::decimal(n) + " GAMES"@
        },
        Lang::Fr => if n <= 1 {
            digits::decimal(n) + " JEU"@
        } else {
            digits::decimal(n) + " JEUX"@
        },
        Lang::Es => if n == 1 {
            "1 JUEGO"@
        } else {
            digits::decimal(n) + " JUEGOS"@
        },
        Lang::Ru => "ИГР: "@ + digits::decimal(n),
        Lang::De => if n == 1 {
            "1 SPIEL"@
        } else {
            digits::decimal(n) + " SPIELE"@
        },
        Lang::It => if n == 1 {
            "1 GIOCO"@
        } else {
            digits::decimal(n) + " GIOCHI"@
        },
        Lang::Pt => if n == 1 {
            "1 JOGO"@
        } else {
            digits::decimal(n) + " JOGOS"@
        },
        Lang::Zh => "\u{6E38}\u{620F}: "@ + digits::decimal(n),
        Lang::Tr => digits::decimal(n) + " OYUN"@,
    }
}

/// How many games there are, with the plural of each language.
pub(crate) fn games_in(l: Lang, n: usize) -> (r: String)
    ensures
        r@ == games_text(l, n as nat),
{
    let d: String = digits::dec(n as u64);
    match l {
        Lang::En => if n == 1 {
            "1 GAME".to_owned()
        } else {
            parts::concat(d.as_str(), " GAMES")
        },
        Lang::Fr => if n <= 1 {
            parts::concat(d.as_str(), " JEU")
        } else {
            parts::concat(d.as_str(), " JEUX")
        },
        Lang::Es => if n == 1 {
            "1 JUEGO".to_owned()
        } else {
            parts::concat(d.as_str(), " JUEGOS")
        },
        Lang::Ru => parts::concat("ИГР: ", d.as_str()),
        Lang::De => if n == 1 {
            "1 SPIEL".to_owned()
        } else {
            parts::concat(d.as_str(), " SPIELE")
        },
        Lang::It => if n == 1 {
            "1 GIOCO".to_owned()
        } else {
            parts::concat(d.as_str(), " GIOCHI")
        },
        Lang::Pt => if n == 1 {
            "1 JOGO".to_owned()
        } else {
            parts::concat(d.as_str(), " JOGOS")
        },
        Lang::Zh => parts::concat("\u{6E38}\u{620F}: ", d.as_str()),
        Lang::Tr => parts::concat(d.as_str(), " OYUN"),
    }
}

/// How many files were found, with the plural of each language.
pub open spec fn files_text(l: Lang, n: nat) -> Seq<char> {
    match l {
        Lang::En => if n == 1 {
            "1 .SWF FILE FOUND"@
        } else {
            digits::decimal(n) + " .SWF FILES FOUND"@
        },
        Lang::Fr => if n <= 1 {
            digits::decimal(n) + " FICHIER .SWF TROUV\u{00C9}"@
        } else {
            digits::decimal(n) + " FICHIERS .SWF TROUV\u{00C9}S"@
        },
        Lang::Es => if n == 1 {
            "1 ARCHIVO .SWF ENCONTRADO"@
        } else {
            digits::decimal(n) + " ARCHIVOS .SWF ENCONTRADOS"@
        },
        Lang::Ru => "НАЙДЕНО ФАЙЛОВ .SWF: "@ + digits::decimal(n),
        Lang::De => if n == 1 {
            "1 .SWF-DATEI GEFUNDEN"@
        } else {
            digits::decimal(n) + " .SWF-DATEIEN GEFUNDEN"@
        },
        Lang::It => if n == 1 {
            "1 FILE .SWF TROVATO"@
        } else {
            digits::decimal(n) + " FILE .SWF TROVATI"@
        },
        Lang::Pt => if n == 1 {
            "1 ARQUIVO .SWF ENCONTRADO"@
        } else {
            digits::decimal(n) + " ARQUIVOS .SWF ENCONTRADOS"@
        },
        Lang::Zh => "\u{627E}\u{5230} .SWF \u{6587}\u{4EF6}: "@ + digits::decimal(n),
        Lang::Tr => digits::decimal(n) + " .SWF DOSYASI BULUNDU"@,
    }
}

/// How many files were found, with the plural of each language.
pub(crate) fn files_in(l: Lang, n: usize) -> (r: String)
    ensures
        r@ == files_text(l, n as nat),
{
    let d: String = digits::dec(n as u64);
    match l {
        Lang::En => if n == 1 {
            "1 .SWF FILE FOUND".to_owned()
        } else {
            parts::concat(d.as_str(), " .SWF FILES FOUND")
        },
        Lang::Fr => if n <= 1 {
            parts::concat(d.as_str(), " FICHIER .SWF TROUV\u{00C9}")
        } else {
            parts::concat(d.as_str(), " FICHIERS .SWF TROUV\u{00C9}S")
        },
        Lang::Es => if n == 1 {
            "1 ARCHIVO .SWF ENCONTRADO".to_owned()
        } else {
            parts::concat(d.as_str(), " ARCHIVOS .SWF ENCONTRADOS")
        },
        Lang::Ru => parts::concat("НАЙДЕНО ФАЙЛОВ .SWF: ", d.as_str()),
        Lang::De => if n == 1 {
            "1 .SWF-DATEI GEFUNDEN".to_owned()
        } else {
            parts::concat(d.as_str(), " .SWF-DATEIEN GEFUNDEN")
        },
        Lang::It => if n == 1 {
            "1 FILE .SWF TROVATO".to_owned()
        } else {
            parts::concat(d.as_str(), " FILE .SWF TROVATI")
        },
        Lang::Pt => if n == 1 {
            "1 ARQUIVO .SWF ENCONTRADO".to_owned()
        } else {
            parts::concat(d.as_str(), " ARQUIVOS .SWF ENCONTRADOS")
        },
        Lang::Zh => parts::concat("\u{627E}\u{5230} .SWF \u{6587}\u{4EF6}: ", d.as_str()),
        Lang::Tr => parts::concat(d.as_str(), " .SWF DOSYASI BULUNDU"),
    }
}

// ── The settings in use ────────────────────────────────────────────────────

/// The layouts of the home tab.
pub const HOME_VIEW_COUNT: u8 = 4;

/// The choices that are kept from one start to the next.
#[derive(Clone, Copy, PartialEq, Eq, Structural, Debug)]
pub struct Settings {
    pub lang: Lang,
    pub covers_online: bool,
    pub display_mode: u8,
    pub screen_filter: u8,
    pub home_view: u8,
}

impl Settings {
    /// The settings of a first start.
    pub fn new() -> (r: Settings)
        ensures
            r == (Settings {
                lang: Lang::En,
                covers_online: false,
                display_mode: 0,
                screen_filter: 0,
                home_view: 0,
            }),
    {
        Settings {
            lang: Lang::En,
            covers_online: false,
            display_mode: 0,
            screen_filter: 0,
            home_view: 0,
        }
    }
}

/// The language in use.
pub fn current(st: &Settings) -> (r: Lang)
    ensures
        r == st.lang,
{
    st.lang
}

/// The language that choosing `l` leads to: English where `l` could not be drawn.
pub open spec fn usable(l: Lang, cjk_possible: bool) -> Lang {
    if l == Lang::Zh && !cjk_possible {
        Lang::En
    } else {
        l
    }
}

/// Takes a language into use.
pub fn set(st: &mut Settings, lang: Lang, cjk_possible: bool)
    ensures
        *final(st) == (Settings { lang: usable(lang, cjk_possible), ..*old(st) }),
{
    st.lang = if lang.needs_cjk() && !cjk_possible {
        Lang::En
    } else {
        lang
    };
}

/// May covers be fetched? Always; the kept flag has no say.
pub fn covers_online(_st: &Settings) -> (r: bool)
    ensures
        r,
{
    true
}

/// Keeps the covers flag.
pub fn set_covers_online(st: &mut Settings, v: bool)
    ensures
        *final(st) == (Settings { covers_online: v, ..*old(st) }),
{
    st.covers_online = v;
}

/// The layout of the home tab: 0 grid, 1 list, 2 strip, 3 shelf.
pub fn home_view(st: &Settings) -> (r: u8)
    ensures
        r == st.home_view % HOME_VIEW_COUNT,
        r < HOME_VIEW_COUNT,
{
    st.home_view % HOME_VIEW_COUNT
}

/// Chooses the layout of the home tab.
pub fn set_home_view(st: &mut Settings, v: u8)
    ensures
        *final(st) == (Settings { home_view: v % HOME_VIEW_COUNT, ..*old(st) }),
{
    st.home_view = v % HOME_VIEW_COUNT;
}

/// The name of a layout.
pub open spec fn home_label(lc: Strings, v: int) -> &'static str {
    if v % 4 == 1 {
        lc.home_list
    } else if v % 4 == 2 {
        lc.home_strip
    } else if v % 4 == 3 {
        lc.home_shelf
    } else {
        lc.home_grid
    }
}

/// The name of a layout.
pub fn home_view_label(st: &Settings, v: u8) -> (r: &'static str)
    ensures
        r == home_label(table_of(st.lang), v as int),
{
    let lc: Strings = s(st);
    match v % HOME_VIEW_COUNT {
        1 => lc.home_list,
        2 => lc.home_strip,
        3 => lc.home_shelf,
        _ => lc.home_grid,
    }
}

/// How a game without a choice of its own is scaled.
pub fn default_display_mode(st: &Settings) -> (r: u8)
    ensures
        r == st.display_mode,
{
    st.display_mode
}

/// Chooses how a game without a choice of its own is scaled.
pub fn set_default_display_mode(st: &mut Settings, v: u8)
    ensures
        *final(st) == (Settings { display_mode: v, ..*old(st) }),
{
    st.display_mode = v;
}

/// The screen filter of a game without a choice of its own.
pub fn default_screen_filter(st: &Settings) -> (r: u8)
    ensures
        r == st.screen_filter,
{
    st.screen_filter
}

/// Chooses the screen filter of a game without a choice of its own.
pub fn set_default_screen_filter(st: &mut Settings, v: u8)
    ensures
        *final(st) == (Settings { screen_filter: v, ..*old(st) }),
{
    st.screen_filter = v;
}

/// The name of a scaling mode: fit, stretch or fill.
pub open spec fn display_label(lc: Strings, v: u8) -> &'static str {
    if v == 1 {
        lc.display_stretch
    } else if v == 2 {
        lc.display_fill
    } else {
        lc.display_fit
    }
}

/// The name of a scaling mode.
pub fn display_mode_label(st: &Settings, v: u8) -> (r: &'static str)
    ensures
        r == display_label(table_of(st.lang), v),
{
    let lc: Strings = s(st);
    match v {
        1 => lc.display_stretch,
        2 => lc.display_fill,
        _ => lc.display_fit,
    }
}

/// The name of a screen filter.
pub open spec fn filter_label(lc: Strings, v: u8) -> &'static str {
    if v == 1 {
        lc.filter_scanlines
    } else if v == 2 {
        lc.filter_crt
    } else {
        lc.filter_none
    }
}

/// The name of a screen filter.
pub fn screen_filter_label(st: &Settings, v: u8) -> (r: &'static str)
    ensures
        r == filter_label(table_of(st.lang), v),
{
    let lc: Strings = s(st);
    match v {
        1 => lc.filter_scanlines,
        2 => lc.filter_crt,
        _ => lc.filter_none,
    }
}

/// The texts of the language in use.
pub fn s(st: &Settings) -> (r: Strings)
    ensures
        r == table_of(st.lang),
{
    texts_of(st.lang)
}

/// How many games there are.
pub fn games_count(st: &Settings, n: usize) -> (r: String)
    ensures
        r@ == games_text(st.lang, n as nat),
{
    games_in(st.lang, n)
}

/// How many `.swf` files were found.
pub fn files_found(st: &Settings, n: usize) -> (r: String)
    ensures
        r@ == files_text(st.lang, n as nat),
{
    files_in(st.lang, n)
}

/// A transfer failed; `detail` says how.
pub fn err_https(st: &Settings, detail: &str) -> (r: String)
    ensures
        r@ == filled_in(table_of(st.lang).err_https@, detail@),
{
    fill(s(st).err_https, detail)
}

/// An answer is no JSON; `detail` says where.
pub fn err_json(st: &Settings, detail: &str) -> (r: String)
    ensures
        r@ == filled_in(table_of(st.lang).err_json@, detail@),
{
    fill(s(st).err_json, detail)
}

/// A download did not start.
pub fn err_dl_start(st: &Settings, code: i32) -> (r: String)
    ensures
        r@ == filled_in(table_of(st.lang).err_dl_start@, signed(code as int)),
{
    let n: String = signed_text(code as i64);
    fill(s(st).err_dl_start, n.as_str())
}

/// A download broke off.
pub fn err_dl_failed(st: &Settings, code: i32) -> (r: String)
    ensures
        r@ == filled_in(table_of(st.lang).err_dl_failed@, signed(code as int)),
{
    let n: String = signed_text(code as i64);
    fill(s(st).err_dl_failed, n.as_str())
}

/// What is said of an HTTP status of 400 or more.
pub open spec fn status_text(lc: Strings, code: int) -> Seq<char> {
    if code == 404 {
        lc.err_not_found@
    } else {
        filled_in(lc.err_http_status@, signed(code))
    }
}

/// What is said of an HTTP status of 400 or more; 404 has words of its own.
pub fn err_http_status(st: &Settings, code: i64) -> (r: String)
    ensures
        r@ == status_text(table_of(st.lang), code as int),
{
    let lc: Strings = s(st);
    if code == 404 {
        return lc.err_not_found.to_owned();
    }
    let n: String = signed_text(code);
    fill(lc.err_http_status, n.as_str())
}

// ── Keeping the settings ───────────────────────────────────────────────────

/// The settings file for a language and the other settings in use. The covers
/// flag is always written as set.
pub fn save(st: &Settings, lang: Lang) -> (r: String)
    ensures
        r@ == settings::file_text(Settings { lang, covers_online: true, ..*st }),
{
    settings::write(&Settings { lang, covers_online: covers_online(st), ..*st })
}

/// The settings file for the settings in use.
pub fn save_current(st: &Settings) -> (r: String)
    ensures
        r@ == settings::file_text(Settings { covers_online: true, ..*st }),
{
    settings::write(&Settings { covers_online: covers_online(st), ..*st })
}

/// Takes up the settings at a start. `file` is the settings file, `system` the
/// number of the console's language (negative: unknown).
pub fn init(st: &mut Settings, file: Option<&str>, system: i32, cjk_possible: bool)
    ensures
        *final(st) == settings::started(
            *old(st),
            match file {
                Some(f) => Some(f@),
                None => None,
            },
            system as int,
            cjk_possible,
        ),
{
    if let Some(txt) = file {
        if let Some(c) = settings::parse_covers_online(txt) {
            set_covers_online(st, c);
        }
        if let Some(v) = settings::parse_u8_setting(txt, "display_mode", 3) {
            set_default_display_mode(st, v);
        }
        if let Some(v) = settings::parse_u8_setting(txt, "screen_filter", 3) {
            set_default_screen_filter(st, v);
        }
        if let Some(v) = settings::parse_u8_setting(txt, "home_view", HOME_VIEW_COUNT) {
            set_home_view(st, v);
        }
        if let Some(lang) = settings::parse_language(txt) {
            set(st, lang, cjk_possible);
            return;
        }
    }
    if system >= 0 && system <= 7 {
        set(st, Lang::from_index(system as usize), cjk_possible);
    }
}

} // verus!
