//! What a frame draws, as plain values.

use crate::digits;
use crate::library::buttons::{games, touches, urls};
use crate::library::date;
use crate::library::filters;
use crate::library::history;
use crate::library::importer;
use crate::library::importer::UrlRow;
use crate::library::index;
use crate::library::names;
use crate::library::screen;
use crate::library::screen::{screen_tab, Screen};
use crate::library::state;
use crate::library::state::{Candidate, Entry, State};
use crate::loc;
use crate::loc::strings::Strings;
use crate::loc::{Lang, PICKER_LANGS};
use crate::panel;
use crate::panel::Panel;
use crate::parts;
use crate::text;
use vstd::prelude::*;

verus! {

/// What is known outside of the library when a frame is drawn.
pub struct Scene {
    /// The player's nickname, or nothing.
    pub author: String,
    /// The cursor speed outside a game, in tenths.
    pub speed_x10: u32,
    /// Can the names of languages be drawn that need another font?
    pub cjk: bool,
    /// Does a notice stand for the languages in this frame?
    pub fonts_loading: bool,
    /// Could the catalogue of key profiles not be read?
    pub unavailable: bool,
    /// The number of this installation.
    pub install: String,
    /// The file names that the games of the gallery are imported under.
    pub file_names: Vec<String>,
}

/// What a screen draws. Rows and texts are in the language of the settings.
pub enum Picture {
    Nothing,
    Notice { text: String },
    Empty,
    /// The games that match the search, in the layout of the home tab.
    Games {
        shown: Vec<usize>,
        selection: usize,
        scroll: usize,
        filter: Option<String>,
        total: usize,
        view: u8,
    },
    /// A panel of options; `dim` where the screen behind it is dimmed.
    Options { title: String, selection: usize, rows: Vec<String>, dim: bool },
    /// The key editor.
    Keys,
    Settings { selection: usize, rows: Vec<String> },
    Languages { selection: usize, names: Vec<String> },
    /// A spinner under a name; `dim` where the screen behind it is dimmed.
    Loading { label: String, dim: bool },
    BugPicker { selection: usize, scroll: usize, names: Vec<String>, title: String, footer: String },
    BugResult { msg: String, ok: bool },
    Rows(Panel),
    DeleteGame { name: String, file: String },
    Covers {
        name: String,
        selection: usize,
        titles: Vec<String>,
        pictures: Vec<String>,
        msg: String,
        title: String,
        footer: String,
    },
    /// The search of the catalogue is under way.
    Searching { query: String },
    Gallery {
        query: String,
        selection: usize,
        scroll: usize,
        titles: Vec<String>,
        pictures: Vec<String>,
        installed: Vec<bool>,
        msg: String,
        title: String,
        footer: String,
    },
    /// A game of the gallery, its size and its text.
    Details { game: usize, size: u64, text: String },
    Sorts { selection: usize, rows: Vec<String>, title: String, footer: String, direction: String },
    Urls {
        selection: usize,
        scroll: usize,
        urls: Vec<UrlRow>,
        add: String,
        filter: Option<String>,
        total: usize,
    },
    UrlOptions {
        title: String,
        selection: usize,
        rows: Vec<String>,
        info: Vec<String>,
        url: String,
        footer: String,
    },
    /// The saved URLs, and over them the window in which an item is listed.
    Fetching { urls: Vec<UrlRow>, add: String, total: usize, title: String },
    Files {
        selection: usize,
        scroll: usize,
        shown: Vec<usize>,
        /// The names of the files that are on the card.
        marked: Vec<String>,
        filter: Option<String>,
        total: usize,
    },
    Downloading { label: String },
    Error { msg: String, can_fix: bool },
    DeleteUrl { url: String },
}

// ── Small parts ────────────────────────────────────────────────────────────

/// The string says the same, where there is one.
pub open spec fn same_text(a: Option<String>, b: Option<String>) -> bool {
    index::text_in(a) == index::text_in(b)
}

fn copy_text(s: &Option<String>) -> (r: Option<String>)
    ensures
        same_text(r, *s),
{
    match s {
        Some(t) => Some(t.clone()),
        None => None,
    }
}

/// `name : value`.
pub open spec fn spaced(name: Seq<char>, value: Seq<char>) -> Seq<char> {
    name + " : "@ + value
}

/// The rows of the settings.
pub open spec fn settings_rows(s: State, author: Seq<char>) -> Seq<Seq<char>> {
    let lc = loc::table_of(s.settings.lang);
    seq![
        panel::labelled(lc.set_home_view@, loc::home_label(lc, s.settings.home_view as int)@),
        lc.set_game_prefs@,
        lc.set_language@,
        lc.set_report_bug@,
        lc.set_suggest@,
        spaced(
            lc.set_pseudo@,
            if author.len() == 0 {
                lc.none@
            } else {
                author
            },
        ),
        lc.set_quit@,
    ]
}

fn rows_of_settings(s: &State, author: &String) -> (r: Vec<String>)
    ensures
        text::texts(r@) == settings_rows(*s, author@),
{
    let lc: Strings = loc::s(&s.settings);
    let mut rows: Vec<String> = Vec::new();
    let view: u8 = loc::home_view(&s.settings);
    rows.push(panel::label(lc.set_home_view, loc::home_view_label(&s.settings, view)));
    rows.push(lc.set_game_prefs.to_owned());
    rows.push(lc.set_language.to_owned());
    rows.push(lc.set_report_bug.to_owned());
    rows.push(lc.set_suggest.to_owned());
    let name: &str = if author.unicode_len() == 0 {
        lc.none
    } else {
        author.as_str()
    };
    rows.push(parts::concat3(lc.set_pseudo, " : ", name));
    rows.push(lc.set_quit.to_owned());
    assert(text::texts(rows@) =~= settings_rows(*s, author@));
    rows
}

/// The rows of the defaults for games.
pub open spec fn prefs_rows(s: State, speed_x10: u32) -> Seq<Seq<char>> {
    let lc = loc::table_of(s.settings.lang);
    seq![
        lc.set_keys@,
        panel::labelled(
            lc.set_display_mode@,
            loc::display_label(lc, s.settings.display_mode)@,
        ),
        panel::labelled(
            lc.set_screen_filter@,
            loc::filter_label(lc, s.settings.screen_filter)@,
        ),
        panel::labelled(lc.set_cursor_speed@, panel::speed_text(speed_x10 as int)),
    ]
}

fn rows_of_prefs(s: &State, speed_x10: u32) -> (r: Vec<String>)
    ensures
        text::texts(r@) == prefs_rows(*s, speed_x10),
{
    let lc: Strings = loc::s(&s.settings);
    let mut rows: Vec<String> = Vec::new();
    rows.push(lc.set_keys.to_owned());
    let mode: &str = loc::display_mode_label(&s.settings, loc::default_display_mode(&s.settings));
    rows.push(panel::label(lc.set_display_mode, mode));
    let filter: &str = loc::screen_filter_label(
        &s.settings,
        loc::default_screen_filter(&s.settings),
    );
    rows.push(panel::label(lc.set_screen_filter, filter));
    let speed: String = panel::speed(speed_x10);
    rows.push(panel::label(lc.set_cursor_speed, speed.as_str()));
    assert(text::texts(rows@) =~= prefs_rows(*s, speed_x10));
    rows
}

/// The word that makes a favourite, or no longer one.
pub open spec fn favorite_word(lc: Strings, is: bool) -> Seq<char> {
    if is {
        lc.opt_unfavorite@
    } else {
        lc.opt_favorite@
    }
}

/// The rows of a game's options.
pub open spec fn options_rows(s: State, e: Entry) -> Seq<Seq<char>> {
    let lc = loc::table_of(s.settings.lang);
    seq![
        favorite_word(lc, state::listed(s.favorites@, e.basename@)),
        lc.opt_keys@,
        lc.opt_rename@,
        lc.opt_cover@,
        lc.opt_delete@,
    ]
}

fn rows_of_options(s: &State, e: &Entry) -> (r: Vec<String>)
    ensures
        text::texts(r@) == options_rows(*s, *e),
{
    let lc: Strings = loc::s(&s.settings);
    let mut rows: Vec<String> = Vec::new();
    let word: &str = if state::is_favorite(&s.favorites, e.basename.as_str()) {
        lc.opt_unfavorite
    } else {
        lc.opt_favorite
    };
    rows.push(word.to_owned());
    rows.push(lc.opt_keys.to_owned());
    rows.push(lc.opt_rename.to_owned());
    rows.push(lc.opt_cover.to_owned());
    rows.push(lc.opt_delete.to_owned());
    assert(text::texts(rows@) =~= options_rows(*s, *e));
    rows
}

/// The languages in the picker.
pub open spec fn language_rows(cjk: bool) -> Seq<Seq<char>> {
    Seq::new(9, |i: int| loc::picker_label(PICKER_LANGS@[i], cjk))
}

fn rows_of_languages(cjk: bool) -> (r: Vec<String>)
    ensures
        text::texts(r@) == language_rows(cjk),
{
    let mut rows: Vec<String> = Vec::new();
    let mut i: usize = 0;
    while i < 9
        invariant
            i <= 9,
            rows.len() == i,
            forall|k: int|
                0 <= k < i ==> (#[trigger] rows@[k])@ == loc::picker_label(PICKER_LANGS@[k], cjk),
        decreases 9 - i,
    {
        let l: Lang = PICKER_LANGS[i];
        rows.push(l.picker_name(cjk).to_owned());
        i = i + 1;
    }
    assert(text::texts(rows@) =~= language_rows(cjk));
    rows
}

/// The shown names of the games.
pub open spec fn game_names(list: Seq<Entry>) -> Seq<Seq<char>> {
    Seq::new(list.len(), |i: int| list[i].display_name@)
}

fn names_of_games(list: &Vec<Entry>) -> (r: Vec<String>)
    ensures
        text::texts(r@) == game_names(list@),
{
    let mut out: Vec<String> = Vec::new();
    let mut i: usize = 0;
    while i < list.len()
        invariant
            i <= list.len(),
            out.len() == i,
            forall|k: int| 0 <= k < i ==> (#[trigger] out@[k])@ == list@[k].display_name@,
        decreases list.len() - i,
    {
        out.push(list[i].display_name.clone());
        i = i + 1;
    }
    assert(text::texts(out@) =~= game_names(list@));
    out
}

fn game_name_at(s: &State, game_idx: usize) -> (r: String)
    ensures
        r@ == touches::game_name(*s, game_idx as int),
{
    if game_idx < s.entries.len() {
        s.entries[game_idx].display_name.clone()
    } else {
        let e: String = String::new();
        assert(e@ =~= Seq::empty());
        e
    }
}

// ── Pictures of the catalogue ──────────────────────────────────────────────

/// How a game of the catalogue is labelled: its title, and who made it.
pub open spec fn candidate_label(c: Candidate) -> Seq<char> {
    if c.developer@.len() == 0 {
        c.title@
    } else {
        c.title@ + " - "@ + c.developer@
    }
}

/// The labels of the games of the catalogue.
pub open spec fn candidate_labels(list: Seq<Candidate>) -> Seq<Seq<char>> {
    Seq::new(list.len(), |i: int| candidate_label(list[i]))
}

/// The pictures of the games: screenshots or logos.
pub open spec fn candidate_pictures(list: Seq<Candidate>, shots: bool) -> Seq<Seq<char>> {
    Seq::new(list.len(), |i: int| names::cover_address(list[i].cover_url@, shots))
}

/// The logos of the games.
pub open spec fn candidate_logos(list: Seq<Candidate>) -> Seq<Seq<char>> {
    Seq::new(list.len(), |i: int| list[i].cover_url@)
}

fn labels_of(list: &Vec<Candidate>) -> (r: Vec<String>)
    ensures
        text::texts(r@) == candidate_labels(list@),
{
    let mut out: Vec<String> = Vec::new();
    let mut i: usize = 0;
    while i < list.len()
        invariant
            i <= list.len(),
            out.len() == i,
            forall|k: int| 0 <= k < i ==> (#[trigger] out@[k])@ == candidate_label(list@[k]),
        decreases list.len() - i,
    {
        let c: &Candidate = &list[i];
        let label: String = if c.developer.unicode_len() == 0 {
            c.title.clone()
        } else {
            parts::concat3(c.title.as_str(), " - ", c.developer.as_str())
        };
        out.push(label);
        i = i + 1;
    }
    assert(text::texts(out@) =~= candidate_labels(list@));
    out
}

fn pictures_of(list: &Vec<Candidate>, shots: bool) -> (r: Vec<String>)
    ensures
        text::texts(r@) == candidate_pictures(list@, shots),
{
    let mut out: Vec<String> = Vec::new();
    let mut i: usize = 0;
    while i < list.len()
        invariant
            i <= list.len(),
            out.len() == i,
            forall|k: int|
                0 <= k < i ==> (#[trigger] out@[k])@ == names::cover_address(
                    list@[k].cover_url@,
                    shots,
                ),
        decreases list.len() - i,
    {
        out.push(names::cover_url_for_source(list[i].cover_url.as_str(), shots));
        i = i + 1;
    }
    assert(text::texts(out@) =~= candidate_pictures(list@, shots));
    out
}

fn logos_of(list: &Vec<Candidate>) -> (r: Vec<String>)
    ensures
        text::texts(r@) == candidate_logos(list@),
{
    let mut out: Vec<String> = Vec::new();
    let mut i: usize = 0;
    while i < list.len()
        invariant
            i <= list.len(),
            out.len() == i,
            forall|k: int| 0 <= k < i ==> (#[trigger] out@[k])@ == list@[k].cover_url@,
        decreases list.len() - i,
    {
        out.push(list[i].cover_url.clone());
        i = i + 1;
    }
    assert(text::texts(out@) =~= candidate_logos(list@));
    out
}

/// Which games of the gallery are on the card, by the names that they are imported
/// under.
pub open spec fn installed_flags(s: State, file_names: Seq<String>) -> Seq<bool> {
    Seq::new(
        s.covers.candidates@.len(),
        |i: int| i < file_names.len() && importer::on_card(s.entries@, file_names[i]@),
    )
}

fn installed_of(s: &State, file_names: &Vec<String>) -> (r: Vec<bool>)
    ensures
        r@ == installed_flags(*s, file_names@),
{
    let mut out: Vec<bool> = Vec::new();
    let mut i: usize = 0;
    while i < s.covers.candidates.len()
        invariant
            i <= s.covers.candidates.len(),
            out.len() == i,
            forall|k: int|
                0 <= k < i ==> #[trigger] out@[k] == (k < file_names@.len() && importer::on_card(
                    s.entries@,
                    file_names@[k]@,
                )),
        decreases s.covers.candidates.len() - i,
    {
        let is: bool = i < file_names.len() && importer::is_on_card(
            &s.entries,
            file_names[i].as_str(),
        );
        out.push(is);
        i = i + 1;
    }
    assert(out@ =~= installed_flags(*s, file_names@));
    out
}

/// The footer of the cover picker: what the button would show.
pub open spec fn cover_footer(lc: Strings, shots: bool) -> Seq<char> {
    lc.cover_footer@ + "   "@ + (if shots {
        lc.cover_show_logos@
    } else {
        lc.cover_show_shots@
    })
}

/// The footer of the gallery: is the filter on?
pub open spec fn gallery_footer(lc: Strings, filter: bool) -> Seq<char> {
    parts::replaced(
        lc.fp_footer@,
        "{}"@,
        if filter {
            lc.lbl_on@
        } else {
            lc.lbl_off@
        },
    )
}

// ── Orders ─────────────────────────────────────────────────────────────────

/// The orders of the game list.
pub open spec fn sort_rows(lc: Strings) -> Seq<Seq<char>> {
    seq![
        lc.sort_alpha@,
        lc.sort_recent@,
        lc.sort_recent_played@,
        lc.sort_played@,
        lc.sort_size@,
    ]
}

fn rows_of_sort(lc: &Strings) -> (r: Vec<String>)
    ensures
        text::texts(r@) == sort_rows(*lc),
{
    let mut rows: Vec<String> = Vec::new();
    rows.push(lc.sort_alpha.to_owned());
    rows.push(lc.sort_recent.to_owned());
    rows.push(lc.sort_recent_played.to_owned());
    rows.push(lc.sort_played.to_owned());
    rows.push(lc.sort_size.to_owned());
    assert(text::texts(rows@) =~= sort_rows(*lc));
    rows
}

/// The orders of an import list: a title alone, or when, name, source and files, or
/// name and size.
pub open spec fn remote_sort_rows(lc: Strings, kind: u8) -> Seq<Seq<char>> {
    if kind == urls::SORT_TARGET_FP {
        seq![lc.sort_alpha@]
    } else if kind == urls::SORT_TARGET_IMPORT {
        seq![lc.sort_recent@, lc.sort_alpha@, lc.sort_source@, lc.sort_files@]
    } else {
        seq![lc.sort_alpha@, lc.sort_size@]
    }
}

fn rows_of_remote_sort(lc: &Strings, kind: u8) -> (r: Vec<String>)
    ensures
        text::texts(r@) == remote_sort_rows(*lc, kind),
{
    let mut rows: Vec<String> = Vec::new();
    if kind == urls::SORT_TARGET_FP {
        rows.push(lc.sort_alpha.to_owned());
    } else if kind == urls::SORT_TARGET_IMPORT {
        rows.push(lc.sort_recent.to_owned());
        rows.push(lc.sort_alpha.to_owned());
        rows.push(lc.sort_source.to_owned());
        rows.push(lc.sort_files.to_owned());
    } else {
        rows.push(lc.sort_alpha.to_owned());
        rows.push(lc.sort_size.to_owned());
    }
    assert(text::texts(rows@) =~= remote_sort_rows(*lc, kind));
    rows
}

/// The rows that a sort panel shows are those that its cursor can reach.
pub proof fn sort_rows_are_reachable(lc: Strings, kind: u8)
    ensures
        remote_sort_rows(lc, kind).len() == crate::library::buttons::files::sort_count(kind),
        sort_rows(lc).len() == 5,
{
}

/// The word for a direction.
pub open spec fn direction_word(lc: Strings, reverse: bool) -> Seq<char> {
    if reverse {
        lc.sort_dir_desc@
    } else {
        lc.sort_dir_asc@
    }
}

fn word_of_direction(lc: &Strings, reverse: bool) -> (r: String)
    ensures
        r@ == direction_word(*lc, reverse),
{
    if reverse {
        lc.sort_dir_desc.to_owned()
    } else {
        lc.sort_dir_asc.to_owned()
    }
}

// ── Saved URLs ─────────────────────────────────────────────────────────────

/// The rows show the saved URLs in the order of the list.
pub open spec fn shows_urls(s: State, rows: Seq<UrlRow>) -> bool {
    let v = importer::view_of(s.entries@, s.history, s.sorting);
    &&& rows.len() == v.len()
    &&& forall|i: int|
        0 <= i < rows.len() ==> importer::shows_url(
            #[trigger] rows[i],
            s.entries@,
            s.history,
            s.history.urls@[v[i] as int]@,
        )
}

/// What is said of a saved URL: its kind, how much of it is on the card where that
/// is known, and when it was saved where that is known.
pub open spec fn url_info(s: State, url: Seq<char>, day: Seq<char>) -> Seq<Seq<char>> {
    let lc = loc::table_of(s.settings.lang);
    let (have, total) = importer::progress_of(s.entries@, s.history, url);
    let kind = seq![
        spaced(
            lc.url_info_type@,
            if importer::source_of(s.history.sources@, url, 0).1 {
                lc.url_type_swf@
            } else {
                lc.url_type_list@
            },
        ),
    ];
    let amount = match total {
        Some(n) => seq![
            spaced(
                lc.url_info_files@,
                digits::decimal(have as nat) + "/"@ + digits::decimal(n as nat),
            ),
        ],
        None => Seq::empty(),
    };
    let when = if day.len() > 0 {
        seq![spaced(lc.url_info_added@, day)]
    } else {
        Seq::empty()
    };
    kind + amount + when
}

fn info_of_url(s: &State, url: &str, day: &String) -> (r: Vec<String>)
    ensures
        text::texts(r@) == url_info(*s, url@, day@),
{
    let lc: Strings = loc::s(&s.settings);
    let mut out: Vec<String> = Vec::new();
    let (_, direct) = importer::find_source(&s.history, url);
    let kind: &str = if direct {
        lc.url_type_swf
    } else {
        lc.url_type_list
    };
    out.push(parts::concat3(lc.url_info_type, " : ", kind));
    let (have, total) = importer::importer_progress(&s.entries, &s.history, url);
    if let Some(n) = total {
        let a: String = digits::dec(have as u64);
        let b: String = digits::dec(n as u64);
        let amount: String = parts::concat3(a.as_str(), "/", b.as_str());
        out.push(parts::concat3(lc.url_info_files, " : ", amount.as_str()));
    }
    if day.unicode_len() > 0 {
        out.push(parts::concat3(lc.url_info_added, " : ", day.as_str()));
    }
    assert(text::texts(out@) =~= url_info(*s, url@, day@));
    out
}

/// The rows of a saved URL's options.
pub open spec fn url_option_rows(s: State, url: Seq<char>) -> Seq<Seq<char>> {
    let lc = loc::table_of(s.settings.lang);
    seq![
        favorite_word(lc, history::favored(history::rows_of(s.history.meta@), url)),
        lc.opt_edit@,
        lc.opt_delete@,
    ]
}

fn rows_of_url_options(s: &State, url: &str) -> (r: Vec<String>)
    ensures
        text::texts(r@) == url_option_rows(*s, url@),
{
    let lc: Strings = loc::s(&s.settings);
    let mut rows: Vec<String> = Vec::new();
    let word: &str = if history::url_is_favorite(&s.history, url) {
        lc.opt_unfavorite
    } else {
        lc.opt_favorite
    };
    rows.push(word.to_owned());
    rows.push(lc.opt_edit.to_owned());
    rows.push(lc.opt_delete.to_owned());
    assert(text::texts(rows@) =~= url_option_rows(*s, url@));
    rows
}

// ── Files and downloads ────────────────────────────────────────────────────

/// The names of the files that are on the card: those that were downloaded since
/// the start, then those of the other games.
pub open spec fn with_games(names: Seq<Seq<char>>, list: Seq<Entry>) -> Seq<Seq<char>>
    decreases list.len(),
{
    if list.len() == 0 {
        names
    } else {
        let m = with_games(names, list.drop_last());
        let base = list.last().basename@;
        if m.contains(base) {
            m
        } else {
            m.push(base)
        }
    }
}

/// A file is marked as being on the card where it was downloaded or is a game's.
pub proof fn marks_are_exact(names: Seq<Seq<char>>, list: Seq<Entry>, name: Seq<char>)
    ensures
        with_games(names, list).contains(name) == (names.contains(name) || importer::on_card(
            list,
            name,
        )),
    decreases list.len(),
{
    if list.len() > 0 {
        let rest = list.drop_last();
        marks_are_exact(names, rest, name);
        let m = with_games(names, rest);
        let base = list.last().basename@;
        assert(list.last() == list[list.len() - 1]);
        if importer::on_card(rest, name) {
            let k = choose|k: int| 0 <= k < rest.len() && (#[trigger] rest[k]).basename@ == name;
            assert(list[k].basename@ == name);
        }
        if importer::on_card(list, name) && !importer::on_card(rest, name) {
            let k = choose|k: int| 0 <= k < list.len() && (#[trigger] list[k]).basename@ == name;
            if k < rest.len() {
                assert(rest[k].basename@ == name);
            }
            assert(base == name);
        }
        if !m.contains(base) {
            let m2 = m.push(base);
            if m.contains(name) {
                let k = choose|k: int| 0 <= k < m.len() && m[k] == name;
                assert(m2[k] == name);
            }
            if name == base {
                assert(m2[m.len() as int] == name);
            }
            if m2.contains(name) {
                let k = choose|k: int| 0 <= k < m2.len() && m2[k] == name;
                if k < m.len() {
                    assert(m[k] == name);
                }
            }
        }
    }
}

fn marked_names(s: &State) -> (r: Vec<String>)
    ensures
        text::texts(r@) == with_games(text::texts(s.remote.downloaded@), s.entries@),
{
    let mut out: Vec<String> = panel::copy_strings(&s.remote.downloaded);
    let ghost first = text::texts(s.remote.downloaded@);
    let mut i: usize = 0;
    assert(s.entries@.take(0) =~= Seq::empty());
    while i < s.entries.len()
        invariant
            i <= s.entries.len(),
            text::texts(out@) == with_games(first, s.entries@.take(i as int)),
        decreases s.entries.len() - i,
    {
        let ghost m = text::texts(out@);
        proof {
            assert(s.entries@.take(i + 1).drop_last() =~= s.entries@.take(i as int));
            assert(s.entries@.take(i + 1).last() == s.entries@[i as int]);
        }
        let base: &String = &s.entries[i].basename;
        match state::place_of(&out, base.as_str()) {
            Some(k) => {
                assert(m[k as int] == base@);
            },
            None => {
                proof {
                    if m.contains(base@) {
                        let k = choose|k: int| 0 <= k < m.len() && m[k] == base@;
                        assert(out@[k]@ == base@);
                    }
                }
                out.push(base.clone());
                assert(text::texts(out@) =~= m.push(base@));
            },
        }
        i = i + 1;
    }
    assert(s.entries@.take(s.entries@.len() as int) =~= s.entries@);
    out
}

/// How many linked files are still to come: those in the queue and the running one.
pub open spec fn files_left(queued: nat) -> nat {
    if queued < u64::MAX {
        queued + 1
    } else {
        queued
    }
}

/// What the progress of a download is labelled: a linked file and how many are
/// left, or the game's title, or its file.
pub open spec fn download_label(s: State) -> Seq<char> {
    let d = s.download;
    let c = d.companions;
    if c.active {
        spaced(
            loc::table_of(s.settings.lang).multifile@,
            c.current@ + " ("@ + digits::decimal(files_left(c.queue@.len())) + ")"@,
        )
    } else {
        match d.title {
            Some(t) => if text::trimmed(t@).len() > 0 {
                t@
            } else {
                d.file_name@
            },
            None => d.file_name@,
        }
    }
}

fn label_of_download(s: &State) -> (r: String)
    ensures
        r@ == download_label(*s),
{
    let lc: Strings = loc::s(&s.settings);
    if s.download.companions.active {
        let queued: u64 = s.download.companions.queue.len() as u64;
        let left: u64 = if queued < u64::MAX {
            queued + 1
        } else {
            queued
        };
        let n: String = digits::dec(left);
        let mut out: String = parts::concat3(
            lc.multifile,
            " : ",
            s.download.companions.current.as_str(),
        );
        out.append(" (");
        out.append(n.as_str());
        out.append(")");
        assert(out@ =~= download_label(*s));
        return out;
    }
    match &s.download.title {
        Some(t) => {
            let blank: String = text::trim(t.as_str());
            if blank.unicode_len() > 0 {
                t.clone()
            } else {
                s.download.file_name.clone()
            }
        },
        None => s.download.file_name.clone(),
    }
}

/// The saved URL that is to be removed.
pub open spec fn chosen_url(s: State) -> Seq<char> {
    match s.history.index {
        Some(i) => if i < s.history.urls@.len() {
            s.history.urls@[i as int]@
        } else {
            Seq::empty()
        },
        None => Seq::empty(),
    }
}

// ── The picture of a screen ────────────────────────────────────────────────

/// What the screens that are no lists draw.
pub open spec fn draws_panel(s: State, sc: Scene, p: Picture) -> bool {
    let lc = loc::table_of(s.settings.lang);
    match s.screen {
        Screen::TouchesMenu { game_idx, selection } => p matches Picture::Rows(x) && panel::shows(
            x,
            lc.opt_keys@,
            touches::game_name(s, game_idx as int),
            Some(selection),
            panel::touches_rows(
                lc,
                touches::speed_x10(s.touches.cursor_idx) as int,
                s.touches.show_cursor,
                s.touches.can_revert,
                s.touches.has_backup,
            ),
            lc.touches_footer@,
            false,
        ),
        Screen::ProfileList { game_idx, selection } => p matches Picture::Rows(x) && panel::shows(
            x,
            lc.profile_title@,
            touches::game_name(s, game_idx as int),
            Some(selection),
            panel::profile_rows(lc, s.touches.matches@, s.touches.active_id@, sc.unavailable),
            panel::profile_footer(
                lc,
                panel::mine_at(s.touches.matches@, selection as int, sc.install@),
            ),
            true,
        ),
        Screen::ProfileDeleteConfirm { profile_idx, .. } => p matches Picture::Rows(x)
            && panel::shows(
            x,
            lc.profile_del_confirm@,
            Seq::empty(),
            None,
            seq![
                if profile_idx < s.touches.matches@.len() {
                    panel::profile_name(s.touches.matches@[profile_idx as int].profile)
                } else {
                    Seq::empty()
                },
            ],
            lc.del_footer@,
            true,
        ),
        Screen::ProfilePreview { .. } => p matches Picture::Rows(x) && panel::shows(
            x,
            lc.profile_preview_title@,
            ""@,
            None,
            panel::preview_lines(lc, text::texts(s.touches.preview@)),
            lc.profile_preview_footer@,
            true,
        ),
        Screen::RevertPreview { .. } => p matches Picture::Rows(x) && panel::shows(
            x,
            lc.revert_preview_title@,
            ""@,
            None,
            panel::preview_lines(lc, text::texts(s.touches.preview@)),
            lc.revert_preview_footer@,
            true,
        ),
        Screen::ProfileShareConfirm { .. } => p matches Picture::Rows(x) && panel::shows(
            x,
            lc.opt_share@,
            panel::share_subtitle(lc, s.touches.share_is_update),
            None,
            panel::preview_lines(lc, text::texts(s.touches.preview@)),
            lc.lang_footer@,
            true,
        ),
        Screen::ProfileLoading => p matches Picture::Loading { label, dim } && label@
            == s.net_label@ && !dim,
        _ => p is Nothing,
    }
}

fn picture_of_panel(s: &State, sc: &Scene) -> (p: Picture)
    ensures
        draws_panel(*s, *sc, p),
{
    let lc: Strings = loc::s(&s.settings);
    match s.screen {
        Screen::TouchesMenu { game_idx, selection } => {
            let game: String = game_name_at(s, game_idx);
            Picture::Rows(
                panel::touches_panel(
                    &lc,
                    game.as_str(),
                    selection,
                    touches::cursor_x10(s.touches.cursor_idx),
                    s.touches.show_cursor,
                    s.touches.can_revert,
                    s.touches.has_backup,
                ),
            )
        },
        Screen::ProfileList { game_idx, selection } => {
            let game: String = game_name_at(s, game_idx);
            Picture::Rows(
                panel::profiles_panel(
                    &lc,
                    game.as_str(),
                    selection,
                    &s.touches.matches,
                    s.touches.active_id.as_str(),
                    sc.unavailable,
                    sc.install.as_str(),
                ),
            )
        },
        Screen::ProfileDeleteConfirm { profile_idx, .. } => Picture::Rows(
            panel::delete_profile_panel(&lc, &s.touches.matches, profile_idx),
        ),
        Screen::ProfilePreview { .. } => Picture::Rows(
            panel::preview_panel(
                &lc,
                lc.profile_preview_title,
                "",
                &s.touches.preview,
                lc.profile_preview_footer,
            ),
        ),
        Screen::RevertPreview { .. } => Picture::Rows(
            panel::preview_panel(
                &lc,
                lc.revert_preview_title,
                "",
                &s.touches.preview,
                lc.revert_preview_footer,
            ),
        ),
        Screen::ProfileShareConfirm { .. } => Picture::Rows(
            panel::share_panel(&lc, s.touches.share_is_update, &s.touches.preview),
        ),
        Screen::ProfileLoading => Picture::Loading { label: s.net_label.clone(), dim: false },
        _ => Picture::Nothing,
    }
}

/// What the screens of the home tab and of the settings draw.
pub open spec fn draws_home(s: State, sc: Scene, p: Picture) -> bool {
    let lc = loc::table_of(s.settings.lang);
    let games = |sel: usize, top: usize|
        p matches Picture::Games { shown, selection, scroll, filter, total, view } && shown@
            == filters::shown_games(s) && selection == sel && scroll == top && same_text(
            filter,
            s.local_filter,
        ) && total == s.entries@.len() && view == games::view_of(s);
    match s.screen {
        Screen::AppletNotice { .. } => p matches Picture::Notice { text } && text@
            == lc.applet_notice@,
        Screen::Empty => p is Empty,
        Screen::List { selection, scroll_offset } => games(selection, scroll_offset),
        Screen::Launching { selection, scroll_offset } => games(selection, scroll_offset),
        Screen::OptionsModal { game_idx, selection: sel } => if game_idx < s.entries@.len() {
            p matches Picture::Options { title, selection, rows, dim } && title@
                == s.entries@[game_idx as int].display_name@ && selection == sel && text::texts(
                rows@,
            ) == options_rows(s, s.entries@[game_idx as int]) && !dim
        } else {
            p is Nothing
        },
        Screen::DeleteConfirm { game_idx } => if game_idx < s.entries@.len() {
            p matches Picture::DeleteGame { name, file } && name@
                == s.entries@[game_idx as int].display_name@ && file@
                == s.entries@[game_idx as int].basename@
        } else {
            p is Nothing
        },
        Screen::TouchesEditor { .. } => p is Keys,
        Screen::SettingsKeymapEditor => p is Keys,
        Screen::SettingsModal { selection: sel } => p matches Picture::Settings { selection, rows }
            && selection == sel && text::texts(rows@) == settings_rows(s, sc.author@),
        Screen::SettingsPrefsModal { selection: sel } => p matches Picture::Options {
            title,
            selection,
            rows,
            dim,
        } && title@ == lc.prefs_title@ && selection == sel && text::texts(rows@) == prefs_rows(
            s,
            sc.speed_x10,
        ) && dim,
        Screen::SettingsLanguagePicker { selection: sel } => if sc.fonts_loading {
            p matches Picture::Loading { label, dim } && label@ == lc.lang_title@ && dim
        } else {
            p matches Picture::Languages { selection, names } && selection == sel && text::texts(
                names@,
            ) == language_rows(sc.cjk)
        },
        Screen::BugPicker { selection: sel, scroll_offset } => p matches Picture::BugPicker {
            selection,
            scroll,
            names,
            title,
            footer,
        } && selection == sel && scroll == scroll_offset && text::texts(names@) == game_names(
            s.entries@,
        ) && title@ == lc.bug_pick_title@ && footer@ == lc.bug_pick_footer@,
        Screen::BugResult => p matches Picture::BugResult { msg, ok } && msg@ == s.bug_msg@ && ok
            == s.bug_ok,
        Screen::SortModal { selection: sel, .. } => p matches Picture::Sorts {
            selection,
            rows,
            title,
            footer,
            direction,
        } && selection == sel && text::texts(rows@) == sort_rows(lc) && title@ == lc.sort_title@
            && footer@ == lc.sort_footer@ && direction@ == direction_word(lc, s.sorting.reverse),
        _ => p is Nothing,
    }
}

fn picture_of_home(s: &State, sc: &Scene) -> (p: Picture)
    ensures
        draws_home(*s, *sc, p),
{
    let lc: Strings = loc::s(&s.settings);
    match s.screen {
        Screen::AppletNotice { .. } => Picture::Notice { text: lc.applet_notice.to_owned() },
        Screen::Empty => Picture::Empty,
        Screen::List { selection, scroll_offset } | Screen::Launching {
            selection,
            scroll_offset,
        } => Picture::Games {
            shown: filters::local_filtered_indices(&s.entries, &s.local_filter),
            selection,
            scroll: scroll_offset,
            filter: copy_text(&s.local_filter),
            total: s.entries.len(),
            view: loc::home_view(&s.settings),
        },
        Screen::OptionsModal { game_idx, selection } => if game_idx < s.entries.len() {
            Picture::Options {
                title: s.entries[game_idx].display_name.clone(),
                selection,
                rows: rows_of_options(s, &s.entries[game_idx]),
                dim: false,
            }
        } else {
            Picture::Nothing
        },
        Screen::DeleteConfirm { game_idx } => if game_idx < s.entries.len() {
            Picture::DeleteGame {
                name: s.entries[game_idx].display_name.clone(),
                file: s.entries[game_idx].basename.clone(),
            }
        } else {
            Picture::Nothing
        },
        Screen::TouchesEditor { .. } => Picture::Keys,
        Screen::SettingsKeymapEditor => Picture::Keys,
        Screen::SettingsModal { selection } => Picture::Settings {
            selection,
            rows: rows_of_settings(s, &sc.author),
        },
        Screen::SettingsPrefsModal { selection } => Picture::Options {
            title: lc.prefs_title.to_owned(),
            selection,
            rows: rows_of_prefs(s, sc.speed_x10),
            dim: true,
        },
        Screen::SettingsLanguagePicker { selection } => if sc.fonts_loading {
            Picture::Loading { label: lc.lang_title.to_owned(), dim: true }
        } else {
            Picture::Languages { selection, names: rows_of_languages(sc.cjk) }
        },
        Screen::BugPicker { selection, scroll_offset } => Picture::BugPicker {
            selection,
            scroll: scroll_offset,
            names: names_of_games(&s.entries),
            title: lc.bug_pick_title.to_owned(),
            footer: lc.bug_pick_footer.to_owned(),
        },
        Screen::BugResult => Picture::BugResult { msg: s.bug_msg.clone(), ok: s.bug_ok },
        Screen::SortModal { selection, .. } => Picture::Sorts {
            selection,
            rows: rows_of_sort(&lc),
            title: lc.sort_title.to_owned(),
            footer: lc.sort_footer.to_owned(),
            direction: word_of_direction(&lc, s.sorting.reverse),
        },
        _ => Picture::Nothing,
    }
}

/// What the screens of covers and of the catalogue draw.
pub open spec fn draws_catalogue(s: State, sc: Scene, p: Picture) -> bool {
    let lc = loc::table_of(s.settings.lang);
    match s.screen {
        Screen::CoverPicker { game_idx, selection: sel } => p matches Picture::Covers {
            name,
            selection,
            titles,
            pictures,
            msg,
            title,
            footer,
        } && name@ == touches::game_name(s, game_idx as int) && selection == sel && text::texts(
            titles@,
        ) == candidate_labels(s.covers.candidates@) && text::texts(pictures@)
            == candidate_pictures(s.covers.candidates@, s.covers.use_shot) && msg@ == s.covers.msg@
            && title@ == lc.cover_title@ && footer@ == cover_footer(lc, s.covers.use_shot),
        Screen::FpGallery { selection: sel, scroll: top } => if s.covers.loading {
            p matches Picture::Searching { query } && query@ == s.covers.query@
        } else {
            p matches Picture::Gallery {
                query,
                selection,
                scroll,
                titles,
                pictures,
                installed,
                msg,
                title,
                footer,
            } && query@ == s.covers.query@ && selection == sel && scroll == top && text::texts(
                titles@,
            ) == candidate_labels(s.covers.candidates@) && text::texts(pictures@)
                == candidate_logos(s.covers.candidates@) && installed@ == installed_flags(
                s,
                sc.file_names@,
            ) && msg@ == s.covers.msg@ && title@ == lc.fp_title@ && footer@ == gallery_footer(
                lc,
                s.covers.content_filter,
            )
        },
        Screen::FpDetails { selection, size: n, .. } => if selection < s.covers.candidates@.len() {
            p matches Picture::Details { game, size, text } && game == selection && size == n
                && text@ == s.covers.desc@
        } else {
            p is Nothing
        },
        _ => p is Nothing,
    }
}

fn picture_of_catalogue(s: &State, sc: &Scene) -> (p: Picture)
    ensures
        draws_catalogue(*s, *sc, p),
{
    let lc: Strings = loc::s(&s.settings);
    match s.screen {
        Screen::CoverPicker { game_idx, selection } => {
            let word: &str = if s.covers.use_shot {
                lc.cover_show_logos
            } else {
                lc.cover_show_shots
            };
            Picture::Covers {
                name: game_name_at(s, game_idx),
                selection,
                titles: labels_of(&s.covers.candidates),
                pictures: pictures_of(&s.covers.candidates, s.covers.use_shot),
                msg: s.covers.msg.clone(),
                title: lc.cover_title.to_owned(),
                footer: parts::concat3(lc.cover_footer, "   ", word),
            }
        },
        Screen::FpGallery { selection, scroll } => {
            if s.covers.loading {
                return Picture::Searching { query: s.covers.query.clone() };
            }
            let word: &str = if s.covers.content_filter {
                lc.lbl_on
            } else {
                lc.lbl_off
            };
            proof {
                reveal_strlit("{}");
            }
            Picture::Gallery {
                query: s.covers.query.clone(),
                selection,
                scroll,
                titles: labels_of(&s.covers.candidates),
                pictures: logos_of(&s.covers.candidates),
                installed: installed_of(s, &sc.file_names),
                msg: s.covers.msg.clone(),
                title: lc.fp_title.to_owned(),
                footer: parts::replace(lc.fp_footer, "{}", word),
            }
        },
        Screen::FpDetails { selection, size, .. } => if selection < s.covers.candidates.len() {
            Picture::Details { game: selection, size, text: s.covers.desc.clone() }
        } else {
            Picture::Nothing
        },
        _ => Picture::Nothing,
    }
}

/// What the screens of the import tab draw.
pub open spec fn draws_import(s: State, p: Picture) -> bool {
    let lc = loc::table_of(s.settings.lang);
    match s.screen {
        Screen::RemoteSortModal { selection: sel, kind, reverse, .. } => p matches Picture::Sorts {
            selection,
            rows,
            title,
            footer,
            direction,
        } && selection == sel && text::texts(rows@) == remote_sort_rows(lc, kind) && title@
            == lc.sort_title@ && footer@ == lc.sort_footer@ && direction@ == direction_word(
            lc,
            reverse,
        ),
        Screen::DistantIdle { selection: sel, scroll_offset } => p matches Picture::Urls {
            selection,
            scroll,
            urls,
            add,
            filter,
            total,
        } && selection == sel && scroll == scroll_offset && shows_urls(s, urls@) && add@
            == lc.dist_add@ && same_text(filter, s.history.filter) && total
            == s.history.urls@.len(),
        Screen::DistantUrlOptions { url_idx, selection: sel } => if url_idx
            < s.history.urls@.len() {
            let u = s.history.urls@[url_idx as int]@;
            p matches Picture::UrlOptions { title, selection, rows, info, url, footer } && title@
                == names::label_of(u) && selection == sel && text::texts(rows@) == url_option_rows(
                s,
                u,
            ) && url@ == u && footer@ == lc.options_footer@ && exists|day: Seq<char>| #[trigger]
                date::dates(history::added_of(history::rows_of(s.history.meta@), u), day)
                    && text::texts(info@) == url_info(s, u, day)
        } else {
            p is Nothing
        },
        Screen::DistantLoading => p matches Picture::Fetching { urls, add, total, title }
            && shows_urls(s, urls@) && add@ == lc.dist_add@ && total == s.history.urls@.len()
            && title@ == s.remote.pending_url@,
        Screen::DistantFiles { selection: sel, scroll_offset } => p matches Picture::Files {
            selection,
            scroll,
            shown,
            marked,
            filter,
            total,
        } && selection == sel && scroll == scroll_offset && shown@ == filters::kept(
            filters::files_kept(s.remote.files@, s.remote.filter),
        ) && text::texts(marked@) == with_games(text::texts(s.remote.downloaded@), s.entries@)
            && same_text(filter, s.remote.filter) && total == s.remote.files@.len(),
        Screen::DistantDownloading => p matches Picture::Downloading { label } && label@
            == download_label(s),
        Screen::DistantError => p matches Picture::Error { msg, can_fix } && msg@
            == s.remote.error@ && can_fix == (s.remote.failed_url@.len() > 0),
        Screen::DistantHistoryConfirm => p matches Picture::DeleteUrl { url } && url@
            == chosen_url(s),
        _ => p is Nothing,
    }
}

fn picture_of_import(s: &State) -> (p: Picture)
    ensures
        draws_import(*s, p),
{
    let lc: Strings = loc::s(&s.settings);
    match s.screen {
        Screen::RemoteSortModal { selection, kind, reverse, .. } => Picture::Sorts {
            selection,
            rows: rows_of_remote_sort(&lc, kind),
            title: lc.sort_title.to_owned(),
            footer: lc.sort_footer.to_owned(),
            direction: word_of_direction(&lc, reverse),
        },
        Screen::DistantIdle { selection, scroll_offset } => {
            let (urls, total) = importer::importer_rows(s);
            Picture::Urls {
                selection,
                scroll: scroll_offset,
                urls,
                add: lc.dist_add.to_owned(),
                filter: copy_text(&s.history.filter),
                total,
            }
        },
        Screen::DistantUrlOptions { url_idx, selection } => {
            if url_idx >= s.history.urls.len() {
                return Picture::Nothing;
            }
            let url: String = s.history.urls[url_idx].clone();
            let day: String = date::format_date(history::url_added(&s.history, url.as_str()));
            let info: Vec<String> = info_of_url(s, url.as_str(), &day);
            assert(date::dates(
                history::added_of(history::rows_of(s.history.meta@), url@),
                day@,
            ));
            Picture::UrlOptions {
                title: names::importer_label(url.as_str()),
                selection,
                rows: rows_of_url_options(s, url.as_str()),
                info,
                url,
                footer: lc.options_footer.to_owned(),
            }
        },
        Screen::DistantLoading => {
            let (urls, total) = importer::importer_rows(s);
            Picture::Fetching {
                urls,
                add: lc.dist_add.to_owned(),
                total,
                title: s.remote.pending_url.clone(),
            }
        },
        Screen::DistantFiles { selection, scroll_offset } => Picture::Files {
            selection,
            scroll: scroll_offset,
            shown: filters::filtered_indices(&s.remote.files, &s.remote.filter),
            marked: marked_names(s),
            filter: copy_text(&s.remote.filter),
            total: s.remote.files.len(),
        },
        Screen::DistantDownloading => Picture::Downloading { label: label_of_download(s) },
        Screen::DistantError => Picture::Error {
            msg: s.remote.error.clone(),
            can_fix: s.remote.failed_url.unicode_len() > 0,
        },
        Screen::DistantHistoryConfirm => {
            let url: String = match s.history.index {
                Some(i) if i < s.history.urls.len() => s.history.urls[i].clone(),
                _ => {
                    let e: String = String::new();
                    assert(e@ =~= Seq::empty());
                    e
                },
            };
            Picture::DeleteUrl { url }
        },
        _ => Picture::Nothing,
    }
}

/// The group of a screen: 0 of the home tab and the settings, 1 of the catalogue,
/// 2 of the import tab, 3 of the keys.
pub open spec fn group(s: Screen) -> int {
    match s {
        Screen::CoverPicker { .. } => 1,
        Screen::FpGallery { .. } => 1,
        Screen::FpDetails { .. } => 1,
        Screen::RemoteSortModal { .. } => 2,
        Screen::DistantIdle { .. } => 2,
        Screen::DistantUrlOptions { .. } => 2,
        Screen::DistantLoading => 2,
        Screen::DistantFiles { .. } => 2,
        Screen::DistantDownloading => 2,
        Screen::DistantError => 2,
        Screen::DistantHistoryConfirm => 2,
        Screen::TouchesMenu { .. } => 3,
        Screen::ProfileList { .. } => 3,
        Screen::ProfilePreview { .. } => 3,
        Screen::RevertPreview { .. } => 3,
        Screen::ProfileShareConfirm { .. } => 3,
        Screen::ProfileDeleteConfirm { .. } => 3,
        Screen::ProfileLoading => 3,
        _ => 0,
    }
}

/// What a screen draws.
pub open spec fn draws(s: State, sc: Scene, p: Picture) -> bool {
    let g = group(s.screen);
    if g == 1 {
        draws_catalogue(s, sc, p)
    } else if g == 2 {
        draws_import(s, p)
    } else if g == 3 {
        draws_panel(s, sc, p)
    } else {
        draws_home(s, sc, p)
    }
}

/// A frame: the picture of the screen, the tab in the bar, the toast over all of
/// it, and the notice that the card is tidied.
pub struct Frame {
    pub picture: Picture,
    pub tab: Option<usize>,
    pub toast: Option<(String, u8)>,
    pub tidying: Option<String>,
}

/// What the screen draws.
pub fn picture(s: &State, sc: &Scene) -> (p: Picture)
    ensures
        draws(*s, *sc, p),
{
    match s.screen {
        Screen::CoverPicker { .. } | Screen::FpGallery { .. } | Screen::FpDetails {
            ..
        } => picture_of_catalogue(s, sc),
        Screen::RemoteSortModal { .. }
        | Screen::DistantIdle { .. }
        | Screen::DistantUrlOptions { .. }
        | Screen::DistantLoading
        | Screen::DistantFiles { .. }
        | Screen::DistantDownloading
        | Screen::DistantError
        | Screen::DistantHistoryConfirm => picture_of_import(s),
        Screen::TouchesMenu { .. }
        | Screen::ProfileList { .. }
        | Screen::ProfilePreview { .. }
        | Screen::RevertPreview { .. }
        | Screen::ProfileShareConfirm { .. }
        | Screen::ProfileDeleteConfirm { .. }
        | Screen::ProfileLoading => picture_of_panel(s, sc),
        _ => picture_of_home(s, sc),
    }
}

/// One frame. A toast is shown for one frame less after it.
pub fn render(s: &mut State, sc: &Scene) -> (r: Frame)
    ensures
        draws(*old(s), *sc, r.picture),
        r.tab == (match screen::tab_of(old(s).screen) {
            Some(t) => Some(screen::tab_index(t) as usize),
            None => None,
        }),
        index::text_in(r.tidying) == (if old(s).optimizing {
            Some(loc::table_of(old(s).settings.lang).optimizing@)
        } else {
            None
        }),
        *final(s) == (State { toast: final(s).toast, ..*old(s) }),
        final(s).toast.msg == old(s).toast.msg,
        final(s).toast.kind == old(s).toast.kind,
        old(s).toast.frames == 0 ==> r.toast is None && final(s).toast.frames == 0,
        old(s).toast.frames > 0 ==> final(s).toast.frames == old(s).toast.frames - 1 && (
        r.toast matches Some(t) && t.0@ == old(s).toast.msg@ && t.1 == old(s).toast.kind),
{
    let p: Picture = picture(s, sc);
    let tab: Option<usize> = match screen_tab(s.screen) {
        Some(t) => Some(t.index()),
        None => None,
    };
    let tidying: Option<String> = if s.optimizing {
        let lc: Strings = loc::s(&s.settings);
        Some(lc.optimizing.to_owned())
    } else {
        None
    };
    let toast: Option<(String, u8)> = s.toast.tick();
    Frame { picture: p, tab, toast, tidying }
}

} // verus!
