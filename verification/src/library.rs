//! The game library: the list at boot, its sub-screens, and what each button does.

use crate::library::buttons::{files, flashpoint, games, settings, touches, urls};
use crate::library::gallery::GALLERY_ROWS_VISIBLE;
use crate::library::screen::{
    distant_idle_at, modal_close_deferred, modal_kind, screen_tab, Button, Effect, PendingClose,
    Screen, Tab,
};
use crate::library::state::{Entry, History, Remote, Session, State};
use crate::loc;
use crate::loc::Settings;
use crate::menu;
use crate::menu::pad::Keys;
use crate::menu::Menu;
use vstd::prelude::*;

pub mod banner;
pub mod buttons;
pub mod date;
pub mod download;
pub mod filters;
pub mod frame;
pub mod gallery;
pub mod history;
pub mod importer;
pub mod index;
pub mod names;
pub mod order;
pub mod screen;
pub mod sorting;
pub mod state;
pub mod swf;
pub mod touch;
pub mod view;

verus! {

// ── The layout of the home tab ─────────────────────────────────────────────

/// The rows of games that the layout in use shows.
pub fn home_rows_visible(st: &Settings) -> (r: usize)
    ensures
        r == gallery::rows_shown((st.home_view % 4) as int),
{
    match loc::home_view(st) {
        1 => 13,
        2 | 3 => 1,
        _ => GALLERY_ROWS_VISIBLE,
    }
}

/// The games that a page jump passes in the layout in use.
pub fn home_page_step(st: &Settings) -> (r: usize)
    ensures
        r == gallery::page_step((st.home_view % 4) as int),
{
    match loc::home_view(st) {
        1 => 13,
        2 | 3 => 4,
        _ => GALLERY_ROWS_VISIBLE * 5,
    }
}

// ── Opening and leaving ────────────────────────────────────────────────────

/// The game to land on: the one that was played last, where it is in the list.
pub open spec fn landing(list: Seq<Entry>, session: Session) -> Option<int> {
    match session.last_played {
        Some(l) => games::game_named(list, l.0@, 0),
        None => None,
    }
}

/// The library opens: sorted, without a search, on the game that was played last.
pub open spec fn opened(pre: State, applet: bool, now: u64, post: State, r: Option<usize>) -> bool {
    let at = landing(post.entries@, pre.session);
    &&& post == (State {
        applet_mode: applet,
        local_filter: None,
        anim_origin: now,
        entries: post.entries,
        screen: if post.entries@.len() == 0 {
            Screen::Empty
        } else {
            games::list_screen(
                pre,
                match at {
                    Some(i) => i,
                    None => 0,
                },
                pre.scroll.jouer as int,
            )
        },
        session: Session { companions: 0, ..pre.session },
        ..pre
    })
    &&& sorting::is_sorted(
        pre.entries@,
        post.entries@,
        sorting::mode_at(pre.sorting.mode as int),
        pre.sorting.reverse,
        pre.playtime@,
        pre.favorites@,
    )
    &&& r == (match at {
        Some(i) => Some(i as usize),
        None => None,
    })
}

/// Opens the library at `now`, where the card was read, the saved URLs and the
/// orders were loaded and the last session was banked. The result is the game
/// that was played last, whose cover closes to its tile.
pub fn open(s: &mut State, applet: bool, now: u64) -> (r: Option<usize>)
    ensures
        opened(*old(s), applet, now, *final(s), r),
{
    s.applet_mode = applet;
    s.local_filter = None;
    s.anim_origin = now;
    games::resort(s);
    let at: Option<usize> = match &s.session.last_played {
        Some(l) => games::find_game(&s.entries, l.0.as_str()),
        None => None,
    };
    if s.entries.len() == 0 {
        s.screen = Screen::Empty;
    } else {
        let selection: usize = match at {
            Some(i) => i,
            None => 0,
        };
        let scroll_offset: usize = gallery::gallery_scroll_for(
            &s.layout,
            loc::home_view(&s.settings),
            selection,
            s.scroll.jouer,
        );
        s.screen = Screen::List { selection, scroll_offset };
    }
    s.session.companions = 0;
    at
}

/// Does the screen want buttons and frames?
pub open spec fn active(s: Screen) -> bool {
    s != Screen::Inactive && s != Screen::Picked && s != Screen::Quit
}

/// Does the library want buttons and frames? Not before it opens, nor once a game
/// was picked or the player quits.
pub fn is_active(s: &State) -> (r: bool)
    ensures
        r == active(s.screen),
{
    match s.screen {
        Screen::Inactive | Screen::Picked | Screen::Quit => false,
        _ => true,
    }
}

/// Was a game picked?
pub fn picked(s: &State) -> (r: bool)
    ensures
        r == (s.screen == Screen::Picked),
{
    match s.screen {
        Screen::Picked => true,
        _ => false,
    }
}

/// The path of the game that was picked.
pub fn selected_path(s: &State) -> (r: Option<String>)
    ensures
        index::text_in(r) == index::text_in(s.selected_path),
{
    match &s.selected_path {
        Some(p) => Some(p.clone()),
        None => None,
    }
}

/// Nothing was imported, and nothing is left of an import.
pub open spec fn import_free(r: Remote) -> bool {
    &&& r.files@.len() == 0
    &&& r.filter is None
    &&& r.error@.len() == 0
    &&& r.failed_url@.len() == 0
    &&& r.downloaded@.len() == 0
    &&& r.pending_url@.len() == 0
}

/// The library closes: the games, the picked one, and all of the import go. The
/// saved URLs stay, and so do the banner and the time of the opening. Fetches that
/// run are no longer wanted.
pub fn reset(s: &mut State, m: &mut Menu)
    ensures
        *final(s) == (State {
            entries: final(s).entries,
            selected_path: None,
            screen: Screen::Inactive,
            remote: final(s).remote,
            download: final(s).download,
            history: History { filter: None, ..old(s).history },
            ..*old(s)
        }),
        final(s).entries@.len() == 0,
        import_free(final(s).remote),
        final(s).download.idle(),
        *final(m) == (Menu { screen: menu::Screen::Inactive, ..*old(m) }),
{
    s.entries = Vec::new();
    s.selected_path = None;
    s.screen = Screen::Inactive;
    s.remote = Remote::new();
    urls::clear_download_state(&mut s.download);
    s.history.filter = None;
    menu::close(m);
}

// ── Buttons ────────────────────────────────────────────────────────────────

/// What is known outside when a button goes down.
pub struct Facts {
    /// Does a panel close or a window open or close?
    pub busy: bool,
    /// The number of this installation.
    pub install: String,
    /// Do the keys of the game at hand come from the catalogue unchanged?
    pub from_catalog: bool,
    /// The UNIX time.
    pub epoch: u64,
    /// Can the language be chosen that needs another font?
    pub cjk: bool,
}

/// What came of a button.
pub struct Reply {
    /// Was the button taken?
    pub consumed: bool,
    /// What the outside has to do, for the library and for the key editor.
    pub effect: Effect,
    pub menu: menu::Effect,
    /// The panel closes; then `close_finished`.
    pub closing: bool,
}

/// The home of a tab.
pub open spec fn tab_home(s: State, t: Tab) -> Screen {
    match t {
        Tab::Jouer => if s.entries@.len() == 0 {
            Screen::Empty
        } else {
            Screen::List { selection: 0, scroll_offset: 0 }
        },
        Tab::Importer => screen::idle_at(s.scroll.import as int, 0),
        Tab::Reglages => Screen::SettingsModal { selection: 0 },
    }
}

fn home_of(s: &State, t: Tab) -> (r: Screen)
    ensures
        r == tab_home(*s, t),
{
    match t {
        Tab::Jouer => if s.entries.len() == 0 {
            Screen::Empty
        } else {
            Screen::List { selection: 0, scroll_offset: 0 }
        },
        Tab::Importer => distant_idle_at(s.scroll.import, 0),
        Tab::Reglages => Screen::SettingsModal { selection: 0 },
    }
}

/// The home of a tab belongs to the tab, so the shoulder buttons go round the tabs.
pub proof fn tabs_are_home(s: State, t: Tab)
    ensures
        screen::tab_of(tab_home(s, t)) == Some(t),
{
}

/// Does the button dismiss a notice?
pub open spec fn dismisses(b: Button) -> bool {
    b == Button::A || b == Button::B || b == Button::Minus
}

/// Does the screen take buttons?
pub open spec fn takes_buttons(s: Screen) -> bool {
    match s {
        Screen::Inactive => false,
        Screen::Picked => false,
        Screen::Quit => false,
        Screen::TouchesEditor { .. } => false,
        Screen::SettingsKeymapEditor => false,
        _ => true,
    }
}

/// What a button does on a screen of the games.
pub open spec fn games_step(pre: State, b: Button, mid: State, e: Effect) -> bool {
    let stay = mid == pre && e == Effect::Nothing;
    let to = |x: Screen| mid == (State { screen: x, ..pre }) && e == Effect::Nothing;
    match pre.screen {
        Screen::Empty => match b {
            Button::Minus => to(Screen::Quit),
            Button::Y => to(screen::idle_at(pre.scroll.import as int, 0)),
            _ => stay,
        },
        Screen::List { selection, scroll_offset } => games::list_step(
            pre,
            b,
            selection as int,
            scroll_offset as int,
            mid,
            e,
        ),
        Screen::AppletNotice { selection, scroll_offset } => if dismisses(b) {
            to(Screen::List { selection, scroll_offset })
        } else {
            stay
        },
        Screen::OptionsModal { game_idx, selection } => games::options_step(
            pre,
            b,
            game_idx as int,
            selection as int,
            mid,
            e,
        ),
        Screen::DeleteConfirm { game_idx } => games::delete_step(pre, b, game_idx as int, mid, e),
        Screen::CoverPicker { game_idx, selection } => games::cover_picker_step(
            pre,
            b,
            game_idx as int,
            selection as int,
            mid,
            e,
        ),
        Screen::SortModal { selection, prev_sel, prev_scroll } => games::sort_step(
            pre,
            b,
            selection as int,
            prev_sel as int,
            prev_scroll as int,
            mid,
            e,
        ),
        _ => stay,
    }
}

/// What a button does on a screen of the settings or of a game's keys.
pub open spec fn settings_step(pre: State, f: Facts, b: Button, mid: State, e: Effect) -> bool {
    let stay = mid == pre && e == Effect::Nothing;
    match pre.screen {
        Screen::SettingsModal { selection } => settings::settings_step(
            pre,
            b,
            selection as int,
            mid,
            e,
        ),
        Screen::SettingsPrefsModal { selection } => settings::prefs_step(
            pre,
            b,
            selection as int,
            mid,
            e,
        ),
        Screen::SettingsLanguagePicker { selection } => settings::language_step(
            pre,
            f.cjk,
            b,
            selection as int,
            mid,
            e,
        ),
        Screen::BugPicker { selection, scroll_offset } => {
            &&& mid == (State {
                screen: settings::bug_picker_next(
                    pre.entries@.len() as int,
                    b,
                    selection as int,
                    scroll_offset as int,
                ),
                ..pre
            })
            &&& e == (if b == Button::A {
                Effect::ReportBug { game_idx: selection }
            } else {
                Effect::Nothing
            })
        },
        Screen::BugResult => if dismisses(b) {
            &&& mid == (State {
                bug_msg: mid.bug_msg,
                screen: Screen::SettingsModal { selection: 3 },
                ..pre
            })
            &&& mid.bug_msg@.len() == 0
            &&& e == Effect::Nothing
        } else {
            stay
        },
        Screen::TouchesMenu { game_idx, selection } => touches::touches_step(
            pre,
            f.from_catalog,
            b,
            game_idx as int,
            selection as int,
            mid,
            e,
        ),
        Screen::ProfileList { game_idx, selection } => {
            let next = touches::profile_list_next(
                pre,
                f.install@,
                b,
                game_idx as int,
                selection as int,
            );
            mid == (State { screen: next.0, ..pre }) && e == next.1
        },
        Screen::ProfilePreview { .. } => touches::confirm_step(pre, b, mid, e),
        Screen::RevertPreview { .. } => touches::confirm_step(pre, b, mid, e),
        Screen::ProfileShareConfirm { .. } => touches::confirm_step(pre, b, mid, e),
        Screen::ProfileDeleteConfirm { .. } => touches::confirm_step(pre, b, mid, e),
        _ => stay,
    }
}

/// What a button does on a screen of the imports.
pub open spec fn import_step(pre: State, f: Facts, b: Button, mid: State, e: Effect) -> bool {
    match pre.screen {
        Screen::FpGallery { selection, scroll } => flashpoint::gallery_step(
            pre,
            b,
            selection as int,
            scroll as int,
            mid,
            e,
        ),
        Screen::FpDetails { selection, scroll, .. } => e == Effect::Nothing && mid == (State {
            screen: if b == Button::B || b == Button::Plus {
                Screen::FpGallery { selection, scroll }
            } else {
                pre.screen
            },
            ..pre
        }),
        Screen::RemoteSortModal { selection, kind, reverse, prev_sel, prev_scroll } =>
            files::remote_sort_step(
            pre,
            b,
            selection as int,
            kind,
            reverse,
            prev_sel as int,
            prev_scroll as int,
            mid,
            e,
        ),
        Screen::DistantIdle { selection, scroll_offset } => {
            let next = urls::idle_next(pre, b, selection as int, scroll_offset as int);
            mid == (State { screen: next.0, ..pre }) && e == next.1
        },
        Screen::DistantUrlOptions { url_idx, selection } => urls::url_options_step(
            pre,
            f.epoch,
            b,
            url_idx as int,
            selection as int,
            mid,
            e,
        ),
        Screen::DistantFiles { selection, scroll_offset } => {
            let next = files::files_next(pre, b, selection as int, scroll_offset as int);
            mid == (State { screen: next.0, ..pre }) && e == next.1
        },
        Screen::DistantLoading => files::waiting_step(pre, b, mid, e),
        Screen::DistantDownloading => files::waiting_step(pre, b, mid, e),
        Screen::DistantError => urls::error_step(pre, b, mid, e),
        Screen::DistantHistoryConfirm => urls::history_confirm_step(pre, b, mid, e),
        _ => mid == pre && e == Effect::Nothing,
    }
}

/// Is it a screen of the imports?
pub open spec fn of_imports(s: Screen) -> bool {
    match s {
        Screen::FpGallery { .. } => true,
        Screen::FpDetails { .. } => true,
        Screen::RemoteSortModal { .. } => true,
        Screen::DistantIdle { .. } => true,
        Screen::DistantUrlOptions { .. } => true,
        Screen::DistantFiles { .. } => true,
        Screen::DistantLoading => true,
        Screen::DistantDownloading => true,
        Screen::DistantError => true,
        Screen::DistantHistoryConfirm => true,
        _ => false,
    }
}

/// Is it a screen of the games?
pub open spec fn of_games(s: Screen) -> bool {
    match s {
        Screen::Empty => true,
        Screen::List { .. } => true,
        Screen::AppletNotice { .. } => true,
        Screen::OptionsModal { .. } => true,
        Screen::DeleteConfirm { .. } => true,
        Screen::CoverPicker { .. } => true,
        Screen::SortModal { .. } => true,
        _ => false,
    }
}

/// What a button does on a screen.
pub open spec fn screen_step(pre: State, f: Facts, b: Button, mid: State, e: Effect) -> bool {
    if of_imports(pre.screen) {
        import_step(pre, f, b, mid, e)
    } else if of_games(pre.screen) {
        games_step(pre, b, mid, e)
    } else {
        settings_step(pre, f, b, mid, e)
    }
}

#[verifier::spinoff_prover]
fn press_games(s: &mut State, b: Button) -> (e: Effect)
    ensures
        games_step(*old(s), b, *final(s), e),
{
    match s.screen {
        Screen::Empty => {
            match b {
                Button::Minus => {
                    s.screen = Screen::Quit;
                },
                Button::Y => {
                    s.screen = distant_idle_at(s.scroll.import, 0);
                },
                _ => {},
            }
            Effect::Nothing
        },
        Screen::List { selection, scroll_offset } => games::handle_list_input(
            s,
            b,
            selection,
            scroll_offset,
        ),
        Screen::AppletNotice { selection, scroll_offset } => {
            match b {
                Button::A | Button::B | Button::Minus => {
                    s.screen = Screen::List { selection, scroll_offset };
                },
                _ => {},
            }
            Effect::Nothing
        },
        Screen::OptionsModal { game_idx, selection } => games::handle_options_input(
            s,
            b,
            game_idx,
            selection,
        ),
        Screen::DeleteConfirm { game_idx } => games::handle_delete_confirm_input(s, b, game_idx),
        Screen::CoverPicker { game_idx, selection } => games::handle_cover_picker_input(
            s,
            b,
            game_idx,
            selection,
        ),
        Screen::SortModal { selection, prev_sel, prev_scroll } => games::handle_sort_modal_input(
            s,
            b,
            selection,
            prev_sel,
            prev_scroll,
        ),
        _ => Effect::Nothing,
    }
}

#[verifier::spinoff_prover]
fn press_settings(s: &mut State, f: &Facts, b: Button) -> (e: Effect)
    ensures
        settings_step(*old(s), *f, b, *final(s), e),
{
    match s.screen {
        Screen::SettingsModal { selection } => settings::handle_settings_input(s, b, selection),
        Screen::SettingsPrefsModal { selection } => settings::handle_settings_prefs_input(
            s,
            b,
            selection,
        ),
        Screen::SettingsLanguagePicker { selection } => settings::handle_settings_language_input(
            s,
            f.cjk,
            b,
            selection,
        ),
        Screen::BugPicker { selection, scroll_offset } => settings::handle_bug_picker_input(
            s,
            b,
            selection,
            scroll_offset,
        ),
        Screen::BugResult => {
            match b {
                Button::A | Button::B | Button::Minus => {
                    s.bug_msg = String::new();
                    s.screen = Screen::SettingsModal { selection: 3 };
                },
                _ => {},
            }
            Effect::Nothing
        },
        Screen::TouchesMenu { game_idx, selection } => touches::handle_touches_menu_input(
            s,
            f.from_catalog,
            b,
            game_idx,
            selection,
        ),
        Screen::ProfileList { game_idx, selection } => touches::handle_profile_list_input(
            s,
            f.install.as_str(),
            b,
            game_idx,
            selection,
        ),
        Screen::ProfilePreview { .. }
        | Screen::RevertPreview { .. }
        | Screen::ProfileShareConfirm { .. }
        | Screen::ProfileDeleteConfirm { .. } => touches::handle_confirm_input(s, b),
        _ => Effect::Nothing,
    }
}

#[verifier::spinoff_prover]
fn press_imports(s: &mut State, f: &Facts, b: Button) -> (e: Effect)
    ensures
        import_step(*old(s), *f, b, *final(s), e),
{
    match s.screen {
        Screen::FpGallery { selection, scroll } => flashpoint::handle_fp_gallery_input(
            s,
            b,
            selection,
            scroll,
        ),
        Screen::FpDetails { selection, scroll, .. } => {
            match b {
                Button::B | Button::Plus => {
                    s.screen = Screen::FpGallery { selection, scroll };
                },
                _ => {},
            }
            Effect::Nothing
        },
        Screen::RemoteSortModal { selection, kind, reverse, prev_sel, prev_scroll } =>
            files::handle_remote_sort_modal_input(
            s,
            b,
            selection,
            kind,
            reverse,
            prev_sel,
            prev_scroll,
        ),
        Screen::DistantIdle { selection, scroll_offset } => urls::handle_distant_idle_input(
            s,
            b,
            selection,
            scroll_offset,
        ),
        Screen::DistantUrlOptions { url_idx, selection } => urls::handle_distant_url_options_input(
            s,
            f.epoch,
            b,
            url_idx,
            selection,
        ),
        Screen::DistantFiles { selection, scroll_offset } => files::handle_distant_files_input(
            s,
            b,
            selection,
            scroll_offset,
        ),
        Screen::DistantLoading | Screen::DistantDownloading => files::handle_waiting_input(s, b),
        Screen::DistantError => urls::handle_error_input(s, b),
        Screen::DistantHistoryConfirm => urls::handle_history_confirm_input(s, b),
        _ => Effect::Nothing,
    }
}

/// Does the step from `old` to `new` close a panel that closes before the screen
/// behind it comes back?
pub open spec fn closes(old_screen: Screen, new_screen: Screen, menu_kind: int) -> bool {
    &&& screen::closes_first(screen::panel(old_screen, menu_kind))
    &&& screen::panel(new_screen, menu_kind) == 0
    &&& new_screen != old_screen
}

/// A panel that closes stays on the screen until it has closed.
pub open spec fn held_back(pre: State, mid: State, menu_kind: int) -> State {
    if closes(pre.screen, mid.screen, menu_kind) {
        State {
            pending_close: Some(PendingClose::Goto(mid.screen)),
            screen: pre.screen,
            ..mid
        }
    } else {
        mid
    }
}

/// What a button does on a screen, and whether a panel closes by it.
pub open spec fn pressed(
    pre: State,
    f: Facts,
    b: Button,
    menu_kind: int,
    post: State,
    e: Effect,
    closing: bool,
) -> bool {
    exists|mid: State|
        {
            &&& #[trigger] screen_step(pre, f, b, mid, e)
            &&& post == held_back(pre, mid, menu_kind)
            &&& closing == closes(pre.screen, mid.screen, menu_kind)
        }
}

/// Does the button leave the editor of the default keys?
pub open spec fn leaves_default_keys(s: State, m: Menu, b: Button) -> bool {
    &&& b == Button::B || b == Button::Minus
    &&& menu::kind_of(m.screen) == 2
    &&& s.screen == Screen::SettingsKeymapEditor
}

/// Is the button one that switches tabs on this screen, and to which tab?
pub open spec fn tab_switch(s: Screen, b: Button) -> Option<Tab> {
    match screen::tab_of(s) {
        Some(t) => match b {
            Button::L => Some(screen::tab_prev(t)),
            Button::R => Some(screen::tab_next(t)),
            _ => None,
        },
        None => None,
    }
}

/// What a button does in the key editor, and where the editor leads when it
/// closes itself.
pub open spec fn editor_step(
    pre: State,
    m: Menu,
    keys: Keys,
    f: Facts,
    b: Button,
    post: State,
    m2: Menu,
    r: Reply,
) -> bool {
    &&& menu::input_step(m, keys, f.install@, f.from_catalog, b, m2, r.consumed, r.menu)
    &&& !r.closing
    &&& if m2.screen != menu::Screen::Inactive {
        post == pre && r.effect == Effect::Nothing
    } else {
        match pre.screen {
            Screen::TouchesEditor { game_idx } => post == pre && r.effect == (
            Effect::ReturnToTouches { game_idx }),
            Screen::SettingsKeymapEditor => post == (State {
                screen: Screen::SettingsPrefsModal { selection: 0 },
                ..pre
            }) && r.effect == Effect::OpenPanel,
            _ => post == pre && r.effect == Effect::Nothing,
        }
    }
}

/// What a button does: nothing while something moves; else the key editor takes
/// it, or it switches tabs, or the screen takes it.
pub open spec fn input_step(
    pre: State,
    m: Menu,
    keys: Keys,
    f: Facts,
    b: Button,
    post: State,
    m2: Menu,
    r: Reply,
) -> bool {
    if f.busy {
        &&& post == pre && m2 == m
        &&& r.consumed && r.effect == Effect::Nothing && r.menu == menu::Effect::Nothing
        &&& !r.closing
    } else if leaves_default_keys(pre, m, b) {
        &&& post == (State {
            pending_close: Some(
                PendingClose::CloseMenuGoto(Screen::SettingsPrefsModal { selection: 0 }),
            ),
            ..pre
        })
        &&& m2 == m
        &&& r.consumed && r.effect == Effect::ClosePanel && r.menu == menu::Effect::Nothing
        &&& !r.closing
    } else if m.screen != menu::Screen::Inactive {
        editor_step(pre, m, keys, f, b, post, m2, r)
    } else {
        &&& m2 == m
        &&& r.menu == menu::Effect::Nothing
        &&& match tab_switch(pre.screen, b) {
            Some(t) => {
                &&& post == (State { screen: tab_home(pre, t), ..pre })
                &&& r.consumed && r.effect == (Effect::SlideTab { left: b == Button::L })
                &&& !r.closing
            },
            None => {
                &&& r.consumed == takes_buttons(pre.screen)
                &&& pressed(pre, f, b, menu::kind_of(m.screen), post, r.effect, r.closing)
            },
        }
    }
}

fn same_screen(a: Screen, b: Screen) -> (r: bool)
    ensures
        r == (a == b),
{
    a == b
}

fn press(s: &mut State, f: &Facts, b: Button, menu_kind: u8) -> (r: (Effect, bool))
    requires
        menu_kind <= 9,
    ensures
        pressed(*old(s), *f, b, menu_kind as int, *final(s), r.0, r.1),
{
    let ghost pre = *s;
    let was: Screen = s.screen;
    let e: Effect = match was {
        Screen::FpGallery { .. }
        | Screen::FpDetails { .. }
        | Screen::RemoteSortModal { .. }
        | Screen::DistantIdle { .. }
        | Screen::DistantUrlOptions { .. }
        | Screen::DistantFiles { .. }
        | Screen::DistantLoading
        | Screen::DistantDownloading
        | Screen::DistantError
        | Screen::DistantHistoryConfirm => press_imports(s, f, b),
        Screen::Empty
        | Screen::List { .. }
        | Screen::AppletNotice { .. }
        | Screen::OptionsModal { .. }
        | Screen::DeleteConfirm { .. }
        | Screen::CoverPicker { .. }
        | Screen::SortModal { .. } => press_games(s, b),
        _ => press_settings(s, f, b),
    };
    let ghost mid = *s;
    assert(screen_step(pre, *f, b, mid, e));
    let now: Screen = s.screen;
    let closing: bool = modal_close_deferred(modal_kind(was, menu_kind)) && modal_kind(
        now,
        menu_kind,
    ) == 0 && !same_screen(now, was);
    if closing {
        s.pending_close = Some(PendingClose::Goto(now));
        s.screen = was;
    }
    proof {
        assert(closing == closes(pre.screen, mid.screen, menu_kind as int));
        assert(*s == held_back(pre, mid, menu_kind as int));
        assert(pressed(pre, *f, b, menu_kind as int, *s, e, closing));
    }
    (e, closing)
}

/// A button went down. `keys` is what the key editor edits while it is open.
pub fn input(s: &mut State, m: &mut Menu, keys: &Keys, f: &Facts, b: Button) -> (r: Reply)
    requires
        old(m).screen != menu::Screen::Inactive ==> keys.ready() && old(m).fits(keys),
    ensures
        input_step(*old(s), *old(m), *keys, *f, b, *final(s), *final(m), r),
        old(m).screen != menu::Screen::Inactive ==> final(m).fits(keys),
{
    if f.busy {
        return Reply {
            consumed: true,
            effect: Effect::Nothing,
            menu: menu::Effect::Nothing,
            closing: false,
        };
    }
    let kind: u8 = menu::screen_kind(m);
    let back: bool = match b {
        Button::B | Button::Minus => true,
        _ => false,
    };
    if back && kind == 2 && same_screen(s.screen, Screen::SettingsKeymapEditor) {
        s.pending_close = Some(
            PendingClose::CloseMenuGoto(Screen::SettingsPrefsModal { selection: 0 }),
        );
        return Reply {
            consumed: true,
            effect: Effect::ClosePanel,
            menu: menu::Effect::Nothing,
            closing: false,
        };
    }
    if menu::is_active(m) {
        let (consumed, todo) = menu::input(m, keys, f.install.as_str(), f.from_catalog, b);
        let mut effect: Effect = Effect::Nothing;
        if !menu::is_active(m) {
            match s.screen {
                Screen::TouchesEditor { game_idx } => {
                    effect = Effect::ReturnToTouches { game_idx };
                },
                Screen::SettingsKeymapEditor => {
                    s.screen = Screen::SettingsPrefsModal { selection: 0 };
                    effect = Effect::OpenPanel;
                },
                _ => {},
            }
        }
        return Reply { consumed, effect, menu: todo, closing: false };
    }
    if let Some(t) = screen_tab(s.screen) {
        let to: Option<Tab> = match b {
            Button::L => Some(t.prev()),
            Button::R => Some(t.next()),
            _ => None,
        };
        if let Some(t) = to {
            s.screen = home_of(s, t);
            let left: bool = match b {
                Button::L => true,
                _ => false,
            };
            return Reply {
                consumed: true,
                effect: Effect::SlideTab { left },
                menu: menu::Effect::Nothing,
                closing: false,
            };
        }
    }
    let consumed: bool = match s.screen {
        Screen::Inactive
        | Screen::Picked
        | Screen::Quit
        | Screen::TouchesEditor { .. }
        | Screen::SettingsKeymapEditor => false,
        _ => true,
    };
    let (effect, closing) = press(s, f, b, kind);
    Reply { consumed, effect, menu: menu::Effect::Nothing, closing }
}

/// A panel that closes leads, once it has closed, to the screen that the button
/// asked for, and until then it stays where it is.
pub proof fn closing_leads_on(pre: State, mid: State, m: Menu, after: State, m2: Menu, r: frame::Closed)
    requires
        closes(pre.screen, mid.screen, menu::kind_of(m.screen)),
        frame::closed_step(held_back(pre, mid, menu::kind_of(m.screen)), m, after, m2, r),
    ensures
        held_back(pre, mid, menu::kind_of(m.screen)).screen == pre.screen,
        after.screen == mid.screen,
        after.pending_close is None,
        m2 == m,
{
}

/// The shoulder buttons go round the tabs: three times right leads to the tab where
/// it began, and left undoes right.
pub proof fn shoulder_buttons_go_round(s: State, t: Tab)
    requires
        screen::tab_of(s.screen) == Some(t),
    ensures
        ({
            let right = |x: Screen| match tab_switch(x, Button::R) {
                Some(t) => tab_home(s, t),
                None => x,
            };
            let left = |x: Screen| match tab_switch(x, Button::L) {
                Some(t) => tab_home(s, t),
                None => x,
            };
            &&& screen::tab_of(left(right(s.screen))) == Some(t)
            &&& screen::tab_of(right(right(right(s.screen)))) == Some(t)
        }),
{
    tabs_are_home(s, screen::tab_next(t));
    tabs_are_home(s, screen::tab_next(screen::tab_next(t)));
    tabs_are_home(s, t);
}

} // verus!
