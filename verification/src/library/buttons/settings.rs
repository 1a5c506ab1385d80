//! The settings tab, its panels, and reports.

use crate::library::screen;
use crate::library::screen::{
    clamp_scroll, wrap_down, wrap_up, Button, Effect, Screen, BUG_PICKER_VISIBLE_ROWS,
};
use crate::library::state;
use crate::library::state::{Entry, State};
use crate::loc;
use crate::loc::strings::Strings;
use crate::loc::{Lang, Settings};
use crate::text;
use vstd::prelude::*;

verus! {

/// The number of ways to scale a game: fit, stretch, fill.
pub const DISPLAY_MODE_COUNT: u8 = 3;

/// The number of screen filters: none, scanlines, tube.
pub const SCREEN_FILTER_COUNT: u8 = 3;

/// The last row of the settings: layout, game defaults, language, report,
/// proposal, nickname, quit.
pub const SETTINGS_LAST: usize = 6;

/// What a button does on the settings tab.
pub open spec fn settings_step(pre: State, b: Button, sel: int, post: State, e: Effect) -> bool {
    let to = |x: Screen| post == (State { screen: x, ..pre }) && e == Effect::Nothing;
    let here = |i: int| to(Screen::SettingsModal { selection: i as usize });
    match b {
        Button::Up => here(screen::up_in(sel, 6)),
        Button::Down => here(screen::down_in(sel, 6)),
        Button::A => if sel == 0 {
            &&& post == (State {
                settings: Settings {
                    home_view: ((pre.settings.home_view % 4 + 1) % 4) as u8,
                    ..pre.settings
                },
                ..pre
            })
            &&& e == Effect::SaveHomeView
        } else if sel == 1 {
            to(Screen::SettingsPrefsModal { selection: 0 })
        } else if sel == 2 {
            to(
                Screen::SettingsLanguagePicker {
                    selection: loc::lang_index(pre.settings.lang) as usize,
                },
            )
        } else if sel == 3 {
            if pre.entries@.len() == 0 {
                &&& post == (State {
                    screen: Screen::BugResult,
                    bug_ok: false,
                    bug_msg: post.bug_msg,
                    ..pre
                })
                &&& post.bug_msg@ == loc::table_of(pre.settings.lang).bug_no_games@
                &&& e == Effect::Nothing
            } else {
                to(Screen::BugPicker { selection: 0, scroll_offset: 0 })
            }
        } else if sel == 4 {
            post == pre && e == Effect::Suggest
        } else if sel == 5 {
            post == pre && e == Effect::SetPseudo
        } else if sel == 6 {
            to(Screen::Quit)
        } else {
            post == pre && e == Effect::Nothing
        },
        _ => post == pre && e == Effect::Nothing,
    }
}

/// A button on the settings tab.
pub fn handle_settings_input(s: &mut State, b: Button, selection: usize) -> (e: Effect)
    requires
        old(s).screen == (Screen::SettingsModal { selection }),
    ensures
        settings_step(*old(s), b, selection as int, *final(s), e),
{
    match b {
        Button::Up => {
            s.screen = Screen::SettingsModal { selection: wrap_up(selection, SETTINGS_LAST) };
        },
        Button::Down => {
            s.screen = Screen::SettingsModal { selection: wrap_down(selection, SETTINGS_LAST) };
        },
        Button::A => match selection {
            0 => {
                let v: u8 = loc::home_view(&s.settings) + 1;
                loc::set_home_view(&mut s.settings, v);
                return Effect::SaveHomeView;
            },
            1 => {
                s.screen = Screen::SettingsPrefsModal { selection: 0 };
            },
            2 => {
                let cur: usize = loc::current(&s.settings).index();
                s.screen = Screen::SettingsLanguagePicker { selection: cur };
            },
            3 => {
                if s.entries.len() == 0 {
                    let lc: Strings = loc::s(&s.settings);
                    s.bug_ok = false;
                    s.bug_msg = lc.bug_no_games.to_owned();
                    s.screen = Screen::BugResult;
                } else {
                    s.screen = Screen::BugPicker { selection: 0, scroll_offset: 0 };
                }
            },
            4 => {
                return Effect::Suggest;
            },
            5 => {
                return Effect::SetPseudo;
            },
            6 => {
                s.screen = Screen::Quit;
            },
            _ => {},
        },
        _ => {},
    }
    Effect::Nothing
}

/// What a button does on the panel of the game defaults.
pub open spec fn prefs_step(pre: State, b: Button, sel: int, post: State, e: Effect) -> bool {
    let to = |x: Screen| post == (State { screen: x, ..pre }) && e == Effect::Nothing;
    let here = |i: int| to(Screen::SettingsPrefsModal { selection: i as usize });
    let back = to(Screen::SettingsModal { selection: 1 });
    match b {
        Button::Up => here(screen::up_in(sel, 3)),
        Button::Down => here(screen::down_in(sel, 3)),
        Button::A => if sel == 0 {
            post == (State { screen: Screen::SettingsKeymapEditor, ..pre }) && e
                == Effect::EditDefaultKeys
        } else if sel == 1 {
            post == (State {
                settings: Settings {
                    display_mode: ((pre.settings.display_mode + 1) % 3) as u8,
                    ..pre.settings
                },
                ..pre
            }) && e == Effect::SaveSettings
        } else if sel == 2 {
            post == (State {
                settings: Settings {
                    screen_filter: ((pre.settings.screen_filter + 1) % 3) as u8,
                    ..pre.settings
                },
                ..pre
            }) && e == Effect::SaveSettings
        } else {
            post == pre && e == Effect::CycleCursorSpeed
        },
        Button::B => back,
        Button::Minus => back,
        _ => post == pre && e == Effect::Nothing,
    }
}

fn step_of(v: u8, n: u8) -> (r: u8)
    requires
        n > 0,
    ensures
        r == (v + 1) % n as int,
{
    ((v as u16 + 1) % (n as u16)) as u8
}

/// A button on the panel of the game defaults: keys, scaling, filter, cursor speed.
pub fn handle_settings_prefs_input(s: &mut State, b: Button, selection: usize) -> (e: Effect)
    requires
        old(s).screen == (Screen::SettingsPrefsModal { selection }),
    ensures
        prefs_step(*old(s), b, selection as int, *final(s), e),
{
    match b {
        Button::Up => {
            s.screen = Screen::SettingsPrefsModal { selection: wrap_up(selection, 3) };
        },
        Button::Down => {
            s.screen = Screen::SettingsPrefsModal { selection: wrap_down(selection, 3) };
        },
        Button::A => match selection {
            0 => {
                s.screen = Screen::SettingsKeymapEditor;
                return Effect::EditDefaultKeys;
            },
            1 => {
                let v: u8 = step_of(loc::default_display_mode(&s.settings), DISPLAY_MODE_COUNT);
                loc::set_default_display_mode(&mut s.settings, v);
                return Effect::SaveSettings;
            },
            2 => {
                let v: u8 = step_of(loc::default_screen_filter(&s.settings), SCREEN_FILTER_COUNT);
                loc::set_default_screen_filter(&mut s.settings, v);
                return Effect::SaveSettings;
            },
            _ => {
                return Effect::CycleCursorSpeed;
            },
        },
        Button::B | Button::Minus => {
            s.screen = Screen::SettingsModal { selection: 1 };
        },
        _ => {},
    }
    Effect::Nothing
}

/// Where a direction leads on the grid of languages, three in a row: left and
/// right go on around the ends, up and down stay in the column.
pub open spec fn grid_move(b: Button, sel: int) -> int {
    match b {
        Button::Left => screen::up_in(sel, 8),
        Button::Right => screen::down_in(sel, 8),
        Button::Up => if sel >= 3 {
            sel - 3
        } else {
            6 + sel % 3
        },
        Button::Down => if sel + 3 <= 8 {
            sel + 3
        } else {
            sel % 3
        },
        _ => sel,
    }
}

/// What a button does on the panel of the languages.
pub open spec fn language_step(pre: State, cjk: bool, b: Button, sel: int, post: State, e: Effect) -> bool {
    let back = State { screen: Screen::SettingsModal { selection: 2 }, ..pre };
    match b {
        Button::A => if sel < 9 {
            post == (State {
                settings: Settings {
                    lang: loc::usable(loc::lang_at(sel), cjk),
                    ..pre.settings
                },
                ..back
            }) && e == (Effect::SaveLanguage { index: sel as usize })
        } else {
            post == back && e == Effect::Nothing
        },
        Button::B => post == back && e == Effect::Nothing,
        Button::Minus => post == back && e == Effect::Nothing,
        _ => post == (State {
            screen: Screen::SettingsLanguagePicker { selection: grid_move(b, sel) as usize },
            ..pre
        }) && e == Effect::Nothing,
    }
}

/// A button on the panel of the languages.
pub fn handle_settings_language_input(s: &mut State, cjk: bool, b: Button, selection: usize) -> (e:
    Effect)
    requires
        old(s).screen == (Screen::SettingsLanguagePicker { selection }),
    ensures
        language_step(*old(s), cjk, b, selection as int, *final(s), e),
{
    let to: usize = match b {
        Button::Left => wrap_up(selection, 8),
        Button::Right => wrap_down(selection, 8),
        Button::Up => if selection >= 3 {
            selection - 3
        } else {
            6 + selection % 3
        },
        Button::Down => if selection <= 5 {
            selection + 3
        } else {
            selection % 3
        },
        Button::A => {
            s.screen = Screen::SettingsModal { selection: 2 };
            if selection < 9 {
                let lang: Lang = Lang::from_index(selection);
                loc::set(&mut s.settings, lang, cjk);
                return Effect::SaveLanguage { index: selection };
            }
            return Effect::Nothing;
        },
        Button::B | Button::Minus => {
            s.screen = Screen::SettingsModal { selection: 2 };
            return Effect::Nothing;
        },
        _ => selection,
    };
    s.screen = Screen::SettingsLanguagePicker { selection: to };
    Effect::Nothing
}

/// The cursor stays on the grid of languages.
pub proof fn grid_keeps_the_cursor(b: Button, sel: int)
    requires
        0 <= sel < 9,
    ensures
        0 <= grid_move(b, sel) < 9,
        grid_move(Button::Up, grid_move(Button::Down, sel)) == sel,
        grid_move(Button::Down, grid_move(Button::Up, sel)) == sel,
        grid_move(Button::Left, grid_move(Button::Right, sel)) == sel,
        grid_move(Button::Right, grid_move(Button::Left, sel)) == sel,
{
}

// ── Reports ────────────────────────────────────────────────────────────────

/// Where a button leads on the list of games to report.
pub open spec fn bug_picker_next(n: int, b: Button, sel: int, scroll: int) -> Screen {
    let at = |i: int|
        Screen::BugPicker {
            selection: i as usize,
            scroll_offset: screen::scrolled_to(scroll, i, BUG_PICKER_VISIBLE_ROWS as int) as usize,
        };
    let stay = Screen::BugPicker { selection: sel as usize, scroll_offset: scroll as usize };
    match b {
        Button::Up => if n == 0 {
            stay
        } else {
            at(screen::up_in(sel, n - 1))
        },
        Button::Down => if n == 0 {
            stay
        } else {
            at(screen::down_in(sel, n - 1))
        },
        Button::B => Screen::SettingsModal { selection: 3 },
        _ => stay,
    }
}

/// A button on the list of games to report.
pub fn handle_bug_picker_input(s: &mut State, b: Button, selection: usize, scroll: usize) -> (e: Effect)
    requires
        old(s).screen == (Screen::BugPicker { selection, scroll_offset: scroll }),
    ensures
        *final(s) == (State {
            screen: bug_picker_next(
                old(s).entries@.len() as int,
                b,
                selection as int,
                scroll as int,
            ),
            ..*old(s)
        }),
        e == (if b == Button::A {
            Effect::ReportBug { game_idx: selection }
        } else {
            Effect::Nothing
        }),
{
    let n: usize = s.entries.len();
    match b {
        Button::Up => {
            if n > 0 {
                let to: usize = wrap_up(selection, n - 1);
                s.screen = Screen::BugPicker {
                    selection: to,
                    scroll_offset: clamp_scroll(scroll, to, BUG_PICKER_VISIBLE_ROWS),
                };
            }
        },
        Button::Down => {
            if n > 0 {
                let to: usize = wrap_down(selection, n - 1);
                s.screen = Screen::BugPicker {
                    selection: to,
                    scroll_offset: clamp_scroll(scroll, to, BUG_PICKER_VISIBLE_ROWS),
                };
            }
        },
        Button::B => {
            s.screen = Screen::SettingsModal { selection: 3 };
        },
        Button::A => {
            return Effect::ReportBug { game_idx: selection };
        },
        _ => {},
    }
    Effect::Nothing
}

/// What is sent: of a game that does not work, or a proposal.
pub struct Report {
    pub kind: &'static str,
    pub game: String,
    pub file: String,
    pub source_url: String,
    pub size: u64,
    pub swf_version: u8,
    pub compression: String,
    pub as3: bool,
    pub lang: &'static str,
    pub applet: bool,
    pub description: String,
}

/// The report on a game. `url` is what stands beside the game of where it came
/// from.
pub fn bug_report(e: &Entry, url: Option<&str>, description: &str, st: &Settings, applet: bool) -> (r:
    Report)
    ensures
        r.kind@ == "bug"@,
        r.game@ == e.display_name@,
        r.file@ == e.basename@,
        r.source_url@ == (match url {
            Some(u) => text::trimmed(u@),
            None => Seq::empty(),
        }),
        r.size == e.size_bytes,
        r.swf_version == e.swf_version,
        r.compression@ == state::signature(e.compression),
        r.as3 == e.is_as3,
        r.lang@ == loc::lang_code(st.lang),
        r.applet == applet,
        r.description@ == text::trimmed(description@),
{
    let source_url: String = match url {
        Some(u) => text::trim(u),
        None => {
            let e: String = String::new();
            assert(e@ =~= Seq::empty());
            e
        },
    };
    Report {
        kind: "bug",
        game: e.display_name.clone(),
        file: e.basename.clone(),
        source_url,
        size: e.size_bytes,
        swf_version: e.swf_version,
        compression: e.compression.label().to_owned(),
        as3: e.is_as3,
        lang: loc::current(st).code(),
        applet,
        description: text::trim(description),
    }
}

/// The proposal that was typed; a blank one is none.
pub fn suggestion(typed: &str, st: &Settings, applet: bool) -> (r: Option<Report>)
    ensures
        match r {
            Some(x) => {
                &&& text::trimmed(typed@).len() > 0
                &&& x.kind@ == "suggestion"@
                &&& x.game@.len() == 0
                &&& x.file@.len() == 0
                &&& x.source_url@.len() == 0
                &&& x.size == 0
                &&& x.swf_version == 0
                &&& x.compression@.len() == 0
                &&& !x.as3
                &&& x.lang@ == loc::lang_code(st.lang)
                &&& x.applet == applet
                &&& x.description@ == text::trimmed(typed@)
            },
            None => text::trimmed(typed@).len() == 0,
        },
{
    let t: String = text::trim(typed);
    if t.unicode_len() == 0 {
        return None;
    }
    Some(
        Report {
            kind: "suggestion",
            game: String::new(),
            file: String::new(),
            source_url: String::new(),
            size: 0,
            swf_version: 0,
            compression: String::new(),
            as3: false,
            lang: loc::current(st).code(),
            applet,
            description: t,
        },
    )
}

/// A report was sent (`Ok`), or why not.
pub fn report_sent(s: &mut State, result: Result<(), String>)
    ensures
        *final(s) == (State {
            bug_ok: result is Ok,
            bug_msg: final(s).bug_msg,
            screen: Screen::BugResult,
            ..*old(s)
        }),
        final(s).bug_msg@ == (match result {
            Ok(_) => loc::table_of(old(s).settings.lang).bug_ok_msg@,
            Err(m) => m@,
        }),
{
    match result {
        Ok(_) => {
            let lc: Strings = loc::s(&s.settings);
            s.bug_ok = true;
            s.bug_msg = lc.bug_ok_msg.to_owned();
        },
        Err(m) => {
            s.bug_ok = false;
            s.bug_msg = m;
        },
    }
    s.screen = Screen::BugResult;
}

/// The nickname was set.
pub fn pseudo_set(s: &mut State)
    ensures
        *final(s) == (State { screen: Screen::SettingsModal { selection: 5 }, ..*old(s) }),
{
    s.screen = Screen::SettingsModal { selection: 5 };
}

} // verus!
