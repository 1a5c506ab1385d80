use flashnx::library::buttons::settings;
use flashnx::library::gallery;
use flashnx::library::gallery::{Cell, Layout};
use flashnx::library::screen;
use flashnx::library::screen::{Button, Effect, Screen};
use flashnx::library::state::{Compression, Entry, State};
use flashnx::loc;
use flashnx::loc::{Lang, Settings};

fn game(name: &str) -> Entry {
    Entry {
        path: format!("p/{}", name),
        basename: name.to_string(),
        display_name: "G".to_string(),
        size_bytes: 7,
        swf_version: 9,
        compression: Compression::Cws,
        is_as3: true,
        hue: 0,
        mtime: 0,
        source_item: String::new(),
    }
}

fn on(sel: usize) -> State {
    let mut s = State::new();
    s.screen = Screen::SettingsModal { selection: sel };
    s
}

#[test]
fn rows_of_the_settings() {
    let mut s = on(0);
    assert_eq!(
        settings::handle_settings_input(&mut s, Button::A, 0),
        Effect::SaveHomeView
    );
    let first = s.settings.home_view;
    for _ in 0..4 {
        settings::handle_settings_input(&mut s, Button::A, 0);
    }
    assert_eq!(s.settings.home_view, first);
    settings::handle_settings_input(&mut s, Button::Up, 0);
    assert_eq!(s.screen, Screen::SettingsModal { selection: 6 });
    settings::handle_settings_input(&mut s, Button::A, 6);
    assert_eq!(s.screen, Screen::Quit);
    let mut s = on(3);
    settings::handle_settings_input(&mut s, Button::A, 3);
    assert_eq!(s.screen, Screen::BugResult);
    assert_eq!(s.bug_msg, loc::s(&s.settings).bug_no_games);
}

#[test]
fn defaults_for_games_go_round() {
    let mut s = State::new();
    s.screen = Screen::SettingsPrefsModal { selection: 1 };
    for want in [1, 2, 0] {
        let e = settings::handle_settings_prefs_input(&mut s, Button::A, 1);
        assert_eq!(e, Effect::SaveSettings);
        assert_eq!(s.settings.display_mode, want);
    }
    s.screen = Screen::SettingsPrefsModal { selection: 3 };
    assert_eq!(
        settings::handle_settings_prefs_input(&mut s, Button::A, 3),
        Effect::CycleCursorSpeed
    );
    settings::handle_settings_prefs_input(&mut s, Button::B, 3);
    assert_eq!(s.screen, Screen::SettingsModal { selection: 1 });
}

#[test]
fn choosing_a_language() {
    let mut s = State::new();
    let at = |i: usize| Screen::SettingsLanguagePicker { selection: i };
    s.screen = at(1);
    settings::handle_settings_language_input(&mut s, true, Button::Up, 1);
    assert_eq!(s.screen, at(7));
    settings::handle_settings_language_input(&mut s, true, Button::Down, 7);
    assert_eq!(s.screen, at(1));
    settings::handle_settings_language_input(&mut s, true, Button::Left, 1);
    assert_eq!(s.screen, at(0));
    settings::handle_settings_language_input(&mut s, true, Button::Left, 0);
    assert_eq!(s.screen, at(8));
    s.screen = at(4);
    let e = settings::handle_settings_language_input(&mut s, true, Button::A, 4);
    assert_eq!(e, Effect::SaveLanguage { index: 4 });
    assert_eq!(s.settings.lang, Lang::De);
    assert_eq!(s.screen, Screen::SettingsModal { selection: 2 });
    s.screen = at(7);
    settings::handle_settings_language_input(&mut s, false, Button::A, 7);
    assert_eq!(s.settings.lang, Lang::En);
}

#[test]
fn reports() {
    let st = Settings::new();
    let r = settings::bug_report(&game("g.swf"), Some(" https://u\n"), " crashes ", &st, true);
    assert_eq!((r.kind, r.game.as_str(), r.file.as_str()), ("bug", "G", "g.swf"));
    assert_eq!((r.source_url.as_str(), r.description.as_str()), ("https://u", "crashes"));
    assert_eq!((r.size, r.swf_version, r.compression.as_str()), (7, 9, "CWS"));
    assert_eq!((r.as3, r.applet, r.lang), (true, true, "en"));
    assert!(settings::suggestion("  ", &st, false).is_none());
    let p = settings::suggestion(" more ", &st, false).unwrap();
    assert_eq!((p.kind, p.description.as_str(), p.size), ("suggestion", "more", 0));
    let mut s = State::new();
    settings::report_sent(&mut s, Ok(()));
    assert!(s.bug_ok);
    assert_eq!(s.bug_msg, loc::s(&s.settings).bug_ok_msg);
    settings::report_sent(&mut s, Err("no".to_string()));
    assert_eq!((s.bug_ok, s.bug_msg.as_str()), (false, "no"));
    settings::pseudo_set(&mut s);
    assert_eq!(s.screen, Screen::SettingsModal { selection: 5 });
}

#[test]
fn picking_the_game_with_the_bug() {
    let mut s = State::new();
    s.entries = vec![game("a"), game("b")];
    s.screen = Screen::BugPicker { selection: 0, scroll_offset: 0 };
    settings::handle_bug_picker_input(&mut s, Button::Up, 0, 0);
    assert_eq!(s.screen, Screen::BugPicker { selection: 1, scroll_offset: 0 });
    assert_eq!(
        settings::handle_bug_picker_input(&mut s, Button::A, 1, 0),
        Effect::ReportBug { game_idx: 1 }
    );
}

#[test]
fn names_of_buttons() {
    assert_eq!(screen::button_of("StickLUp"), Button::Up);
    assert_eq!(screen::button_of("ZL+ZR"), Button::BothTriggers);
    assert_eq!(screen::button_of("Plus"), Button::Plus);
    assert_eq!(screen::button_of("ZL"), Button::Other);
}

#[test]
fn ends_of_a_list_are_neighbours() {
    assert_eq!(screen::wrap_up(0, 4), 4);
    assert_eq!(screen::wrap_down(4, 4), 0);
    assert_eq!(screen::wrap_down(screen::wrap_up(3, 4), 4), 3);
    assert_eq!(screen::clamp_scroll(0, 9, 5), 5);
    assert_eq!(screen::clamp_scroll(7, 2, 5), 2);
    assert_eq!(screen::clamp_scroll(1, 3, 5), 1);
}

#[test]
fn boxes_of_the_url_rows() {
    let y = |sel: usize, scroll: usize| screen::distant_row_rect(sel, scroll, 1280).y;
    assert_eq!((y(0, 0), y(3, 1), y(0, 4), y(40, 0)), (152, 252, 152, 602));
    let r = screen::distant_row_rect(0, 0, 1280);
    assert_eq!((r.x, r.w, r.h), (20, 1240, 54));
}

#[test]
fn tiles_above_and_below() {
    let cell = |row: u32, cx: i64| Cell { row, cx };
    let l = Layout {
        cells: vec![cell(0, 100), cell(0, 300), cell(1, 150), cell(1, 250), cell(4, 200)],
        rows: 5,
    };
    assert_eq!(gallery::gallery_neighbor(&l, 0, 1), Some(2));
    assert_eq!(gallery::gallery_neighbor(&l, 1, 1), Some(3));
    assert_eq!(gallery::gallery_neighbor(&l, 3, -1), Some(1));
    assert_eq!(gallery::gallery_neighbor(&l, 0, -1), None);
    assert_eq!(gallery::gallery_neighbor(&l, 2, 1), None);
    assert_eq!(gallery::gallery_scroll_for(&l, 0, 4, 0), 2);
    assert_eq!(gallery::gallery_scroll_for(&l, 0, 0, 3), 0);
    assert_eq!(gallery::gallery_scroll_for(&l, 0, 9, 3), 3);
}
