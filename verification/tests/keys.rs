use flashnx::library::buttons::touches;
use flashnx::library::buttons::touches::KeyFacts;
use flashnx::library::screen as lib_screen;
use flashnx::library::screen::Button;
use flashnx::library::state::{Compression, Entry, State};
use flashnx::loc;
use flashnx::loc::Settings;
use flashnx::menu;
use flashnx::menu::board;
use flashnx::menu::board::BoardKey;
use flashnx::menu::pad;
use flashnx::menu::pad::{Dir, Keys, Slot};
use flashnx::menu::{Effect, Facts, Menu, PendingNet, Picture, Scene, Screen};
use flashnx::panel::{Toast, TOAST_ERR, TOAST_FRAMES};
use flashnx::profiles;
use flashnx::profiles::{Match, MatchKind, Profile, ProfileGame};

fn slot(name: &str, cx: i64, cy: i64, locked: bool, bound: Option<&str>) -> Slot {
    Slot { name: name.to_string(), cx, cy, locked, bound: bound.map(|b| b.to_string()) }
}

fn key(name: &str, row: u8, cx: i64) -> BoardKey {
    BoardKey { name: name.to_string(), row, cx }
}

/// Two columns of three slots, the middle one on the left locked; two rows of keys.
fn keys() -> Keys {
    Keys {
        slots: vec![
            slot("Up", 0, 0, false, Some("W")),
            slot("ZL", 0, 1000, true, None),
            slot("Down", 0, 2000, false, None),
            slot("X", 5000, 100, false, Some("gone")),
            slot("A", 5000, 1100, false, None),
            slot("B", 5000, 1900, false, None),
        ],
        board: vec![
            key("Q", 0, 500),
            key("W", 0, 1500),
            key("E", 0, 2500),
            key("A", 1, 800),
            key("(none)", 1, 2400),
        ],
        rows: 2,
        player: 1,
        subtab: 0,
        subtabs: 3,
        modifier_word: "modifier".to_string(),
    }
}

fn found(id: &str) -> Match {
    Match {
        profile: Profile {
            schema: 1,
            id: id.to_string(),
            game: ProfileGame {
                title: id.to_string(),
                fp_uuid: String::new(),
                swf_hash: String::new(),
            },
            author: String::new(),
            verified: false,
            notes: String::new(),
            bindings: Vec::new(),
            bindings_p2: Vec::new(),
            combo_layers: Vec::new(),
            combo_layers_p2: Vec::new(),
            cursor_speed: -1,
            show_cursor: true,
        },
        kind: MatchKind::Title,
        applied: 0,
    }
}

fn own_id(install: &str) -> String {
    let id = format!("game-{}", install);
    assert!(profiles::is_mine(&id, install));
    id
}

const INSTALL: &str = "0123456789abcdef0123456789abcdef";

fn press(m: &mut Menu, k: &Keys, b: Button) -> (bool, Effect) {
    menu::input(m, k, INSTALL, false, b)
}

fn scene() -> Scene {
    Scene {
        game: "Game".to_string(),
        speed_x10: 15,
        show_cursor: true,
        install: INSTALL.to_string(),
        modifier: "ZL".to_string(),
        unavailable: false,
    }
}

#[test]
fn steps_over_the_pad() {
    let k = keys();
    assert_eq!(pad::pad_step(&k, 0, Dir::Down), 2);
    assert_eq!(pad::pad_step(&k, 2, Dir::Down), 0);
    assert_eq!(pad::pad_step(&k, 0, Dir::Up), 2);
    assert_eq!(pad::pad_step(&k, 0, Dir::Right), 3);
    assert_eq!(pad::pad_step(&k, 2, Dir::Right), 5);
    assert_eq!(pad::pad_step(&k, 4, Dir::Left), 2);
    assert_eq!(pad::pad_step(&k, 3, Dir::Right), 3);
    assert_eq!(pad::unstick_cursor(&k, 1), 2);
    assert_eq!(pad::unstick_cursor(&k, 4), 4);
}

#[test]
fn steps_over_the_board() {
    let k = keys();
    assert_eq!(board::key_left(&k, 0), 2);
    assert_eq!(board::key_right(&k, 2), 0);
    assert_eq!(board::key_right(&k, 0), 1);
    assert_eq!(board::key_down(&k, 2), 4);
    assert_eq!(board::key_down(&k, 4), 2);
    assert_eq!(board::key_up(&k, 0), 3);
    assert_eq!(board::key_to_start(&k, 0), 1);
    assert_eq!(board::key_to_start(&k, 2), 4);
    assert_eq!(board::key_to_start(&k, 3), 4);
}

#[test]
fn binding_a_slot() {
    let k = keys();
    let mut m = Menu::new();
    assert_eq!(press(&mut m, &k, Button::A), (false, Effect::Nothing));
    menu::open(&mut m, &k);
    assert_eq!(m.screen, Screen::List { selection: 0 });
    press(&mut m, &k, Button::A);
    assert_eq!(m.screen, Screen::Keyboard { button_idx: 0, key_idx: 1 });
    let e = press(&mut m, &k, Button::A).1;
    assert_eq!(e, Effect::Bind { slot: 0, key: Some(1) });
    menu::binding_done(&mut m, &k, &Settings::new(), 0, true);
    assert_eq!(m.screen, Screen::List { selection: 0 });
    assert!(menu::consume_dirty(&mut m));
    assert!(!menu::consume_dirty(&mut m));
    m.screen = Screen::Keyboard { button_idx: 2, key_idx: 4 };
    assert_eq!(press(&mut m, &k, Button::A).1, Effect::Bind { slot: 2, key: None });
    menu::binding_done(&mut m, &k, &Settings::new(), 2, false);
    assert!(!m.dirty);
    assert_eq!(m.toast.msg, loc::s(&Settings::new()).err_sd_write);
    press(&mut m, &k, Button::B);
    assert!(!menu::is_active(&m));
}

#[test]
fn a_locked_slot_says_that_it_is_one() {
    let k = keys();
    let mut m = Menu::new();
    m.screen = Screen::List { selection: 1 };
    press(&mut m, &k, Button::A);
    assert_eq!(m.screen, Screen::List { selection: 1 });
    assert_eq!(m.toast.msg, "ZL : modifier");
    menu::settle_cursor(&mut m, &k);
    assert_eq!(m.screen, Screen::List { selection: 2 });
}

#[test]
fn players_and_layers() {
    let mut k = keys();
    let mut m = Menu::new();
    menu::open(&mut m, &k);
    assert_eq!(press(&mut m, &k, Button::X).1, Effect::SetPlayer { player: 2 });
    k.player = 2;
    assert_eq!(press(&mut m, &k, Button::X).1, Effect::SetPlayer { player: 1 });
    assert_eq!(press(&mut m, &k, Button::L).1, Effect::Nothing);
    assert_eq!(press(&mut m, &k, Button::R).1, Effect::SetSubtab { index: 1 });
    k.subtab = 2;
    assert_eq!(press(&mut m, &k, Button::R).1, Effect::Nothing);
    assert_eq!(press(&mut m, &k, Button::L).1, Effect::SetSubtab { index: 1 });
}

#[test]
fn the_menu_in_a_game() {
    let k = keys();
    let mut m = Menu::new();
    menu::open_submenu(&mut m, true, false);
    assert_eq!(press(&mut m, &k, Button::A).1, Effect::StartEdit);
    menu::edit_started(&mut m, &k);
    press(&mut m, &k, Button::B);
    assert_eq!(m.screen, Screen::Menu { selection: menu::MENU_EDIT });
    press(&mut m, &k, Button::Up);
    assert_eq!(m.screen, Screen::Menu { selection: menu::MENU_REVERT });
    assert_eq!(press(&mut m, &k, Button::A).1, Effect::OpenRevertPreview);
    menu::revert_preview_built(&mut m, vec!["A: x".to_string()]);
    assert_eq!(menu::screen_kind(&m), 7);
    assert_eq!(press(&mut m, &k, Button::A).1, Effect::Revert);
    press(&mut m, &k, Button::B);
    assert_eq!(m.screen, Screen::Menu { selection: menu::MENU_REVERT });
    assert!(m.preview.is_empty());
    menu::reverted(
        &mut m,
        &Settings::new(),
        true,
        Facts { can_revert: false, has_backup: false },
    );
    assert!(m.dirty);
    // What failed takes no refresh back, and asks for none.
    let none = Facts { can_revert: false, has_backup: false };
    menu::reverted(&mut m, &Settings::new(), false, none);
    assert!(m.dirty);
    menu::applied(&mut m, &Settings::new(), false, none);
    assert!(menu::consume_dirty(&mut m));
    menu::reverted(&mut m, &Settings::new(), false, none);
    menu::applied(&mut m, &Settings::new(), false, none);
    assert!(!m.dirty);
    m.screen = Screen::Menu { selection: menu::MENU_EDIT };
    press(&mut m, &k, Button::Up);
    assert_eq!(m.screen, Screen::Menu { selection: 4 });
    assert_eq!(press(&mut m, &k, Button::A).1, Effect::ToggleShowCursor);
}

#[test]
fn a_request_of_the_menu_waits_for_its_panel() {
    let k = keys();
    let mut m = Menu::new();
    menu::open_submenu(&mut m, false, false);
    m.screen = Screen::Menu { selection: menu::MENU_APPLY };
    press(&mut m, &k, Button::A);
    assert_eq!(m.screen, Screen::Loading);
    assert_eq!(menu::drive_pending_net(&mut m), None);
    assert_eq!(menu::drive_pending_net(&mut m), Some(PendingNet::OpenProfiles));
    assert_eq!(menu::drive_pending_net(&mut m), None);
}

#[test]
fn profiles_in_a_game() {
    let k = keys();
    let mut m = Menu::new();
    let mine = own_id(INSTALL);
    menu::profiles_found(&mut m, vec![found("other"), found(&mine)], String::new());
    press(&mut m, &k, Button::X);
    assert_eq!(m.screen, Screen::Profiles { selection: 0 });
    press(&mut m, &k, Button::Up);
    press(&mut m, &k, Button::X);
    assert_eq!(m.screen, Screen::DeleteConfirm { profile_idx: 1 });
    press(&mut m, &k, Button::A);
    assert_eq!(m.pending, Some((PendingNet::Delete { profile_idx: 1 }, false)));
    menu::deleted(&mut m, &Settings::new(), 1, Ok(()));
    assert_eq!(m.matches.len(), 1);
    assert_eq!(m.screen, Screen::Profiles { selection: 0 });
    assert_eq!(press(&mut m, &k, Button::A).1, Effect::OpenPreview { profile_idx: 0 });
    menu::preview_built(&mut m, &Settings::new(), 0, Vec::new());
    assert_eq!(m.toast.msg, loc::s(&Settings::new()).profile_preview_none);
    menu::preview_built(&mut m, &Settings::new(), 0, vec!["r".to_string()]);
    assert_eq!(m.screen, Screen::Preview { profile_idx: 0 });
    press(&mut m, &k, Button::A);
    menu::applied(
        &mut m,
        &Settings::new(),
        true,
        Facts { can_revert: true, has_backup: true },
    );
    assert!(m.dirty && m.can_revert && m.has_backup);
    assert_eq!(m.screen, Screen::Menu { selection: menu::MENU_APPLY });
    menu::shared(
        &mut m,
        &Settings::new(),
        Err("no".to_string()),
        Facts { can_revert: true, has_backup: true },
    );
    assert_eq!(m.toast.msg, "no");
}

#[test]
fn a_second_tap_activates() {
    let k = keys();
    let mut m = Menu::new();
    menu::open(&mut m, &k);
    assert!(!menu::touch_select(&mut m, &k, 4));
    assert!(menu::touch_select(&mut m, &k, 4));
    assert!(!menu::touch_select(&mut m, &k, 1));
    assert!(!menu::touch_select(&mut m, &k, 9));
    assert_eq!(m.screen, Screen::List { selection: 4 });
}

#[test]
fn pictures_of_the_menu() {
    let k = keys();
    let st = Settings::new();
    let lc = loc::s(&st);
    let mut m = Menu::new();
    assert!(matches!(menu::draw(&mut m, &k, &st, &scene()).0, Picture::Nothing));
    menu::open_submenu(&mut m, true, true);
    match menu::draw(&mut m, &k, &st, &scene()).0 {
        Picture::Rows(p) => {
            assert_eq!(p.title, lc.opt_keys);
            assert_eq!(p.subtitle, "Game");
            assert_eq!(p.rows.len(), 6);
        }
        _ => panic!("no rows"),
    }
    m.screen = Screen::Keyboard { button_idx: 4, key_idx: 2 };
    match menu::draw(&mut m, &k, &st, &scene()).0 {
        Picture::Keyboard { label, key_idx } => {
            assert_eq!((label.as_str(), key_idx), ("ZL+A", 2));
        }
        _ => panic!("no keyboard"),
    }
}

#[test]
fn a_toast_counts_down_while_the_menu_is_open() {
    let k = keys();
    let st = Settings::new();
    let mut m = Menu::new();
    m.toast = Toast::saying("no".to_string(), TOAST_ERR);
    let (picture, toast) = menu::draw(&mut m, &k, &st, &scene());
    assert!(matches!(picture, Picture::Nothing));
    assert_eq!(toast, None);
    assert_eq!(m.toast.frames, TOAST_FRAMES);
    menu::open_submenu(&mut m, true, true);
    m.toast = Toast::saying("no".to_string(), TOAST_ERR);
    for left in 1..3 {
        let (_, toast) = menu::draw(&mut m, &k, &st, &scene());
        assert_eq!(toast, Some(("no".to_string(), TOAST_ERR)));
        assert_eq!(m.toast.frames, TOAST_FRAMES - left);
    }
}

fn with_game() -> State {
    let mut s = State::new();
    s.entries = vec![Entry {
        path: "p/g.swf".to_string(),
        basename: "g.swf".to_string(),
        display_name: "G".to_string(),
        size_bytes: 1,
        swf_version: 8,
        compression: Compression::Fws,
        is_as3: false,
        hue: 0,
        mtime: 0,
        source_item: String::new(),
    }];
    s
}

fn facts() -> KeyFacts {
    KeyFacts { has_backup: false, can_revert: false, cursor_idx: -1, show_cursor: true }
}

#[test]
fn the_keys_of_a_game() {
    let mut s = with_game();
    touches::goto_touches_menu(&mut s, 0, 9, facts());
    assert_eq!(s.screen, lib_screen::Screen::TouchesMenu { game_idx: 0, selection: 4 });
    let e = touches::handle_touches_menu_input(&mut s, false, Button::A, 0, 4);
    assert_eq!(e, lib_screen::Effect::ToggleShowCursor { game_idx: 0 });
    assert!(!s.touches.show_cursor);
    touches::goto_touches_menu(&mut s, 0, 3, facts());
    let e = touches::handle_touches_menu_input(&mut s, false, Button::A, 0, 3);
    assert_eq!(e, lib_screen::Effect::SetCursorSpeed { game_idx: 0, speed: 2 });
    assert_eq!(touches::cursor_x10(2), 15);
    assert_eq!(touches::cursor_x10(-1), 10);
    assert_eq!(touches::cursor_x10(99), 50);
    touches::goto_touches_menu(&mut s, 0, 1, facts());
    touches::handle_touches_menu_input(&mut s, false, Button::A, 0, 1);
    assert_eq!(s.net_label, "G");
    assert_eq!(
        s.pending_net,
        Some((lib_screen::PendingNet::OpenProfiles { game_idx: 0 }, false))
    );
}

#[test]
fn profiles_of_a_game() {
    let mut s = with_game();
    let mine = own_id(INSTALL);
    touches::profiles_found(&mut s, 0, vec![found(&mine), found("b")], "b".to_string());
    touches::handle_profile_list_input(&mut s, INSTALL, Button::X, 0, 0);
    assert_eq!(
        s.screen,
        lib_screen::Screen::ProfileDeleteConfirm { game_idx: 0, profile_idx: 0 }
    );
    touches::handle_confirm_input(&mut s, Button::A);
    assert_eq!(
        s.pending_net,
        Some((lib_screen::PendingNet::DeleteProfile { game_idx: 0, profile_idx: 0 }, false))
    );
    touches::profile_deleted(&mut s, 0, 0, Err("no".to_string()));
    assert_eq!((s.touches.matches.len(), s.toast.msg.as_str()), (2, "no"));
    touches::profile_deleted(&mut s, 0, 0, Ok(()));
    assert_eq!(s.touches.matches.len(), 1);
    touches::revert_preview_built(&mut s, 0, vec!["x".to_string()]);
    assert_eq!(
        touches::handle_confirm_input(&mut s, Button::B),
        lib_screen::Effect::EnterTouches { game_idx: 0, selection: 5 }
    );
    touches::applied(&mut s, 0, false, facts());
    assert_eq!(s.toast.msg, loc::s(&s.settings).bug_fail_title);
}
