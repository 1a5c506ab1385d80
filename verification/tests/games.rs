use flashnx::library;
use flashnx::library::buttons::games;
use flashnx::library::filters;
use flashnx::library::frame;
use flashnx::library::screen::{Button, Effect, PendingClose, Screen, Tab};
use flashnx::library::sorting;
use flashnx::library::sorting::SortMode;
use flashnx::library::state::{Compression, Entry, State};
use flashnx::library::{Facts, Reply};
use flashnx::loc;
use flashnx::menu::pad::Keys;
use flashnx::menu::Menu;
use flashnx::playtime;

fn game(file: &str, name: &str, size: u64, mtime: u64) -> Entry {
    Entry {
        path: format!("sdmc:/flashnx/{}", file),
        basename: file.to_string(),
        display_name: name.to_string(),
        size_bytes: size,
        swf_version: 9,
        compression: Compression::Fws,
        is_as3: true,
        hue: 0,
        mtime,
        source_item: String::new(),
    }
}

fn three() -> State {
    let mut s = State::new();
    s.entries = vec![
        game("c.swf", "charlie", 10, 300),
        game("a.swf", "Alpha", 30, 100),
        game("b.swf", "bravo", 20, 200),
    ];
    s
}

fn no_keys() -> Keys {
    Keys {
        slots: Vec::new(),
        board: Vec::new(),
        rows: 0,
        player: 1,
        subtab: 0,
        subtabs: 1,
        modifier_word: String::new(),
    }
}

fn facts() -> Facts {
    Facts {
        busy: false,
        install: String::new(),
        from_catalog: false,
        epoch: 1_000,
        cjk: true,
    }
}

fn press(s: &mut State, b: Button) -> Reply {
    library::input(s, &mut Menu::new(), &no_keys(), &facts(), b)
}

fn names(s: &State) -> Vec<&str> {
    s.entries.iter().map(|e| e.display_name.as_str()).collect()
}

#[test]
fn opening_sorts_and_lands_on_the_game_played_last() {
    let mut s = three();
    sorting::note_played(&mut s.session, "b.swf", "bravo");
    s.local_filter = Some("x".to_string());
    assert_eq!(library::open(&mut s, false, 5), Some(1));
    assert_eq!(names(&s), vec!["Alpha", "bravo", "charlie"]);
    assert_eq!(s.screen, Screen::List { selection: 1, scroll_offset: 0 });
    assert!(s.local_filter.is_none());
    assert_eq!(s.anim_origin, 5);
    assert!(library::is_active(&s));
    let mut empty = State::new();
    assert_eq!(library::open(&mut empty, true, 0), None);
    assert_eq!(empty.screen, Screen::Empty);
    assert!(empty.applet_mode);
}

#[test]
fn the_orders_of_the_list() {
    let mut s = three();
    playtime::add(&mut s.playtime, "b.swf", 50, 10);
    playtime::add(&mut s.playtime, "c.swf", 40, 20);
    let sorted = |mode: SortMode, reverse: bool, fav: &[&str]| {
        let mut list: Vec<Entry> = three().entries;
        let favorites: Vec<String> = fav.iter().map(|f| f.to_string()).collect();
        sorting::sort_entries(&mut list, mode, reverse, &s.playtime, &favorites);
        list.iter().map(|e| e.basename.clone()).collect::<Vec<_>>().join(" ")
    };
    assert_eq!(sorted(SortMode::Alpha, false, &[]), "a.swf b.swf c.swf");
    assert_eq!(sorted(SortMode::Alpha, true, &[]), "c.swf b.swf a.swf");
    assert_eq!(sorted(SortMode::Recent, false, &[]), "c.swf b.swf a.swf");
    assert_eq!(sorted(SortMode::MostPlayed, false, &[]), "b.swf c.swf a.swf");
    assert_eq!(sorted(SortMode::RecentlyPlayed, false, &[]), "c.swf b.swf a.swf");
    assert_eq!(sorted(SortMode::Size, false, &[]), "a.swf b.swf c.swf");
    assert_eq!(sorted(SortMode::Alpha, false, &["c.swf"]), "c.swf a.swf b.swf");
    assert_eq!(sorted(SortMode::Alpha, true, &["a.swf"]), "a.swf c.swf b.swf");
}

#[test]
fn kept_orders() {
    assert_eq!(sorting::write_sort_pref(3, true), "3R");
    assert_eq!(sorting::write_sort_pref(9, false), "0");
    assert_eq!(sorting::read_sort_prefs(Some(b"3R")), (3, true));
    assert_eq!(sorting::read_sort_prefs(Some(b"4r")), (4, true));
    assert_eq!(sorting::read_sort_prefs(Some(b"2")), (2, false));
    assert_eq!(sorting::read_sort_prefs(Some(b"junk")), (0, false));
    assert_eq!(sorting::read_sort_prefs(None), (0, false));
    let mut s = State::new();
    assert_eq!(sorting::set_sort_mode(&mut s.sorting, 2), "2");
    assert_eq!(sorting::set_sort_reverse(&mut s.sorting, true), "2R");
    assert_eq!(sorting::set_import_sort(&mut s.sorting, 3, false), "3");
    assert_eq!(sorting::current_sort_mode(&s.sorting), SortMode::RecentlyPlayed);
    sorting::load_sorting(&mut s.sorting, Some(b"4"), Some(b"1R"));
    assert_eq!((s.sorting.mode, s.sorting.reverse), (4, false));
    assert_eq!((s.sorting.import_mode, s.sorting.import_reverse), (1, true));
}

#[test]
fn searching_the_list() {
    let mut s = three();
    games::local_searched(&mut s, "  AL ");
    let shown = filters::local_filtered_indices(&s.entries, &s.local_filter);
    assert_eq!(shown, vec![1]);
    games::local_searched(&mut s, "   ");
    assert!(s.local_filter.is_none());
    assert_eq!(filters::local_filtered_indices(&s.entries, &s.local_filter), vec![0, 1, 2]);
    assert!(filters::text_holds("\u{c9}TOILE", "\u{e9}toile"));
}

#[test]
fn launching_from_the_list() {
    let mut s = three();
    library::open(&mut s, false, 0);
    press(&mut s, Button::Right);
    assert_eq!(s.screen, Screen::List { selection: 1, scroll_offset: 0 });
    let r = press(&mut s, Button::A);
    assert!(r.consumed);
    assert_eq!(r.effect, Effect::Launch { game_idx: 1 });
    assert_eq!(s.screen, Screen::Launching { selection: 1, scroll_offset: 0 });
    assert_eq!(library::selected_path(&s), Some("sdmc:/flashnx/b.swf".to_string()));
    assert_eq!(sorting::active_display_name(&s.session), Some("bravo".to_string()));
    assert!(!library::picked(&s));
    frame::reveal_finished(&mut s);
    assert!(library::picked(&s));
    assert!(!library::is_active(&s));
}

#[test]
fn too_little_memory_is_said() {
    let mut s = three();
    library::open(&mut s, true, 0);
    press(&mut s, Button::A);
    assert_eq!(s.screen, Screen::AppletNotice { selection: 0, scroll_offset: 0 });
    assert!(library::selected_path(&s).is_none());
    press(&mut s, Button::B);
    assert_eq!(s.screen, Screen::List { selection: 0, scroll_offset: 0 });
}

#[test]
fn the_shoulder_buttons_switch_tabs() {
    let mut s = three();
    library::open(&mut s, false, 0);
    let r = press(&mut s, Button::R);
    assert_eq!(r.effect, Effect::SlideTab { left: false });
    assert_eq!(s.screen, Screen::DistantIdle { selection: 0, scroll_offset: 0 });
    press(&mut s, Button::R);
    assert_eq!(s.screen, Screen::SettingsModal { selection: 0 });
    press(&mut s, Button::R);
    assert_eq!(s.screen, Screen::List { selection: 0, scroll_offset: 0 });
    let r = press(&mut s, Button::L);
    assert_eq!(r.effect, Effect::SlideTab { left: true });
    assert_eq!(s.screen, Screen::SettingsModal { selection: 0 });
    assert_eq!(Tab::Jouer.prev(), Tab::Reglages);
    assert_eq!(Tab::Reglages.index(), 2);
}

#[test]
fn nothing_is_taken_while_something_moves() {
    let mut s = three();
    library::open(&mut s, false, 0);
    let mut f = facts();
    f.busy = true;
    let r = library::input(&mut s, &mut Menu::new(), &no_keys(), &f, Button::A);
    assert!(r.consumed);
    assert_eq!(r.effect, Effect::Nothing);
    assert_eq!(s.screen, Screen::List { selection: 0, scroll_offset: 0 });
}

#[test]
fn a_panel_closes_before_the_list_comes_back() {
    let mut s = three();
    let mut m = Menu::new();
    library::open(&mut s, false, 0);
    press(&mut s, Button::Plus);
    assert_eq!(s.screen, Screen::OptionsModal { game_idx: 0, selection: 0 });
    let r = press(&mut s, Button::B);
    assert!(r.closing);
    assert_eq!(s.screen, Screen::OptionsModal { game_idx: 0, selection: 0 });
    let list = Screen::List { selection: 0, scroll_offset: 0 };
    assert_eq!(s.pending_close, Some(PendingClose::Goto(list)));
    frame::close_finished(&mut s, &mut m);
    assert_eq!(s.screen, list);
    assert!(s.pending_close.is_none());
    assert_eq!(s.last_modal, 0);
}

#[test]
fn a_panel_opens_once() {
    let mut s = three();
    let m = Menu::new();
    library::open(&mut s, false, 0);
    assert!(!frame::panel_shown(&mut s, &m, false));
    press(&mut s, Button::Plus);
    assert!(frame::panel_shown(&mut s, &m, false));
    assert!(!frame::panel_shown(&mut s, &m, false));
    assert_eq!(s.last_modal, 1);
}

#[test]
fn favourites_move_to_the_top() {
    let mut s = three();
    library::open(&mut s, false, 0);
    s.screen = Screen::OptionsModal { game_idx: 2, selection: 0 };
    let r = press(&mut s, Button::A);
    assert_eq!(r.effect, Effect::SaveFavorites);
    assert_eq!(names(&s), vec!["charlie", "Alpha", "bravo"]);
    assert_eq!(s.screen, Screen::OptionsModal { game_idx: 0, selection: 0 });
    press(&mut s, Button::A);
    assert_eq!(names(&s), vec!["Alpha", "bravo", "charlie"]);
    assert!(s.favorites.is_empty());
}

#[test]
fn renaming_a_game() {
    let mut s = three();
    games::renamed(&mut s, 1, "  New name ", true);
    assert_eq!(s.entries[1].display_name, "New name");
    games::renamed(&mut s, 1, "  ", true);
    assert_eq!(s.entries[1].display_name, "a.swf");
    games::renamed(&mut s, 1, "lost", false);
    assert_eq!(s.entries[1].display_name, "a.swf");
    assert_eq!(s.toast.msg, loc::s(&s.settings).err_sd_write);
}

#[test]
fn deleting_a_game() {
    let mut s = three();
    let mut m = Menu::new();
    library::open(&mut s, false, 0);
    s.favorites = vec!["c.swf".to_string(), "a.swf".to_string()];
    s.remote.downloaded = ["z.swf", "c.swf", "b.swf"].map(String::from).to_vec();
    s.screen = Screen::DeleteConfirm { game_idx: 2 };
    let r = press(&mut s, Button::A);
    assert_eq!(r.effect, Effect::ClosePanel);
    assert_eq!(s.entries.len(), 3);
    let closed = frame::close_finished(&mut s, &mut m);
    assert!(closed.reset_gallery);
    assert_eq!(names(&s), vec!["Alpha", "bravo"]);
    assert_eq!(s.screen, Screen::List { selection: 1, scroll_offset: 0 });
    assert_eq!(s.favorites, vec!["a.swf"]);
    assert_eq!(s.remote.downloaded, vec!["z.swf", "b.swf"]);
    for _ in 0..2 {
        s.pending_close = Some(PendingClose::DeleteGame { game_idx: 0 });
        frame::close_finished(&mut s, &mut m);
    }
    assert_eq!(s.screen, Screen::Empty);
    assert_eq!(
        games::recorded_legacy_saves(" y.sol\nx/z.sol\n\n"),
        vec!["sdmc:/flashnx/y.sol"]
    );
}

#[test]
fn sorting_by_the_panel() {
    let mut s = three();
    library::open(&mut s, false, 0);
    press(&mut s, Button::Y);
    assert_eq!(s.screen, Screen::SortModal { selection: 0, prev_sel: 0, prev_scroll: 0 });
    press(&mut s, Button::Down);
    let r = press(&mut s, Button::A);
    assert_eq!(r.effect, Effect::SaveSort);
    assert!(r.closing);
    assert_eq!(s.sorting.mode, 1);
    assert_eq!(names(&s), vec!["charlie", "bravo", "Alpha"]);
}

#[test]
fn quitting() {
    let mut s = State::new();
    library::open(&mut s, false, 0);
    press(&mut s, Button::Minus);
    assert_eq!(s.screen, Screen::Quit);
    assert!(!press(&mut s, Button::A).consumed);
}

#[test]
fn a_reset_keeps_the_saved_urls_and_the_banner() {
    let mut s = three();
    let mut m = Menu::new();
    library::open(&mut s, false, 9);
    s.history.urls = vec!["https://a".to_string()];
    s.history.filter = Some("x".to_string());
    s.remote.error = "e".to_string();
    s.download.title = Some("t".to_string());
    s.banner.tex = 4;
    library::reset(&mut s, &mut m);
    assert_eq!(s.screen, Screen::Inactive);
    assert!(s.entries.is_empty());
    assert!(s.remote.error.is_empty());
    assert!(s.download.title.is_none());
    assert_eq!(s.history.urls.len(), 1);
    assert!(s.history.filter.is_none());
    assert_eq!(s.banner.tex, 4);
    assert_eq!(s.anim_origin, 9);
}

#[test]
fn rows_and_pages_of_the_layouts() {
    let mut st = loc::Settings::new();
    let mut got = Vec::new();
    for v in 0..4 {
        loc::set_home_view(&mut st, v);
        got.push((library::home_rows_visible(&st), library::home_page_step(&st)));
    }
    assert_eq!(got, vec![(3, 15), (13, 13), (1, 4), (1, 4)]);
}

#[test]
fn searching_a_cover() {
    let mut s = three();
    s.entries[0].display_name = "my_game-2 a1b2c3d4.swf".to_string();
    assert!(games::cover_search_term(&s, 0).is_some());
    assert!(games::cover_search_term(&s, 9).is_none());
    games::cover_results(&mut s, 0, "q".to_string(), Ok(Vec::new()));
    assert_eq!(s.screen, Screen::CoverPicker { game_idx: 0, selection: 0 });
    assert_eq!(s.covers.msg, loc::s(&s.settings).cover_none);
    games::cover_results(&mut s, 0, "q".to_string(), Err("offline".to_string()));
    assert_eq!(s.covers.msg, "offline");
}
