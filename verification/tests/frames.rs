use flashnx::library::frame;
use flashnx::library::screen::{PendingNet, Screen};
use flashnx::library::state::{Candidate, Compression, Entry, State};
use flashnx::library::touch;
use flashnx::library::touch::{Action, Contact, Gesture};
use flashnx::library::view;
use flashnx::library::view::{Picture, Scene};
use flashnx::loc;
use flashnx::panel::Toast;

fn game(file: &str, name: &str) -> Entry {
    Entry {
        path: format!("sdmc:/flashnx/{}", file),
        basename: file.to_string(),
        display_name: name.to_string(),
        size_bytes: 1,
        swf_version: 9,
        compression: Compression::Fws,
        is_as3: true,
        hue: 0,
        mtime: 0,
        source_item: String::new(),
    }
}

fn scene() -> Scene {
    Scene {
        author: String::new(),
        speed_x10: 15,
        cjk: false,
        fonts_loading: false,
        unavailable: false,
        install: "ab12cd34".to_string(),
        file_names: vec!["in.swf".to_string(), "out.swf".to_string()],
    }
}

fn with_games() -> State {
    let mut s = State::new();
    s.entries = vec![game("in.swf", "In"), game("x.swf", "X")];
    s
}

#[test]
fn a_request_waits_for_its_panel() {
    let mut s = State::new();
    s.migrations_checked = true;
    s.pending_net = Some((PendingNet::OpenProfiles { game_idx: 1 }, false));
    assert_eq!(frame::drive_pending_net(&mut s, true), None);
    assert_eq!(
        frame::drive_pending_net(&mut s, true),
        Some(PendingNet::OpenProfiles { game_idx: 1 })
    );
    assert_eq!(frame::drive_pending_net(&mut s, true), None);
}

#[test]
fn the_card_is_tidied_once() {
    let mut s = with_games();
    assert_eq!(frame::drive_pending_net(&mut s, false), None);
    assert!(s.optimizing);
    assert_eq!(
        frame::drive_pending_net(&mut s, false),
        Some(PendingNet::RunStartupMigrations)
    );
    assert!(s.optimizing);
    frame::migrations_done(&mut s);
    assert_eq!(frame::drive_pending_net(&mut s, false), None);
    assert!(!s.optimizing);
    let mut empty = State::new();
    frame::drive_pending_net(&mut empty, false);
    assert!(!empty.optimizing && empty.migrations_checked);
    let mut other = with_games();
    frame::drive_pending_net(&mut other, false);
    other.pending_net = Some((PendingNet::ShareProfile { game_idx: 0 }, true));
    frame::drive_pending_net(&mut other, false);
    assert!(!other.optimizing);
}

#[test]
fn fonts_are_loaded_behind_a_notice() {
    let mut s = State::new();
    assert!(frame::languages_drawn(&mut s));
    assert!(!frame::languages_drawn(&mut s));
    frame::note_renderer_reset(&mut s);
    assert!(frame::languages_drawn(&mut s));
}

#[test]
fn scrolls_are_remembered() {
    let mut s = State::new();
    s.screen = Screen::List { selection: 4, scroll_offset: 2 };
    frame::note_scroll(&mut s);
    s.screen = Screen::DistantIdle { selection: 9, scroll_offset: 5 };
    frame::note_scroll(&mut s);
    assert_eq!((s.scroll.jouer, s.scroll.import), (2, 5));
}

#[test]
fn a_toast_fades() {
    let mut s = State::new();
    s.toast = Toast::saying("hi".to_string(), 0);
    s.toast.frames = 2;
    assert_eq!(view::render(&mut s, &scene()).toast, Some(("hi".to_string(), 0)));
    assert!(view::render(&mut s, &scene()).toast.is_some());
    assert!(view::render(&mut s, &scene()).toast.is_none());
}

#[test]
fn pictures_of_the_home_tab() {
    let mut s = with_games();
    s.screen = Screen::List { selection: 1, scroll_offset: 0 };
    s.local_filter = Some("in".to_string());
    let f = view::render(&mut s, &scene());
    assert_eq!(f.tab, Some(0));
    match f.picture {
        Picture::Games { shown, selection, total, view, .. } => {
            assert_eq!(shown, vec![0]);
            assert_eq!((selection, total, view), (1, 2, 0));
        }
        _ => panic!("no games"),
    }
    let lc = loc::s(&s.settings);
    s.favorites = vec!["x.swf".to_string()];
    s.screen = Screen::OptionsModal { game_idx: 1, selection: 0 };
    match view::picture(&s, &scene()) {
        Picture::Options { title, rows, dim, .. } => {
            assert_eq!(title, "X");
            assert_eq!(rows.len(), 5);
            assert_eq!(rows[0], lc.opt_unfavorite);
            assert!(!dim);
        }
        _ => panic!("no options"),
    }
    s.screen = Screen::OptionsModal { game_idx: 7, selection: 0 };
    assert!(matches!(view::picture(&s, &scene()), Picture::Nothing));
}

#[test]
fn pictures_of_the_settings() {
    let mut s = State::new();
    s.screen = Screen::SettingsModal { selection: 3 };
    let lc = loc::s(&s.settings);
    match view::picture(&s, &scene()) {
        Picture::Settings { selection, rows } => {
            assert_eq!(selection, 3);
            assert_eq!(rows.len(), 7);
            assert_eq!(rows[0], format!("{}: {}", lc.set_home_view, lc.home_grid));
            assert_eq!(rows[5], format!("{} : {}", lc.set_pseudo, lc.none));
        }
        _ => panic!("no settings"),
    }
    s.screen = Screen::SettingsPrefsModal { selection: 0 };
    match view::picture(&s, &scene()) {
        Picture::Options { rows, dim, .. } => {
            assert_eq!(rows[3], format!("{}: x1.5", lc.set_cursor_speed));
            assert!(dim);
        }
        _ => panic!("no defaults"),
    }
    s.screen = Screen::SettingsLanguagePicker { selection: 0 };
    match view::picture(&s, &scene()) {
        Picture::Languages { names, .. } => {
            assert_eq!(names.len(), 9);
            assert_eq!(names[7], "CHINESE (NEEDS MORE MEMORY)");
        }
        _ => panic!("no languages"),
    }
}

#[test]
fn pictures_of_the_gallery() {
    let mut s = with_games();
    let c = |title: &str, dev: &str| Candidate {
        id: String::new(),
        title: title.to_string(),
        developer: dev.to_string(),
        publisher: String::new(),
        release_date: String::new(),
        cover_url: "https://c".to_string(),
        launch_command: String::new(),
        zipped: true,
    };
    s.covers.candidates = vec![c("In", "Dev"), c("Out", "")];
    s.screen = Screen::FpGallery { selection: 1, scroll: 0 };
    match view::picture(&s, &scene()) {
        Picture::Gallery { titles, installed, footer, .. } => {
            assert_eq!(titles, vec!["In - Dev", "Out"]);
            assert_eq!(installed, vec![true, false]);
            assert!(footer.contains(loc::s(&s.settings).lbl_on));
        }
        _ => panic!("no gallery"),
    }
    s.covers.loading = true;
    assert!(matches!(view::picture(&s, &scene()), Picture::Searching { .. }));
}

#[test]
fn pictures_of_the_imports() {
    let mut s = with_games();
    let lc = loc::s(&s.settings);
    s.history.urls = vec!["https://archive.org/details/it".to_string()];
    s.history.meta = vec![("https://archive.org/details/it".to_string(), 13, 951_782_400, true)];
    s.screen = Screen::DistantUrlOptions { url_idx: 0, selection: 0 };
    match view::picture(&s, &scene()) {
        Picture::UrlOptions { title, rows, info, .. } => {
            assert_eq!(title, "it");
            assert_eq!(rows[0], lc.opt_unfavorite);
            assert_eq!(info[0], format!("{} : {}", lc.url_info_type, lc.url_type_list));
            assert_eq!(info[1], format!("{} : 0/13", lc.url_info_files));
            assert_eq!(info[2], format!("{} : 2000-02-29", lc.url_info_added));
        }
        _ => panic!("no options"),
    }
    s.screen = Screen::DistantDownloading;
    s.download.file_name = "f.swf".to_string();
    s.download.title = Some("  ".to_string());
    match view::picture(&s, &scene()) {
        Picture::Downloading { label } => assert_eq!(label, "f.swf"),
        _ => panic!("no download"),
    }
    s.download.companions.active = true;
    s.download.companions.current = "c.swf".to_string();
    s.download.companions.queue = vec!["d.swf".to_string()];
    match view::picture(&s, &scene()) {
        Picture::Downloading { label } => {
            assert_eq!(label, format!("{} : c.swf (2)", lc.multifile))
        }
        _ => panic!("no download"),
    }
    s.remote.downloaded = vec!["in.swf".to_string(), "new.swf".to_string()];
    s.screen = Screen::DistantFiles { selection: 0, scroll_offset: 0 };
    match view::picture(&s, &scene()) {
        Picture::Files { marked, .. } => assert_eq!(marked, vec!["in.swf", "new.swf", "x.swf"]),
        _ => panic!("no files"),
    }
    s.screen = Screen::DistantError;
    s.remote.failed_url = "u".to_string();
    assert!(matches!(view::picture(&s, &scene()), Picture::Error { can_fix: true, .. }));
}

#[test]
fn drags_scroll_and_taps_select() {
    let mut s = with_games();
    s.screen = Screen::List { selection: 0, scroll_offset: 0 };
    let mut g = Gesture { down: false, dragging: false };
    let at = |pressed: bool, inside: bool, moved: bool| Contact { pressed, inside, moved };
    assert_eq!(touch::touch(&s, &mut g, at(true, false, false)), Action::Nothing);
    assert_eq!(touch::touch(&s, &mut g, at(true, true, false)), Action::Begin);
    assert_eq!(touch::touch(&s, &mut g, at(true, true, false)), Action::Nothing);
    assert_eq!(touch::touch(&s, &mut g, at(true, true, true)), Action::Follow);
    assert_eq!(touch::touch(&s, &mut g, at(true, true, false)), Action::Follow);
    assert_eq!(touch::touch(&s, &mut g, at(false, false, false)), Action::Snap);
    touch::snap_rows(&mut s, 9, 5, 3);
    assert_eq!(s.screen, Screen::List { selection: 0, scroll_offset: 2 });
    touch::touch(&s, &mut g, at(true, true, false));
    assert_eq!(touch::touch(&s, &mut g, at(false, false, false)), Action::Tap);
    assert!(!touch::tapped(&mut s, Some(1), false));
    assert_eq!(s.screen, Screen::List { selection: 1, scroll_offset: 2 });
    assert!(touch::tapped(&mut s, Some(1), false));
    assert!(touch::tapped(&mut s, None, true));
    touch::snap_strip(&mut s, 9, 2);
    assert_eq!(s.screen, Screen::List { selection: 1, scroll_offset: 2 });
    touch::touch(&s, &mut g, at(true, true, false));
    s.screen = Screen::BugResult;
    assert_eq!(touch::touch(&s, &mut g, at(true, true, false)), Action::Release);
}
