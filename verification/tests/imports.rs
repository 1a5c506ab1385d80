use flashnx::library;
use flashnx::library::buttons::{files, flashpoint, urls};
use flashnx::library::buttons::flashpoint::FpFacts;
use flashnx::library::buttons::urls::FetchPlan;
use flashnx::library::frame;
use flashnx::library::history;
use flashnx::library::history::CardFile;
use flashnx::library::importer;
use flashnx::library::screen::{Button, Effect, PendingClose, Screen};
use flashnx::library::state::{Candidate, Compression, Entry, History, State};
use flashnx::library::{Facts, Reply};
use flashnx::loc;
use flashnx::menu::pad::Keys;
use flashnx::menu::Menu;
use flashnx::net;
use flashnx::net::{ArchivePoll, Failure, GetPoll, RemoteFile, Sink};

fn loaded() -> History {
    let mut h = History::new();
    history::load_history(&mut h, CardFile::Absent);
    history::load_history_meta(&mut h, CardFile::Absent);
    h
}

fn with_urls(list: &[&str]) -> State {
    let mut s = State::new();
    s.history = loaded();
    for (i, u) in list.iter().enumerate() {
        history::push_history(&mut s.history, u, 100 + i as u64);
    }
    s
}

fn file(name: &str, size: u64) -> RemoteFile {
    RemoteFile {
        name: name.to_string(),
        size_bytes: size,
        download_url: format!("https://archive.org/download/it/{}", name),
    }
}

fn on_card(file: &str) -> Entry {
    Entry {
        path: format!("sdmc:/flashnx/{}", file),
        basename: file.to_string(),
        display_name: file.to_string(),
        size_bytes: 1,
        swf_version: 8,
        compression: Compression::Fws,
        is_as3: false,
        hue: 0,
        mtime: 0,
        source_item: "it".to_string(),
    }
}

fn found(title: &str, zipped: bool) -> Candidate {
    Candidate {
        id: title.to_string(),
        title: title.to_string(),
        developer: String::new(),
        publisher: String::new(),
        release_date: String::new(),
        cover_url: "https://c/x.png".to_string(),
        launch_command: "http://h/g.swf".to_string(),
        zipped,
    }
}

fn push(s: &mut State, b: Button) -> Reply {
    let keys = Keys {
        slots: Vec::new(),
        board: Vec::new(),
        rows: 0,
        player: 1,
        subtab: 0,
        subtabs: 1,
        modifier_word: String::new(),
    };
    let f = Facts {
        busy: false,
        install: String::new(),
        from_catalog: false,
        epoch: 500,
        cjk: true,
    };
    library::input(s, &mut Menu::new(), &keys, &f, b)
}

#[test]
fn a_saved_url_keeps_its_place() {
    let mut h = loaded();
    let saves = history::push_history(&mut h, " https://a ", 10);
    assert!(saves.urls.is_some() && saves.meta.is_some());
    history::push_history(&mut h, "https://b", 20);
    let again = history::push_history(&mut h, "https://a", 30);
    assert!(again.urls.is_none());
    assert_eq!(h.urls, vec!["https://a", "https://b"]);
    assert_eq!(h.index, Some(0));
    assert_eq!(history::url_added(&h, "https://a"), 10);
    let none = history::push_history(&mut h, "   ", 40);
    assert!(none.urls.is_none());
    assert_eq!(h.urls.len(), 2);
}

#[test]
fn saved_urls_are_read_as_they_were_written() {
    let mut h = loaded();
    history::push_history(&mut h, "https://a/\"q\"", 10);
    history::push_history(&mut h, "https://b", 20);
    history::toggle_url_favorite(&mut h, "https://b", 30);
    history::remember_url_total(&mut h, "https://b", 13, 40);
    let urls = history::save_history(&h).unwrap();
    let meta = history::save_history_meta(&mut h).unwrap();
    let mut again = History::new();
    history::load_history(&mut again, CardFile::Text(urls));
    history::load_history_meta(&mut again, CardFile::Text(meta));
    assert_eq!(again.urls, h.urls);
    assert!(history::url_is_favorite(&again, "https://b"));
    assert_eq!(history::url_total(&again, "https://b"), Some(13));
    assert_eq!(history::url_added(&again, "https://a/\"q\""), 10);
}

#[test]
fn nothing_is_written_over_a_file_that_was_not_read() {
    let mut h = History::new();
    history::load_history(&mut h, CardFile::Failed);
    assert!(!h.loaded);
    let saves = history::push_history(&mut h, "https://a", 1);
    assert!(saves.urls.is_none() && saves.meta.is_none());
    assert!(history::save_history(&h).is_none());
    assert!(history::save_history_meta(&mut h).is_none());
}

#[test]
fn the_list_of_urls_has_an_end() {
    let mut h = loaded();
    for i in 0..501 {
        history::push_history(&mut h, &format!("https://h/{}", i), 1);
    }
    assert_eq!(h.urls.len(), 500);
    assert_eq!(h.urls[0], "https://h/1");
    assert_eq!(h.index, Some(499));
}

#[test]
fn flipping_a_url_twice_changes_nothing() {
    let mut h = loaded();
    history::push_history(&mut h, "https://a", 1);
    assert!(history::toggle_url_favorite(&mut h, "https://a", 2).0);
    assert!(!history::toggle_url_favorite(&mut h, "https://a", 3).0);
    assert!(!history::url_is_favorite(&h, "https://a"));
}

#[test]
fn the_orders_of_the_saved_urls() {
    let mut s = with_urls(&["https://z.com/b.swf", "https://y.com/a.swf", "https://x.com/c.swf"]);
    let view = |s: &State| importer::importer_view(&s.entries, &s.history, &s.sorting);
    assert_eq!(view(&s), vec![2, 1, 0]);
    s.sorting.import_mode = 1;
    assert_eq!(view(&s), vec![1, 0, 2]);
    s.sorting.import_reverse = true;
    assert_eq!(view(&s), vec![2, 0, 1]);
    history::toggle_url_favorite(&mut s.history, "https://z.com/b.swf", 9);
    assert_eq!(view(&s)[0], 0);
    s.history.filter = Some("c.swf".to_string());
    assert_eq!(view(&s), vec![2]);
    assert_eq!(importer::importer_row_for_abs(&s, 2), 1);
    assert_eq!(importer::importer_row_for_abs(&s, 0), 0);
    assert_eq!(importer::importer_abs_for_row(&s, 1), Some(2));
    assert_eq!(importer::importer_abs_for_row(&s, 0), None);
}

#[test]
fn what_a_url_row_shows() {
    let mut s = with_urls(&["https://archive.org/details/it"]);
    s.entries = vec![on_card("a.swf"), on_card("b.swf")];
    history::remember_url_total(&mut s.history, "https://archive.org/details/it", 13, 1);
    let (rows, total) = importer::importer_rows(&s);
    assert_eq!(total, 1);
    assert_eq!(rows[0].label, "it");
    assert_eq!(rows[0].host, "archive.org");
    assert!(!rows[0].direct);
    assert_eq!(rows[0].progress, (2, Some(13)));
}

#[test]
fn importing_a_url() {
    let mut s = with_urls(&[]);
    match urls::plan_fetch(&mut s, "https://h/g.swf", "https://h/g.swf", true) {
        FetchPlan::Download { url, out_path } => {
            assert_eq!(url, "https://h/g.swf");
            assert_eq!(out_path, "sdmc:/flashnx/g.swf");
        }
        _ => panic!("no download"),
    }
    let saves = urls::direct_started(&mut s, "https://h/g.swf", Ok(()), 7);
    assert!(saves.urls.is_some());
    assert_eq!(s.screen, Screen::DistantDownloading);
    assert_eq!(s.download.file_name, "g.swf");
    s.entries = vec![on_card("g.swf")];
    assert!(matches!(
        urls::plan_fetch(&mut s, "u", "https://h/g.swf", true),
        FetchPlan::Nothing
    ));
    match urls::plan_fetch(&mut s, "https://archive.org/details/it", "r", false) {
        FetchPlan::List { item } => assert_eq!(item, "it"),
        _ => panic!("no list"),
    }
    assert!(matches!(urls::plan_fetch(&mut s, "  ", "r", false), FetchPlan::Nothing));
    assert_eq!(s.screen, Screen::DistantError);
    assert_eq!(s.remote.error, loc::s(&s.settings).err_url_invalid);
}

#[test]
fn a_listed_item_is_saved_with_its_number_of_files() {
    let mut s = with_urls(&["https://archive.org/details/old"]);
    urls::archive_started(&mut s, "https://archive.org/details/it", Ok(()));
    assert_eq!(s.screen, Screen::DistantLoading);
    s.remote.failed_url = "x".to_string();
    assert!(frame::archive_polled(&mut s, ArchivePoll::Pending, 9).is_none());
    let list = vec![file("b.swf", 2), file("a.swf", 1)];
    let done = frame::archive_polled(&mut s, ArchivePoll::Done(list), 999).unwrap();
    assert_eq!(s.screen, Screen::DistantFiles { selection: 0, scroll_offset: 0 });
    assert_eq!(history::url_total(&s.history, "https://archive.org/details/it"), Some(2));
    assert_eq!((done.row, done.scroll), (1, 0));
    assert!(s.remote.failed_url.is_empty());
    let r = push(&mut s, Button::B);
    assert_eq!(r.effect, Effect::CollapseRemote);
    frame::collapse_finished(&mut s, 9);
    assert_eq!(s.screen, Screen::DistantIdle { selection: 2, scroll_offset: 0 });
    assert!(s.remote.files.is_empty());
}

#[test]
fn listings_that_fail() {
    let mut s = with_urls(&[]);
    frame::archive_polled(&mut s, ArchivePoll::Done(Vec::new()), 1);
    assert_eq!(s.remote.error, loc::s(&s.settings).err_no_swf);
    frame::archive_polled(&mut s, ArchivePoll::Error("offline".to_string()), 1);
    assert_eq!(s.remote.error, "offline");
    assert_eq!(s.screen, Screen::DistantError);
    urls::archive_started(&mut s, "u", Err("busy".to_string()));
    assert_eq!(s.remote.error, "busy");
}

#[test]
fn metadata_of_an_item() {
    let st = loc::Settings::new();
    let body = b"{\"files\": [{\"name\": \"a b.swf\", \"size\": \"12\", \"format\": \"Shockwave Flash\"}, \
{\"name\": \"c.txt\", \"format\": \"Text\"}, {\"name\": \"D.SWF\", \"format\": \"Shockwave Flash\"}, \
{\"name\": \"\", \"format\": \"Shockwave Flash\"}, {\"name\": \"e.swf\"}]}";
    let list = net::parse_archive_metadata(&st, body, "it").unwrap();
    assert_eq!(list.len(), 2);
    assert_eq!(list[0].name, "a b.swf");
    assert_eq!(list[0].size_bytes, 12);
    assert_eq!((list[1].name.as_str(), list[1].size_bytes), ("D.SWF", 0));
    assert_eq!(
        net::parse_archive_metadata(&st, b"{\"files\": 3}", "it").err().unwrap(),
        loc::s(&st).err_json_no_files
    );
    assert_eq!(list[0].download_url, "https://archive.org/download/it/a%20b.swf");
    assert!(net::parse_archive_metadata(&st, b"not json", "it").is_err());
    let ok = Failure { curl: 0, http: 200, detail: String::new() };
    assert!(matches!(
        net::tick_archive_fetch(&st, "it", 0, &ok, None),
        ArchivePoll::Pending
    ));
    assert!(matches!(
        net::tick_archive_fetch(&st, "it", 1, &ok, Some(body)),
        ArchivePoll::Done(_)
    ));
    assert!(matches!(
        net::tick_archive_fetch(&st, "it", -1, &ok, None),
        ArchivePoll::Error(_)
    ));
    assert!(matches!(net::tick_get_async(&st, 0, &ok, None), GetPoll::Pending));
}

#[test]
fn requests_that_fail_say_why() {
    let st = loc::Settings::new();
    let gone = Failure { curl: 0, http: 404, detail: String::new() };
    let said = net::https_error_message(&st, Sink::Memory, &gone);
    assert_eq!(said, loc::err_http_status(&st, 404));
    assert_eq!(said, loc::s(&st).err_not_found);
    assert_eq!(net::tick_download(&st, 0, &gone), Ok(false));
    assert_eq!(net::tick_download(&st, 1, &gone), Ok(true));
    assert!(net::tick_download(&st, -1, &gone).is_err());
    assert!(net::start_download(&st, 0).is_ok());
    assert!(net::start_download(&st, -1).is_err());
    assert_eq!(net::head_content_length(5), Some(5));
    assert_eq!(net::head_content_length(0), None);
    assert!(net::http_get_error(&st, 10, &gone).is_none());
}

#[test]
fn files_of_an_item() {
    let mut s = State::new();
    s.remote.files = vec![file("b.swf", 2), file("a.swf", 9), file("c.swf", 5)];
    s.screen = Screen::DistantFiles { selection: 0, scroll_offset: 0 };
    push(&mut s, Button::Up);
    assert_eq!(s.screen, Screen::DistantFiles { selection: 2, scroll_offset: 0 });
    let r = push(&mut s, Button::A);
    assert_eq!(r.effect, Effect::DownloadRemote { file_idx: 2, selection: 2, scroll: 0 });
    s.entries = vec![on_card("c.swf")];
    assert_eq!(push(&mut s, Button::A).effect, Effect::Nothing);
    assert_eq!(
        files::remote_download(&s, 1),
        Some(("https://archive.org/download/it/a.swf".to_string(), "sdmc:/flashnx/a.swf".to_string()))
    );
    files::remote_searched(&mut s, "A.SW");
    assert_eq!(s.screen, Screen::DistantFiles { selection: 0, scroll_offset: 0 });
    files::sort_files(&mut s.remote.files, true, false);
    let order: Vec<u64> = s.remote.files.iter().map(|f| f.size_bytes).collect();
    assert_eq!(order, vec![9, 5, 2]);
    files::sort_files(&mut s.remote.files, false, false);
    assert_eq!(s.remote.files[0].name, "a.swf");
}

#[test]
fn cancelling_the_panel_of_orders_restores_the_list() {
    let mut s = State::new();
    s.remote.files = vec![file("b.swf", 2), file("a.swf", 9)];
    s.screen = Screen::DistantFiles { selection: 1, scroll_offset: 0 };
    push(&mut s, Button::Y);
    let r = push(&mut s, Button::B);
    assert!(r.closing);
    frame::close_finished(&mut s, &mut Menu::new());
    assert_eq!(s.screen, Screen::DistantFiles { selection: 1, scroll_offset: 0 });
    assert_eq!(s.remote.files[0].name, "b.swf");
    assert_eq!(files::remote_sort_count(2), 4);
    assert_eq!(files::remote_sort_count(1), 1);
    assert_eq!(files::remote_sort_count(0), 2);
}

#[test]
fn options_of_a_saved_url() {
    let mut s = with_urls(&["https://a", "https://b"]);
    s.screen = Screen::DistantIdle { selection: 1, scroll_offset: 0 };
    push(&mut s, Button::Plus);
    assert_eq!(s.screen, Screen::DistantUrlOptions { url_idx: 1, selection: 0 });
    let r = push(&mut s, Button::A);
    assert_eq!(r.effect, Effect::SaveMeta);
    assert!(history::url_is_favorite(&s.history, "https://b"));
    s.screen = Screen::DistantUrlOptions { url_idx: 1, selection: 2 };
    push(&mut s, Button::A);
    assert_eq!(s.screen, Screen::DistantHistoryConfirm);
    push(&mut s, Button::A);
    assert_eq!(s.pending_close, Some(PendingClose::DeleteHistory));
    let closed = frame::close_finished(&mut s, &mut Menu::new());
    assert!(closed.urls.is_some());
    assert_eq!(s.history.urls, vec!["https://a"]);
    assert_eq!(
        urls::url_edited(&mut s, 0, " https://c ").is_some(),
        true
    );
    assert_eq!(s.history.urls, vec!["https://c"]);
    urls::url_edited(&mut s, 0, "  ");
    assert!(s.history.urls.is_empty());
}

#[test]
fn a_failed_url_can_be_typed_again() {
    let mut s = with_urls(&["https://bad"]);
    s.remote.failed_url = "https://bad".to_string();
    s.remote.error = "e".to_string();
    s.screen = Screen::DistantError;
    assert_eq!(push(&mut s, Button::Y).effect, Effect::FixUrl);
    assert!(urls::url_fixed(&mut s, "  ").is_none());
    let retry = urls::url_fixed(&mut s, "https://good").unwrap();
    assert_eq!(retry.url, "https://good");
    assert_eq!(retry.row, 1);
    assert_eq!(s.history.urls, vec!["https://good"]);
    assert!(s.remote.failed_url.is_empty());
}

#[test]
fn the_notice_of_an_error_leads_back() {
    let mut s = State::new();
    s.screen = Screen::DistantError;
    s.remote.error = "e".to_string();
    s.download.resume_pos = Some((3, 2));
    s.download.zip_extract = Some("p".to_string());
    push(&mut s, Button::B);
    assert_eq!(s.screen, Screen::FpGallery { selection: 3, scroll: 2 });
    assert!(s.download.zip_extract.is_none());
    s.screen = Screen::DistantError;
    push(&mut s, Button::A);
    assert_eq!(s.screen, Screen::DistantIdle { selection: 0, scroll_offset: 0 });
}

#[test]
fn searching_the_catalogue() {
    let mut s = State::new();
    flashpoint::fp_search_started(&mut s, "mario".to_string(), Ok(()));
    assert_eq!(s.screen, Screen::FpGallery { selection: 0, scroll: 0 });
    assert!(s.covers.loading);
    frame::fp_search_ended(&mut s, Ok(vec![found("b", true), found("A", false)]));
    assert!(!s.covers.loading);
    assert_eq!(s.covers.candidates[0].title, "A");
    frame::fp_search_ended(&mut s, Ok(Vec::new()));
    assert_eq!(s.covers.msg, loc::s(&s.settings).cover_none);
    frame::fp_search_ended(&mut s, Err("offline".to_string()));
    assert_eq!(s.covers.msg, "offline");
}

#[test]
fn choosing_a_game_of_the_catalogue() {
    let mut s = State::new();
    s.covers.candidates = vec![found("zip", true), found("loose", false)];
    s.screen = Screen::FpGallery { selection: 0, scroll: 0 };
    assert_eq!(
        push(&mut s, Button::A).effect,
        Effect::DownloadFp { selection: 0, scroll: 0 }
    );
    let facts = FpFacts {
        swf_name: "zip.swf".to_string(),
        is_swf: true,
        is_html: false,
        archive_url: "https://fp/zip".to_string(),
        mirror_url: None,
    };
    let req = flashpoint::fp_download(&mut s, 0, &facts).unwrap();
    assert_eq!(req.url, "https://fp/zip");
    assert_eq!(req.out_path, "sdmc:/flashnx/.fpdl.zip");
    assert!(!req.direct);
    flashpoint::fp_download_started(&mut s, 0, 4, &facts, req, Ok(()));
    assert_eq!(s.screen, Screen::DistantDownloading);
    assert_eq!(s.download.resume_pos, Some((0, 4)));
    assert_eq!(s.download.title, Some("zip".to_string()));
    // A game that is nowhere is refused.
    let mut t = State::new();
    t.covers.candidates = vec![found("loose", false)];
    assert!(flashpoint::fp_download(&mut t, 0, &facts).is_none());
    assert_eq!(t.screen, Screen::DistantError);
}

#[test]
fn the_content_filter_is_flipped_by_the_chord() {
    let mut s = State::new();
    s.covers.query = "q".to_string();
    s.screen = Screen::FpGallery { selection: 0, scroll: 0 };
    let r = push(&mut s, Button::BothTriggers);
    assert_eq!(r.effect, Effect::SearchAgain);
    assert!(!s.covers.content_filter);
    // Not while a search runs, and not before the first.
    s.covers.loading = true;
    assert_eq!(push(&mut s, Button::BothTriggers).effect, Effect::Nothing);
    assert!(!s.covers.content_filter);
    s.covers.loading = false;
    s.covers.query = "  ".to_string();
    assert_eq!(push(&mut s, Button::BothTriggers).effect, Effect::Nothing);
    assert!(!s.covers.content_filter);
}
