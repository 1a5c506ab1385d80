use flashnx::library::date::format_date;
use flashnx::library::index;
use flashnx::library::index::{FileIndex, HeaderIndex, HeaderRow, NameChange, Sidecars};
use flashnx::library::names;
use flashnx::library::state::{Compression, Header, State};

fn header() -> Header {
    Header { size_bytes: 1000, version: 8, compression: Compression::Cws, is_as3: false }
}

fn beside() -> Sidecars {
    Sidecars { header: Some(header()), filesize: None, display_name: None, url: None }
}

#[test]
fn days_of_the_calendar() {
    assert_eq!(format_date(0), "");
    assert_eq!(format_date(1), "1970-01-01");
    assert_eq!(format_date(951_782_400), "2000-02-29");
    assert_eq!(format_date(1_709_164_800), "2024-02-29");
    assert_eq!(format_date(4_107_542_400), "2100-03-01");
}

#[test]
fn the_scan_answers_for_what_it_listed() {
    let mut idx = FileIndex::new();
    index::note_dir(&mut idx, "sdmc:/flashnx");
    index::note_file(&mut idx, "sdmc:/flashnx/a.swf");
    assert!(index::file_exists(&idx, "sdmc:/flashnx/a.swf", false));
    assert!(!index::file_exists(&idx, "sdmc:/flashnx/b.swf", true));
    assert!(index::file_exists(&idx, "sdmc:/other/b.swf", true));
    assert!(!index::file_exists(&idx, "sdmc:/other/b.swf", false));
    index::note_file_created(&mut idx, "sdmc:/flashnx/b.swf");
    assert!(index::file_exists(&idx, "sdmc:/flashnx/b.swf", false));
    index::note_file_removed(&mut idx, "sdmc:/flashnx/b.swf");
    assert!(!index::file_exists(&idx, "sdmc:/flashnx/b.swf", true));
    assert!(index::scan_knows_dir(&idx, "sdmc:/flashnx/x"));
}

#[test]
fn a_file_is_created_in_an_empty_directory() {
    let mut idx = FileIndex::new();
    index::note_dir(&mut idx, "sdmc:/flashnx");
    assert!(!index::file_exists(&idx, "sdmc:/flashnx/a.swf.url", true));
    index::note_file_created(&mut idx, "sdmc:/flashnx/a.swf.url");
    assert!(index::file_exists(&idx, "sdmc:/flashnx/a.swf.url", false));
}

#[test]
fn a_directory_is_held_once() {
    let mut idx = FileIndex::new();
    index::note_dir(&mut idx, "d");
    index::note_dir(&mut idx, "d/");
    index::note_dir(&mut idx, "e//");
    index::note_dir(&mut idx, "d");
    assert_eq!(idx.dirs, vec!["d", "e"]);
}

#[test]
fn a_game_and_what_stands_beside_it() {
    let mut s = State::new();
    let mut h = HeaderIndex::new();
    let side = Sidecars {
        header: Some(header()),
        filesize: Some(" 5000\n".to_string()),
        display_name: Some("Shown".to_string()),
        url: Some("https://archive.org/details/item-x".to_string()),
    };
    assert!(index::add_path(&mut s, &mut h, "sdmc:/flashnx/g.swf", 42, &side));
    let e = &s.entries[0];
    assert_eq!(e.basename, "g.swf");
    assert_eq!(e.display_name, "Shown");
    assert_eq!(e.size_bytes, 5000);
    assert_eq!(e.swf_version, 8);
    assert_eq!(e.mtime, 42);
    assert_eq!(e.source_item, "item-x");
    assert!(e.hue < 360);
    let none = Sidecars { header: None, filesize: None, display_name: None, url: None };
    assert!(!index::add_path(&mut s, &mut h, "sdmc:/flashnx/bad.swf", 1, &none));
    assert_eq!(s.entries.len(), 1);
}

#[test]
fn headers_are_kept_between_scans() {
    let mut s = State::new();
    let mut h = HeaderIndex::new();
    index::scan_begin(&mut h, None);
    index::add_path(&mut s, &mut h, "p/a.swf", 7, &beside());
    let kept = index::scan_end(&mut h).unwrap();
    assert_eq!(kept.len(), 1);
    let mut again = HeaderIndex::new();
    index::scan_begin(&mut again, Some(kept));
    assert_eq!(index::index_lookup(&again, "p/a.swf", 7), Some(header()));
    assert_eq!(index::index_lookup(&again, "p/a.swf", 8), None);
    let unread = Sidecars { header: None, filesize: None, display_name: None, url: None };
    assert!(index::add_path(&mut s, &mut again, "p/a.swf", 7, &unread));
    assert!(index::scan_end(&mut again).is_none());
    let odd = HeaderRow {
        path: "p/a.swf".to_string(),
        mtime: 7,
        size: 1,
        ver: 1,
        comp: "???".to_string(),
        as3: false,
    };
    let mut broken = HeaderIndex::new();
    index::scan_begin(&mut broken, Some(vec![odd]));
    assert_eq!(index::index_lookup(&broken, "p/a.swf", 7), None);
}

#[test]
fn sizes_on_the_card() {
    assert_eq!(index::cache_game_footprint(10, 20), Some("30".to_string()));
    assert_eq!(index::read_filesize_cache("30"), Some(30));
    assert_eq!(index::read_filesize_cache("x"), None);
    let mut s = State::new();
    index::add_path(&mut s, &mut HeaderIndex::new(), "p/a.swf", 7, &beside());
    index::note_footprint(&mut s, "p/a.swf", 77);
    assert_eq!(s.entries[0].size_bytes, 77);
    assert_eq!(index::scanned_game_paths(&s), vec!["p/a.swf"]);
}

#[test]
fn names_that_are_kept() {
    assert!(matches!(index::write_meta_sidecar("  "), NameChange::Remove));
    match index::write_meta_sidecar(" New ") {
        NameChange::Write(file) => {
            assert_eq!(file, "{\n  \"display_name\": \" New \"\n}");
            let v: serde_json::Value = serde_json::from_str(&file).unwrap();
            assert_eq!(v["display_name"], " New ");
        }
        NameChange::Remove => panic!("removed"),
    }
    assert_eq!(index::write_url_sidecar("  "), None);
    assert_eq!(index::primary_user_path("x.json"), "sdmc:/flashnx/x.json");
    let idx = FileIndex::new();
    assert_eq!(
        index::find_user_file(&idx, "x.json", (false, true)),
        Some("sdmc:/ruffle/x.json".to_string())
    );
    assert_eq!(index::find_user_file(&idx, "x.json", (false, false)), None);
}

#[test]
fn a_copy_of_the_movie_is_found_below_its_own_files() {
    let (copy, dirs) =
        index::duplicate_entry("p/g.files", "http://host.com/a/b/g.swf").unwrap();
    assert_eq!(copy, "p/g.files/host.com/a/b/g.swf");
    assert_eq!(
        dirs,
        vec!["p/g.files/host.com/a/b", "p/g.files/host.com/a", "p/g.files/host.com", "p/g.files"]
    );
    assert!(index::duplicate_entry("p/g.files", "no address").is_none());
}

#[test]
fn names_from_addresses() {
    assert_eq!(names::importer_label("https://archive.org/details/my-item"), "my-item");
    assert_eq!(names::importer_label("https://host.com/games/fun.swf?x=1"), "fun");
    assert_eq!(names::importer_label("https://host.com/"), "host.com");
    assert_eq!(names::importer_label("https://archive.org/"), "archive.org");
    assert_eq!(names::importer_label("https://archive.org/details/"), "archive.org");
    assert_eq!(names::importer_label("https://archive.org/details/sonic_v1.2"), "sonic_v1.2");
    assert_eq!(names::importer_label("my-item"), "my-item");
    assert_eq!(names::importer_label(" https:// "), "https://");
    assert_eq!(names::importer_host("https://www.host.com/x"), "host.com");
    assert_eq!(names::importer_host("my-item"), "");
    assert_eq!(names::safe_name_from_url("https://h/a/b.swf?q#f"), "b.swf");
    assert_eq!(names::safe_name_from_url("https://h/a/b"), "b.swf");
    assert_eq!(names::safe_name_from_url("https://h/a/"), "download.swf");
    assert_eq!(names::basename_of("sdmc:/a\\b.swf"), "b.swf");
    assert_eq!(names::parent_dir("a/b/c"), "a/b");
}

#[test]
fn terms_from_file_names() {
    assert_eq!(names::cover_query_from_name("my_cool-game.SWF"), "my cool game");
    assert!(names::looks_like_download_hash("a1b2c3"));
    assert!(!names::looks_like_download_hash("abc"));
    let rows = names::cap_preview_rows(vec!["r".to_string(); 20]);
    assert_eq!(rows.len(), 9);
    assert_eq!(rows[8], "(+12 ...)");
}

#[test]
fn the_hue_of_a_file_name() {
    assert_eq!(names::hue_from_basename("a.swf"), 2);
    assert_eq!(names::hue_from_basename(""), 61);
}
