use flashnx::library::download;
use flashnx::library::download::{Finished, Polled, Unpacked};
use flashnx::library::index::{HeaderIndex, Sidecars};
use flashnx::library::screen::Screen;
use flashnx::library::state::{Candidate, Compression, Header, State};
use flashnx::loc;
use flashnx::net::RemoteFile;

fn zip_download() -> State {
    let mut s = State::new();
    s.screen = Screen::DistantDownloading;
    s.download.file_name = "g.swf".to_string();
    s.download.out_path = "sdmc:/flashnx/.fpdl.zip".to_string();
    s.download.source_url = "https://fp/g".to_string();
    s.download.zip_extract = Some("sdmc:/flashnx/g.swf".to_string());
    s.download.launch_command = "http://h/index.html".to_string();
    s.download.cover_url = Some("https://c/g.png".to_string());
    s.download.title = Some(" The Game ".to_string());
    s.download.resume_pos = Some((5, 2));
    s
}

fn found() -> Candidate {
    Candidate {
        id: String::new(),
        title: "x".to_string(),
        developer: String::new(),
        publisher: String::new(),
        release_date: String::new(),
        cover_url: "https://c/1.png".to_string(),
        launch_command: String::new(),
        zipped: true,
    }
}

fn beside(size: u64) -> Sidecars {
    Sidecars {
        header: Some(Header {
            size_bytes: size,
            version: 9,
            compression: Compression::Cws,
            is_as3: true,
        }),
        filesize: None,
        display_name: None,
        url: None,
    }
}

fn strings(list: &[&str]) -> Vec<String> {
    list.iter().map(|s| s.to_string()).collect()
}

#[test]
fn a_look_at_a_download() {
    let mut s = zip_download();
    assert_eq!(download::download_polled(&mut s, Ok(false)), Polled::Waiting);
    assert_eq!(download::download_polled(&mut s, Ok(true)), Polled::GameEnded);
    s.download.companions.active = true;
    assert_eq!(
        download::download_polled(&mut s, Err("x".to_string())),
        Polled::CompanionEnded
    );
    assert_eq!(s.screen, Screen::DistantDownloading);
    s.download.companions.active = false;
    assert_eq!(download::download_polled(&mut s, Err("x".to_string())), Polled::Failed);
    assert_eq!(s.remote.error, "x");
}

#[test]
fn a_page_in_place_of_the_file_is_discarded() {
    let mut s = zip_download();
    s.remote.failed_url = "https://u".to_string();
    match download::on_download_finished(&mut s, b"<htm") {
        Finished::Discard { path } => assert_eq!(path, "sdmc:/flashnx/.fpdl.zip"),
        _ => panic!("kept"),
    }
    assert_eq!(s.screen, Screen::DistantError);
    assert_eq!(s.remote.error, loc::s(&s.settings).err_dl_not_a_game);
    assert_eq!(s.remote.failed_url, "https://u");
    assert!(s.download.out_path.is_empty() && s.download.title.is_none());
    assert!(matches!(download::on_download_finished(&mut s, b"FWS"), Finished::Nothing));
}

#[test]
fn what_a_finished_download_is() {
    let mut s = zip_download();
    match download::on_download_finished(&mut s, b"PK\x03\x04") {
        Finished::Archive { zip, swf_path, .. } => {
            assert_eq!(zip, "sdmc:/flashnx/.fpdl.zip");
            assert_eq!(swf_path, "sdmc:/flashnx/g.swf");
        }
        _ => panic!("no archive"),
    }
    s.download.fp_direct = true;
    assert!(matches!(
        download::on_download_finished(&mut s, b"CWS\x09"),
        Finished::Direct { .. }
    ));
    let mut t = State::new();
    t.download.out_path = "sdmc:/flashnx/g.swf".to_string();
    t.download.source_url = "https://u".to_string();
    match download::on_download_finished(&mut t, b"ZWS\x0d") {
        Finished::Movie { path, source_url } => {
            assert_eq!(path, "sdmc:/flashnx/g.swf");
            assert_eq!(source_url, "https://u");
        }
        _ => panic!("no movie"),
    }
    assert!(!download::looks_right(&t.download, b"PK\x03\x04"));
    assert!(!download::looks_right(&t.download, b""));
}

#[test]
fn a_page_as_launch_command_is_replaced() {
    let mut s = zip_download();
    let movie = Unpacked {
        command_is_movie: false,
        movie_url: Some("http://h/real.swf".to_string()),
    };
    assert!(download::archive_unpacked(&mut s, Some(movie)));
    assert_eq!(s.download.launch_command, "http://h/real.swf");
    assert!(!download::archive_unpacked(&mut s, None));
    assert_eq!(s.remote.error, loc::s(&s.settings).err_no_swf);
    assert!(s.download.zip_extract.is_none());
    assert!(s.download.file_name.is_empty() && s.download.out_path.is_empty());
    assert_eq!(s.download.launch_command, "http://h/real.swf");
    assert_eq!(s.download.source_url, "https://fp/g");
}

#[test]
fn linked_files_are_fetched_once_each() {
    let mut s = zip_download();
    download::begin_companions(
        &mut s,
        "http://h/a/".to_string(),
        "sdmc:/flashnx/g.files".to_string(),
        "main.swf".to_string(),
        &strings(&["MAIN.swf", "one.swf", "two.swf", "One.SWF"]),
    );
    assert_eq!(s.download.companions.queue, vec!["one.swf", "two.swf"]);
    let f = download::next_companion(&mut s).unwrap();
    assert_eq!(f.name, "two.swf");
    assert_eq!(f.url, "http://h/a/two.swf");
    assert_eq!(f.out_path, "sdmc:/flashnx/g.files/two.swf");
    download::companion_started(&mut s, f.name);
    assert_eq!(download::companion_path(&s), "sdmc:/flashnx/g.files/two.swf");
    let junk = download::companion_download_finished(
        &mut s,
        Some(b"FWS\x09.....rest"),
        &strings(&["two.swf", "three.swf"]),
    );
    assert!(!junk);
    assert_eq!(s.download.companions.queue, vec!["one.swf", "three.swf"]);
    assert_eq!(s.download.companions.done, 1);
    assert!(download::companion_download_finished(&mut s, Some(b"<html>page"), &strings(&["x.swf"])));
    assert_eq!(s.download.companions.queue.len(), 2);
    assert!(!download::companion_download_finished(&mut s, None, &Vec::new()));
    assert!(download::next_companion(&mut s).is_some());
    assert!(download::next_companion(&mut s).is_some());
    assert!(download::next_companion(&mut s).is_none());
    download::companions_over(&mut s);
    assert!(!s.download.companions.active);
}

#[test]
fn names_in_commands_and_entries() {
    assert_eq!(download::main_of_command("http://h/a/Main.SWF?x=1"), "main.swf");
    assert_eq!(download::main_of_entry("content/h/A.swf"), "a.swf");
    assert_eq!(download::directory_of("http://h/a/b.swf"), Some("http://h/a/".to_string()));
    assert_eq!(download::directory_of("b.swf"), None);
    assert!(!download::is_movie_file(b"FWS12345"));
    assert!(download::is_movie_file(b"FWS123456"));
}

#[test]
fn a_download_replaces_the_game_of_its_path() {
    let mut s = State::new();
    let mut h = HeaderIndex::new();
    assert!(download::add_or_replace_path(&mut s, &mut h, "p/b.swf", 10, &beside(1)));
    assert!(download::add_or_replace_path(&mut s, &mut h, "p/a.swf", 20, &beside(2)));
    assert!(download::add_or_replace_path(&mut s, &mut h, "p/b.swf", 30, &beside(3)));
    assert_eq!(s.entries.len(), 2);
    assert_eq!(s.entries[0].basename, "a.swf");
    assert_eq!(s.entries[1].size_bytes, 3);
    assert_eq!(s.entries[1].mtime, 30);
    let none = Sidecars { header: None, filesize: None, display_name: None, url: None };
    assert!(!download::add_or_replace_path(&mut s, &mut h, "p/c.swf", 40, &none));
    assert_eq!(s.entries.len(), 2);
}

#[test]
fn the_end_of_a_catalogue_import() {
    let mut s = zip_download();
    s.covers.candidates = vec![found(), found()];
    download::add_or_replace_path(
        &mut s,
        &mut HeaderIndex::new(),
        "sdmc:/flashnx/g.swf",
        1,
        &beside(1),
    );
    let f = download::finale(&s, "http://h/g.swf").unwrap();
    assert_eq!(f.swf_path, "sdmc:/flashnx/g.swf");
    assert_eq!(f.base, Some("http://h/g.swf".to_string()));
    assert_eq!(f.cover_url, Some("https://c/g.png".to_string()));
    assert_eq!(f.title, Some("The Game".to_string()));
    assert_eq!(f.source_url, "https://fp/g");
    assert!(download::finale(&s, "\"quoted\"").unwrap().base.is_none());
    download::finalize_gamezip_download(&mut s, true);
    assert_eq!(s.screen, Screen::FpGallery { selection: 1, scroll: 2 });
    assert_eq!(s.entries[0].display_name, "The Game");
    assert_eq!(s.remote.downloaded, vec!["g.swf"]);
    assert_eq!(
        s.toast.msg,
        loc::s(&s.settings).toast_dl_ok.replace("{}", "The Game")
    );
    assert!(s.download.file_name.is_empty() && s.download.out_path.is_empty());
    assert!(s.download.zip_extract.is_none() && s.download.title.is_none());
    assert_eq!(s.download.resume_pos, None);
    assert_eq!(s.download.source_url, "https://fp/g");
    assert!(download::finale(&s, "http://h").is_none());
}

#[test]
fn a_catalogue_import_without_a_game() {
    let mut s = zip_download();
    s.download.title = Some("g".to_string());
    assert!(download::finale(&s, "").unwrap().title.is_none());
    download::finalize_gamezip_download(&mut s, false);
    assert_eq!(s.screen, Screen::FpGallery { selection: 0, scroll: 2 });
    assert!(s.remote.downloaded.is_empty());
    assert_eq!(s.toast.msg, loc::s(&s.settings).err_dl_not_a_game);
}

#[test]
fn the_end_of_another_import() {
    let mut s = State::new();
    s.download.file_name = "g.swf".to_string();
    s.download.out_path = "sdmc:/flashnx/my_game.swf".to_string();
    s.download.source_url = "https://u/g.swf".to_string();
    s.download.resume_pos = Some((7, 0));
    s.remote.failed_url = "https://u".to_string();
    s.remote.files = vec![
        RemoteFile { name: "a.swf".to_string(), size_bytes: 1, download_url: String::new() },
        RemoteFile { name: "g.swf".to_string(), size_bytes: 1, download_url: String::new() },
    ];
    assert_eq!(
        download::auto_cover_term(&s),
        Some(("my_game.swf".to_string(), "my game".to_string()))
    );
    download::import_finished(&mut s, true, &strings(&["levels.txt", "b.xml"]));
    assert_eq!(s.screen, Screen::DistantFiles { selection: 1, scroll_offset: 0 });
    assert_eq!(
        s.toast.msg,
        loc::s(&s.settings).toast_assets_missing.replace("{}", "levels.txt, b.xml")
    );
    assert!(s.remote.failed_url.is_empty());
    assert_eq!(s.remote.downloaded, vec!["g.swf"]);
    assert!(s.download.file_name.is_empty() && s.download.out_path.is_empty());
    assert_eq!(s.download.resume_pos, None);
    assert_eq!(s.download.source_url, "https://u/g.swf");
    s.remote.files = Vec::new();
    s.download.file_name = "h.swf".to_string();
    download::import_finished(&mut s, true, &Vec::new());
    assert_eq!(s.screen, Screen::DistantIdle { selection: 0, scroll_offset: 0 });
    assert_eq!(s.toast.msg, loc::s(&s.settings).toast_dl_ok.replace("{}", "h"));
    download::import_finished(&mut s, false, &Vec::new());
    assert_eq!(s.toast.msg, loc::s(&s.settings).err_dl_not_a_game);
}

#[test]
fn files_that_a_game_asks_for() {
    let files = strings(&["readme.txt", "Levels.TXT"]);
    assert_eq!(
        download::asset_request("it", "d", "levels.txt", &files),
        Some((
            "https://archive.org/download/it/Levels.TXT".to_string(),
            "d/Levels.TXT".to_string()
        ))
    );
    assert_eq!(download::asset_request("it", "d", "other.txt", &files), None);
    assert_eq!(download::single_cover(&vec![found()]), Some("https://c/1.png".to_string()));
    assert_eq!(download::single_cover(&vec![found(), found()]), None);
    assert_eq!(download::bare_name("a.swf"), "a");
    assert_eq!(download::bare_name("a.SWF"), "a.SWF");
}
