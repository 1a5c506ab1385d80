use flashnx::loc::Settings;
use flashnx::profiles;
use flashnx::profiles::{
    Catalog, IndexEntry, Keymap, Match, MatchKind, NicknameChange, Profile, ProfileGame,
    RelayAnswer, Sharer,
};

fn pairs(list: &[(&str, &str)]) -> Vec<(String, String)> {
    list.iter().map(|(a, b)| (a.to_string(), b.to_string())).collect()
}

fn profile(id: &str, title: &str, verified: bool, keys: &[(&str, &str)]) -> Profile {
    Profile {
        schema: 1,
        id: id.to_string(),
        game: ProfileGame {
            title: title.to_string(),
            fp_uuid: String::new(),
            swf_hash: String::new(),
        },
        author: String::new(),
        verified,
        notes: String::new(),
        bindings: pairs(keys),
        bindings_p2: Vec::new(),
        combo_layers: vec![("ZL".to_string(), pairs(&[("A", "KeyQ")]))],
        combo_layers_p2: Vec::new(),
        cursor_speed: 3,
        show_cursor: false,
    }
}

#[test]
fn a_title_fits_without_case_marks_and_ending() {
    let list = vec![
        profile("a", "Super Mario 63", false, &[]),
        profile("b", "SUPER-MARIO_63.swf", false, &[]),
        profile("c", "Other", false, &[]),
    ];
    let found = profiles::matches_in(list, "", "", "super mario 63!");
    assert_eq!(found.len(), 2);
    assert!(found.iter().all(|m| m.kind == MatchKind::Title && m.applied == 0));
    assert!(profiles::matches_in(vec![profile("a", "", false, &[])], "", "", "").is_empty());
    assert!(profiles::matches_for("u", "h", "t").is_empty());
    assert!(profiles::bundled().is_empty());
}

#[test]
fn exact_before_verified_before_popular_before_complete() {
    let mut exact = profile("exact", "x", false, &[]);
    exact.game.swf_hash = "h".to_string();
    let own = Vec::new();
    let m = |p: Profile, kind: MatchKind| Match { profile: p, kind, applied: 0 };
    let fetched = vec![
        m(profile("plain", "x", false, &[("A", "k")]), MatchKind::Title),
        m(profile("full", "x", false, &[("A", "k"), ("B", "k")]), MatchKind::Title),
        m(profile("liked", "x", false, &[]), MatchKind::Title),
        m(profile("checked", "x", true, &[]), MatchKind::Title),
        m(exact, MatchKind::Hash),
        m(profile("plain", "x", true, &[]), MatchKind::Title),
    ];
    let counts = vec![("liked".to_string(), 5)];
    let all = profiles::all_matches_for(own, fetched, &counts);
    let ids: Vec<&str> = all.iter().map(|m| m.profile.id.as_str()).collect();
    assert_eq!(ids, vec!["exact", "checked", "liked", "full", "plain"]);
    assert_eq!(all[2].applied, 5);
}

#[test]
fn applying_takes_all_keys_and_the_cursor() {
    let p = profile("id1", "x", false, &[("A", "Space")]);
    let (km, speed) = profiles::apply(&p);
    assert_eq!(km.source, "community:id1");
    assert_eq!(km.bindings, pairs(&[("A", "Space")]));
    assert_eq!(km.combo_layers.len(), 1);
    assert!(!km.show_cursor);
    assert_eq!(speed, Some(3));
    let mut q = profile("id2", "x", false, &[]);
    q.cursor_speed = -1;
    assert_eq!(profiles::apply(&q).1, None);
    assert_eq!(p.completeness(), 1);
    assert_eq!(profile("x", "x", false, &[("A", "")]).completeness(), 0);
}

#[test]
fn the_hash_of_a_movie() {
    let start = 0xcbf2_9ce4_8422_2325;
    assert_eq!(profiles::hash_text(profiles::hash_chunk(start, b"")), "cbf29ce484222325");
    assert_eq!(profiles::hash_text(profiles::hash_chunk(start, b"a")), "af63dc4c8601ec8c");
    let whole = profiles::hash_chunk(start, b"foobar");
    let pieces = profiles::hash_chunk(profiles::hash_chunk(start, b"foo"), b"bar");
    assert_eq!(whole, pieces);
    assert_eq!(profiles::hash_text(whole), "85944171f73967e8");
}

#[test]
fn the_number_of_an_installation() {
    let kept = vec![None, Some(" ab12cd34\n".to_string())];
    assert_eq!(profiles::install_id(&kept), Some("ab12cd34".to_string()));
    assert_eq!(profiles::install_id(&vec![Some("abc".to_string())]), None);
    let a = profiles::new_install_id(1);
    let b = profiles::new_install_id(2);
    assert_eq!(a, "0e2d29e7");
    assert_eq!(profiles::new_install_id(0x9E37_79B9_7F4A_7C15), "5030916d");
    assert_ne!(a, b);
    assert_eq!(
        profiles::install_id(&vec![Some(a.clone()), Some("ab12cd34".to_string())]),
        Some(a)
    );
    assert!(profiles::is_mine("game-ab12cd34", "ab12cd34"));
    assert!(!profiles::is_mine("game-ab12cd35", "ab12cd34"));
    assert!(!profiles::is_mine("game-", ""));
}

#[test]
fn nickname_and_token() {
    assert_eq!(profiles::author_name(&vec![Some("  Ada ".to_string())]), "Ada");
    assert_eq!(profiles::author_name(&vec![Some("  ".to_string()), None]), "");
    match profiles::set_author_name(" 0123456789012345678901234567 ") {
        NicknameChange::Keep(n) => assert_eq!(n, "012345678901234567890123"),
        NicknameChange::Clear => panic!("cleared"),
    }
    assert!(matches!(profiles::set_author_name("  "), NicknameChange::Clear));
    let both = vec![Some("Ann".to_string()), Some("Bob".to_string())];
    assert_eq!(profiles::author_name(&both), "Ann");
    assert_eq!(profiles::author_name(&vec![None, Some("Bob".to_string())]), "Bob");
    assert_eq!(profiles::author_name(&vec![None, None]), "");
    assert_eq!(profiles::set_owner_token("short"), None);
    assert_eq!(
        profiles::set_owner_token("0123-4567-89ab-cdef"),
        Some("0123456789abcdef".to_string())
    );
    assert_eq!(profiles::owner_token(&vec![Some(" a-b \n".to_string())]), "ab");
    let kept = profiles::set_owner_token("0123-4567-89ab-cdef");
    assert_eq!(profiles::owner_token(&vec![kept, None]), "0123456789abcdef");
}

#[test]
fn the_catalogue_is_kept_only_where_it_was_read() {
    let mut c = Catalog::new();
    assert!(!profiles::catalog_unavailable(&c));
    profiles::index_answered(&mut c, None);
    assert!(profiles::catalog_unavailable(&c));
    assert!(c.index.is_none());
    let e = IndexEntry {
        id: "a".to_string(),
        title: "Game".to_string(),
        fp_uuid: "uuid".to_string(),
        swf_hash: "hash".to_string(),
        file: "a/a.json".to_string(),
        verified: false,
    };
    profiles::index_answered(&mut c, Some(vec![e]));
    assert!(!profiles::catalog_unavailable(&c));
    let index = c.index.as_ref().unwrap();
    assert_eq!(profiles::wanted_files(index, "uuid", "", ""), vec![(0, MatchKind::Uuid)]);
    assert_eq!(profiles::wanted_files(index, "x", "hash", ""), vec![(0, MatchKind::Hash)]);
    assert_eq!(profiles::wanted_files(index, "", "", "GAME.swf"), vec![(0, MatchKind::Title)]);
    assert!(profiles::wanted_files(index, "", "", "other").is_empty());
    profiles::invalidate_online_cache(&mut c);
    assert!(c.index.is_none());
}

#[test]
fn counts_are_read_from_an_object_of_numbers() {
    let mut c = Catalog::new();
    profiles::counts_answered(&mut c, Some("{\"b\": 2, \"a\": 1}"));
    assert_eq!(
        c.counts,
        Some(vec![("a".to_string(), 1), ("b".to_string(), 2)])
    );
    let mut d = Catalog::new();
    profiles::counts_answered(&mut d, Some("[1]"));
    assert_eq!(d.counts, Some(Vec::new()));
    let mut e = Catalog::new();
    profiles::counts_answered(&mut e, None);
    assert_eq!(e.counts, Some(Vec::new()));
}

#[test]
fn catalogue_files_are_base64_of_utf8() {
    assert_eq!(profiles::catalog_file("aGVs\nbG8="), Some("hello".to_string()));
    assert_eq!(profiles::catalog_file("//8="), None);
    assert!(profiles::catalog_url("index.json", 7).ends_with("index.json?ref=community-profiles&_=7"));
}

#[test]
fn sharing_sends_everything() {
    let st = Settings::new();
    let who = Sharer {
        app_version: "1.0".to_string(),
        install_id: "ab12cd34".to_string(),
        author: "Ada".to_string(),
        owner_token: String::new(),
    };
    let km = Keymap {
        version: 1,
        bindings: pairs(&[("A", "Space")]),
        bindings_p2: pairs(&[("B", "Enter")]),
        combo_layers: vec![("L".to_string(), pairs(&[("X", "KeyX")]))],
        combo_layers_p2: Vec::new(),
        source: "user".to_string(),
        show_cursor: true,
    };
    let p = profiles::share(&st, &who, "Super Mario 63 .SWF", "uuid", "hash", &km, 2);
    assert_eq!(p.kind, "profile");
    assert_eq!(p.title, "Super Mario 63");
    assert_eq!(p.lang, "en");
    assert_eq!(p.bindings, km.bindings);
    assert_eq!(p.bindings_p2, km.bindings_p2);
    assert_eq!(p.combo_layers, km.combo_layers);
    assert_eq!(p.cursor_speed, 2);
    assert_eq!(p.install_id, "ab12cd34");
    assert_eq!(profiles::share_title("plain"), "plain");
}

#[test]
fn answers_of_the_relay() {
    let st = Settings::new();
    let answer = |ok: bool, token: &str, error: &str| {
        Some(RelayAnswer {
            ok,
            id: "id".to_string(),
            token: token.to_string(),
            error: error.to_string(),
        })
    };
    assert_eq!(
        profiles::share_answered(&st, answer(true, "0123456789abcdef", "")),
        Ok(("id".to_string(), Some("0123456789abcdef".to_string())))
    );
    assert_eq!(
        profiles::share_answered(&st, answer(true, "", "")),
        Ok(("id".to_string(), None))
    );
    assert_eq!(
        profiles::share_answered(&st, answer(false, "", "refused")),
        Err("refused".to_string())
    );
    let lc = flashnx::loc::s(&st);
    assert_eq!(
        profiles::share_answered(&st, None),
        Err(lc.bug_fail_title.to_string())
    );
    let mut c = Catalog::new();
    profiles::index_answered(&mut c, Some(Vec::new()));
    assert!(profiles::delete_answered(&st, &mut c, answer(false, "", "")).is_err());
    assert!(c.index.is_some());
    assert_eq!(profiles::delete_answered(&st, &mut c, answer(true, "", "")), Ok(()));
    assert!(c.index.is_none());
}

#[test]
fn deleting_needs_a_token() {
    let st = Settings::new();
    let lc = flashnx::loc::s(&st);
    match profiles::delete(&st, "ab12cd34", "", "id") {
        Ok(_) => panic!("granted"),
        Err(e) => assert_eq!(e, lc.profile_del_not_mine),
    }
    match profiles::delete(&st, "ab12cd34", "token", "id") {
        Ok(p) => {
            assert_eq!(p.kind, "profile_delete");
            assert_eq!(p.owner_token, "token");
            assert_eq!(p.id, "id");
        }
        Err(e) => panic!("{}", e),
    }
}

#[test]
fn addresses_of_the_relay() {
    assert_eq!(profiles::worker_url("https://r.dev/report", "/counts"), "https://r.dev/counts");
    assert_eq!(profiles::worker_url("https://r.dev", "/counts"), "https://r.dev/counts");
}
