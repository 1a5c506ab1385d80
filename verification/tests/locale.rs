use flashnx::loc;
use flashnx::loc::settings;
use flashnx::loc::{Lang, Settings};

fn settings_in(lang: Lang) -> Settings {
    let mut st = Settings::new();
    loc::set(&mut st, lang, true);
    st
}

#[test]
fn languages_by_number_and_by_code() {
    for i in 0..9 {
        let l = Lang::from_index(i);
        assert_eq!(l.index(), i);
        assert_eq!(Lang::from_code(l.code()), Some(l));
    }
    assert_eq!(Lang::from_index(99), Lang::En);
    assert_eq!(Lang::from_code("xx"), None);
    assert!(Lang::Zh.needs_cjk());
    assert_eq!(Lang::Zh.picker_name(false), "CHINESE (NEEDS MORE MEMORY)");
    assert_eq!(Lang::Fr.native_name(), "FRAN\u{c7}AIS");
}

#[test]
fn a_language_that_cannot_be_drawn_is_english() {
    let mut st = Settings::new();
    loc::set(&mut st, Lang::Zh, false);
    assert_eq!(loc::current(&st), Lang::En);
    loc::set(&mut st, Lang::Zh, true);
    assert_eq!(loc::current(&st), Lang::Zh);
}

#[test]
fn texts_in_their_language() {
    assert_eq!(loc::s(&settings_in(Lang::En)).menu_resume, "RESUME");
    assert_eq!(loc::s(&settings_in(Lang::Fr)).menu_resume, "REPRENDRE");
    assert_eq!(loc::s(&settings_in(Lang::De)).menu_quit, "BEENDEN");
}

#[test]
fn plurals() {
    let en = settings_in(Lang::En);
    assert_eq!(loc::games_count(&en, 0), "0 GAMES");
    assert_eq!(loc::games_count(&en, 1), "1 GAME");
    assert_eq!(loc::games_count(&en, 2), "2 GAMES");
    let fr = settings_in(Lang::Fr);
    assert_eq!(loc::games_count(&fr, 0), "0 JEU");
    assert_eq!(loc::games_count(&fr, 2), "2 JEUX");
    assert_eq!(loc::files_found(&en, 1), "1 .SWF FILE FOUND");
    assert_eq!(loc::files_found(&en, 3), "3 .SWF FILES FOUND");
}

#[test]
fn settings_are_read_as_they_were_written() {
    let mut st = settings_in(Lang::It);
    loc::set_default_display_mode(&mut st, 2);
    loc::set_default_screen_filter(&mut st, 1);
    loc::set_home_view(&mut st, 3);
    let file = loc::save_current(&st);
    let mut again = Settings::new();
    loc::init(&mut again, Some(file.as_str()), 0, true);
    assert_eq!(again.lang, Lang::It);
    assert_eq!(again.display_mode, 2);
    assert_eq!(again.screen_filter, 1);
    assert_eq!(again.home_view, 3);
}

#[test]
fn the_settings_file() {
    let st = settings_in(Lang::Fr);
    assert_eq!(
        loc::save_current(&st),
        "{\n    \"language\": \"fr\",\n    \"covers_online\": true,\n    \"display_mode\": 0,\n    \"screen_filter\": 0,\n    \"home_view\": 0\n}\n"
    );
    assert!(loc::covers_online(&st));
}

#[test]
fn single_settings() {
    assert_eq!(settings::parse_language("{\"language\": \"de\"}"), Some(Lang::De));
    assert_eq!(settings::parse_language("{\"language\": \"xx\"}"), None);
    assert_eq!(settings::parse_language("{}"), None);
    assert_eq!(settings::parse_covers_online("{\"covers_online\": true}"), Some(true));
    assert_eq!(settings::parse_covers_online("{\"covers_online\":false}"), Some(false));
    assert_eq!(settings::parse_covers_online("{\"covers_online\": maybe}"), None);
    assert_eq!(settings::parse_u8_setting("{\"home_view\": 2}", "home_view", 4), Some(2));
    assert_eq!(settings::parse_u8_setting("{\"home_view\": 4}", "home_view", 4), None);
    assert_eq!(settings::parse_u8_setting("{\"home_view\": x}", "home_view", 4), None);
    assert_eq!(settings::parse_u8_setting("{}", "home_view", 4), None);
}

#[test]
fn layouts_go_round() {
    let mut st = Settings::new();
    loc::set_home_view(&mut st, 5);
    assert_eq!(loc::home_view(&st), 1);
    assert_eq!(loc::home_view_label(&st, 1), loc::s(&st).home_list);
    assert_eq!(loc::display_mode_label(&st, 9), loc::s(&st).display_fit);
    assert_eq!(loc::screen_filter_label(&st, 2), loc::s(&st).filter_crt);
}
