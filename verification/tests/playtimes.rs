use flashnx::library::sorting::{bank_playtime, note_played};
use flashnx::library::state::Session;
use flashnx::playtime;
use flashnx::playtime::Playtime;

#[test]
fn sessions_add_up() {
    let mut pt = Playtime::new();
    playtime::add(&mut pt, "a.swf", 30, 100);
    playtime::add(&mut pt, "a.swf", 12, 200);
    playtime::add(&mut pt, "b.swf", 5, 150);
    assert_eq!(playtime::get(&pt, "a.swf"), 42);
    assert_eq!(playtime::get_last(&pt, "a.swf"), 200);
    assert_eq!(playtime::get(&pt, "c.swf"), 0);
}

#[test]
fn the_table_is_read_as_it_was_saved() {
    let mut pt = Playtime::new();
    playtime::add(&mut pt, "z.swf", 7, 10);
    playtime::add(&mut pt, "a.swf", 60, 20);
    let file = playtime::save(&pt).unwrap();
    assert!(file.contains("\"a.swf\""));
    let mut again = Playtime::new();
    playtime::load(&mut again, file.as_bytes());
    assert_eq!(playtime::get(&again, "z.swf"), 7);
    assert_eq!(playtime::get_last(&again, "z.swf"), 10);
    assert_eq!(playtime::get(&again, "a.swf"), 60);
}

#[test]
fn an_old_table_holds_plain_seconds() {
    let mut pt = Playtime::new();
    playtime::load(&mut pt, b"{\"a.swf\": 90, \"b.swf\": {\"s\": 5, \"l\": 6}}");
    assert_eq!(playtime::get(&pt, "a.swf"), 90);
    assert_eq!(playtime::get_last(&pt, "a.swf"), 0);
    assert_eq!(playtime::get(&pt, "b.swf"), 5);
    assert_eq!(playtime::get_last(&pt, "b.swf"), 6);
}

#[test]
fn a_file_gives_each_game_one_row() {
    let mut pt = Playtime::new();
    playtime::load(&mut pt, b"{\"b.swf\": 1, \"a.swf\": 2, \"b.swf\": {\"s\": 5, \"l\": 6}}");
    assert_eq!(pt.rows.len(), 2);
    assert_eq!(playtime::get(&pt, "b.swf"), 5);
    playtime::add(&mut pt, "b.swf", 10, 20);
    let file = playtime::save(&pt).unwrap();
    let mut again = Playtime::new();
    playtime::load(&mut again, file.as_bytes());
    assert_eq!(playtime::get(&again, "b.swf"), 15);
    assert_eq!(playtime::get_last(&again, "b.swf"), 20);
    assert_eq!(playtime::get(&again, "a.swf"), 2);
}

#[test]
fn a_broken_table_changes_nothing() {
    let mut pt = Playtime::new();
    playtime::add(&mut pt, "a.swf", 3, 4);
    playtime::load(&mut pt, b"not json");
    assert_eq!(playtime::get(&pt, "a.swf"), 3);
}

#[test]
fn a_session_is_banked_once() {
    let mut pt = Playtime::new();
    let mut session = Session::new();
    note_played(&mut session, "a.swf", "A");
    session.launch_tick = Some(1_000);
    bank_playtime(&mut session, &mut pt, 61_000, 1_000, 777);
    assert_eq!(playtime::get(&pt, "a.swf"), 60);
    assert_eq!(playtime::get_last(&pt, "a.swf"), 777);
    bank_playtime(&mut session, &mut pt, 99_000, 1_000, 888);
    assert_eq!(playtime::get(&pt, "a.swf"), 60);
}
