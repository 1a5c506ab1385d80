//! What stands under the cursor on the screen is what a button acts on.

use crate::laws;
use crate::laws::buttons;
use crate::laws::games;
use crate::laws::imports;
use crate::laws::lists;
use crate::laws::panels;
use crate::laws::urls;
use crate::library;
use crate::library::history;
use crate::library::importer;
use crate::library::names;
use crate::library::screen::{Button, Effect, Screen};
use crate::library::sorting::SortMode;
use crate::library::state::State;
use crate::library::view;
use crate::library::view::{Picture, Scene};
use crate::library::{Facts, Reply};
use crate::loc;
use crate::loc::{Lang, PICKER_LANGS};
use crate::menu::pad::Keys;
use crate::menu::Menu;
use crate::text;
use vstd::prelude::*;

verus! {

/// The game list draws the games that the search leaves, row by row, says how many
/// there are without it, and marks the row of the cursor.
pub proof fn the_found_games_are_drawn(
    s: State,
    sc: Scene,
    p: Picture,
    row: usize,
    top: usize,
)
    requires
        view::draws(s, sc, p),
        s.screen == (Screen::List { selection: row, scroll_offset: top }),
        s.entries@.len() <= usize::MAX,
    ensures
        p matches Picture::Games { shown, selection, scroll, total, .. } && {
            &&& selection == row && scroll == top && total == s.entries@.len()
            &&& shown@.len() == lists::games_before(
                s.entries@,
                s.local_filter,
                s.entries@.len() as int,
            )
            &&& forall|i: int|
                0 <= i < shown@.len() ==> {
                    let g = #[trigger] shown@[i] as int;
                    &&& g < s.entries@.len()
                    &&& lists::game_found(s.entries@[g], s.local_filter)
                    &&& lists::games_before(s.entries@, s.local_filter, g) == i
                }
        },
{
    lists::shown_games_are_found(s.entries@, s.local_filter);
}

/// In the game list A launches the game that is drawn under the cursor, and Plus opens
/// the options of that game.
pub proof fn the_game_that_is_drawn_is_launched(
    s: State,
    sc: Scene,
    p: Picture,
    shown: Seq<usize>,
    m: Menu,
    keys: Keys,
    f: Facts,
    b: Button,
    post: State,
    m2: Menu,
    r: Reply,
    row: usize,
    top: usize,
)
    requires
        view::draws(s, sc, p),
        p matches Picture::Games { shown: drawn, .. } && drawn@ == shown,
        s.screen == (Screen::List { selection: row, scroll_offset: top }),
        s.entries@.len() <= usize::MAX,
        library::input_step(s, m, keys, f, b, post, m2, r),
        games::reaches(m, f, b),
        row < shown.len(),
        !s.applet_mode,
    ensures
        shown[row as int] < s.entries@.len(),
        b == Button::A ==> (post.selected_path matches Some(path) && path@
            == s.entries@[shown[row as int] as int].path@),
        b == Button::Plus ==> post.screen == (Screen::OptionsModal {
            game_idx: shown[row as int],
            selection: 0,
        }),
{
    lists::shown_games_are_found(s.entries@, s.local_filter);
}

/// In the list of an item's files A downloads the file that is drawn under the cursor,
/// or nothing where it is on the card.
pub proof fn the_file_that_is_drawn_is_downloaded(
    s: State,
    sc: Scene,
    p: Picture,
    shown: Seq<usize>,
    m: Menu,
    keys: Keys,
    f: Facts,
    post: State,
    m2: Menu,
    r: Reply,
    row: usize,
    top: usize,
)
    requires
        view::draws(s, sc, p),
        p matches Picture::Files { shown: drawn, .. } && drawn@ == shown,
        s.screen == (Screen::DistantFiles { selection: row, scroll_offset: top }),
        s.remote.files@.len() <= usize::MAX,
        library::input_step(s, m, keys, f, Button::A, post, m2, r),
        games::reaches(m, f, Button::A),
        row < shown.len(),
    ensures
        shown[row as int] < s.remote.files@.len(),
        lists::file_found(s.remote.files@[shown[row as int] as int], s.remote.filter),
        r.effect == Effect::Nothing || r.effect == (Effect::DownloadRemote {
            file_idx: shown[row as int],
            selection: row,
            scroll: top,
        }),
{
    lists::shown_files_are_found(s.remote.files@, s.remote.filter);
}

/// Below its first row the import tab draws the saved URLs in the order of the list,
/// `v`: each with its label, its server, and whether it is a favourite.
pub proof fn the_saved_urls_are_drawn(
    s: State,
    sc: Scene,
    p: Picture,
    v: Seq<usize>,
    row: usize,
    top: usize,
)
    requires
        view::draws(s, sc, p),
        s.screen == (Screen::DistantIdle { selection: row, scroll_offset: top }),
        importer::is_view(s.entries@, s.history, s.sorting, v),
    ensures
        p matches Picture::Urls { selection, scroll, urls: drawn, total, .. } && {
            &&& selection == row && scroll == top && total == s.history.urls@.len()
            &&& drawn@.len() == v.len()
            &&& forall|i: int|
                0 <= i < drawn@.len() ==> {
                    let x = #[trigger] drawn@[i];
                    let url = s.history.urls@[v[i] as int]@;
                    &&& x.label@ == names::label_of(url)
                    &&& x.host@ == names::host_of(url)
                    &&& x.favorite == urls::marked(history::rows_of(s.history.meta@), url)
                }
        },
{
    importer::view_is(s.entries@, s.history, s.sorting, v);
    if let Picture::Urls { urls: drawn, .. } = p {
        assert forall|i: int| 0 <= i < drawn@.len() implies {
            let x = #[trigger] drawn@[i];
            let url = s.history.urls@[v[i] as int]@;
            &&& x.label@ == names::label_of(url)
            &&& x.host@ == names::host_of(url)
            &&& x.favorite == urls::marked(history::rows_of(s.history.meta@), url)
        } by {
            urls::favored_is_marked(
                history::rows_of(s.history.meta@),
                s.history.urls@[v[i] as int]@,
            );
        }
    }
}

/// The name of an order of the game list, in a language.
pub open spec fn order_name(lc: crate::loc::strings::Strings, mode: SortMode) -> Seq<char> {
    match mode {
        SortMode::Alpha => lc.sort_alpha@,
        SortMode::Recent => lc.sort_recent@,
        SortMode::RecentlyPlayed => lc.sort_recent_played@,
        SortMode::MostPlayed => lc.sort_played@,
        SortMode::Size => lc.sort_size@,
    }
}

/// Each row of the orders of the game list has the name of the order that A takes in
/// that row, and the panel says which way it goes.
pub proof fn the_orders_are_named(
    s: State,
    sc: Scene,
    p: Picture,
    row: usize,
    prev_sel: usize,
    prev_scroll: usize,
)
    requires
        view::draws(s, sc, p),
        s.screen == (Screen::SortModal { selection: row, prev_sel, prev_scroll }),
    ensures
        p matches Picture::Sorts { selection, rows, direction, .. } && {
            let lc = loc::table_of(s.settings.lang);
            &&& selection == row
            &&& rows@.len() == 5
            &&& forall|i: int|
                0 <= i < 5 ==> (#[trigger] rows@[i])@ == order_name(lc, buttons::order_in_row(i))
            &&& direction@ == (if s.sorting.reverse {
                lc.sort_dir_desc@
            } else {
                lc.sort_dir_asc@
            })
        },
{
    if let Picture::Sorts { rows, .. } = p {
        let lc = loc::table_of(s.settings.lang);
        let t = text::texts(rows@);
        assert(t.len() == 5);
        assert(t[0] == lc.sort_alpha@ && t[1] == lc.sort_recent@ && t[2] == lc.sort_recent_played@
            && t[3] == lc.sort_played@ && t[4] == lc.sort_size@);
        assert forall|i: int| 0 <= i < 5 implies (#[trigger] rows@[i])@ == order_name(
            lc,
            buttons::order_in_row(i),
        ) by {
            assert(rows@[i]@ == t[i]);
        }
    }
}

/// Each cell of the languages has the name of the language that A takes in that cell.
pub proof fn the_languages_are_named(s: State, sc: Scene, p: Picture, at: usize, i: int)
    requires
        view::draws(s, sc, p),
        s.screen == (Screen::SettingsLanguagePicker { selection: at }),
        !sc.fonts_loading,
        0 <= i < 9,
    ensures
        p matches Picture::Languages { selection, names } && selection == at && names@.len() == 9
            && (panels::language_in(i) != Lang::Zh || sc.cjk ==> names@[i]@ == loc::lang_name(
            panels::language_in(i),
        )),
{
    if let Picture::Languages { names, .. } = p {
        let t = text::texts(names@);
        assert(t == view::language_rows(sc.cjk));
        assert(t.len() == 9);
        assert(t[i] == names@[i]@);
        assert(PICKER_LANGS@[i] == panels::language_in(i));
    }
}

/// What is asked before a game is deleted names the game that is deleted.
pub proof fn the_game_to_delete_is_named(s: State, sc: Scene, p: Picture, g: usize)
    requires
        view::draws(s, sc, p),
        s.screen == (Screen::DeleteConfirm { game_idx: g }),
        g < s.entries@.len(),
    ensures
        p matches Picture::DeleteGame { name, file } && name@ == s.entries@[g as int].display_name@
            && file@ == s.entries@[g as int].basename@,
{
}

/// The rows of a game's options are named for what A does in them; the first offers
/// to make the game a favourite where it is none, and no longer one where it is.
pub proof fn the_options_are_named(s: State, sc: Scene, p: Picture, g: usize, row: usize)
    requires
        view::draws(s, sc, p),
        s.screen == (Screen::OptionsModal { game_idx: g, selection: row }),
        g < s.entries@.len(),
    ensures
        p matches Picture::Options { title, selection, rows, .. } && {
            let lc = loc::table_of(s.settings.lang);
            let e = s.entries@[g as int];
            &&& title@ == e.display_name@
            &&& selection == row
            &&& rows@.len() == 5
            &&& rows@[0]@ == (if laws::on_list(s.favorites@, e.basename@) {
                lc.opt_unfavorite@
            } else {
                lc.opt_favorite@
            })
            &&& rows@[1]@ == lc.opt_keys@
            &&& rows@[2]@ == lc.opt_rename@
            &&& rows@[3]@ == lc.opt_cover@
            &&& rows@[4]@ == lc.opt_delete@
        },
{
    if let Picture::Options { rows, .. } = p {
        let t = text::texts(rows@);
        assert(t.len() == 5);
        assert(t[0] == rows@[0]@ && t[1] == rows@[1]@ && t[2] == rows@[2]@ && t[3] == rows@[3]@
            && t[4] == rows@[4]@);
        let base = s.entries@[g as int].basename@;
        assert(laws::on_list(s.favorites@, base) == crate::library::state::listed(
            s.favorites@,
            base,
        ));
    }
}

/// In the list of an item's files those are marked that are on the card: that were
/// downloaded, or are a game's.
pub proof fn the_files_on_the_card_are_marked(
    s: State,
    sc: Scene,
    p: Picture,
    row: usize,
    top: usize,
    name: Seq<char>,
)
    requires
        view::draws(s, sc, p),
        s.screen == (Screen::DistantFiles { selection: row, scroll_offset: top }),
    ensures
        p matches Picture::Files { marked, .. } && laws::on_list(marked@, name) == (laws::on_list(
            s.remote.downloaded@,
            name,
        ) || imports::in_list(s.entries@, name)),
{
    if let Picture::Files { marked, .. } = p {
        let (m, d) = (text::texts(marked@), text::texts(s.remote.downloaded@));
        view::marks_are_exact(d, s.entries@, name);
        assert(importer::on_card(s.entries@, name) == imports::in_list(s.entries@, name));
        if m.contains(name) {
            let k = choose|k: int| 0 <= k < m.len() && m[k] == name;
            assert(marked@[k]@ == name);
        }
        if laws::on_list(marked@, name) {
            let k = choose|k: int| 0 <= k < marked@.len() && (#[trigger] marked@[k])@ == name;
            assert(m[k] == name);
        }
        if d.contains(name) {
            let k = choose|k: int| 0 <= k < d.len() && d[k] == name;
            assert(s.remote.downloaded@[k]@ == name);
        }
        if laws::on_list(s.remote.downloaded@, name) {
            let k = choose|k: int|
                0 <= k < s.remote.downloaded@.len() && (#[trigger] s.remote.downloaded@[k])@ == name;
            assert(d[k] == name);
        }
    }
}

} // verus!
