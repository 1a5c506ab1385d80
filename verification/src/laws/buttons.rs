//! What the buttons do on the screens of the library.

use crate::laws;
use crate::laws::games;
use crate::laws::lists;
use crate::library;
use crate::library::buttons::files;
use crate::library::frame;
use crate::library::gallery;
use crate::library::screen::{Button, Effect, PendingClose, PendingNet, Screen};
use crate::library::sorting;
use crate::library::sorting::SortMode;
use crate::library::state::State;
use crate::library::{Facts, Reply};
use crate::menu;
use crate::menu::pad::Keys;
use crate::menu::Menu;
use vstd::prelude::*;

verus! {

// ── Rows ───────────────────────────────────────────────────────────────────

/// The row of the cursor on a screen of rows.
pub open spec fn cursor(s: Screen) -> Option<usize> {
    match s {
        Screen::OptionsModal { selection, .. } => Some(selection),
        Screen::SettingsModal { selection } => Some(selection),
        Screen::SettingsPrefsModal { selection } => Some(selection),
        Screen::TouchesMenu { selection, .. } => Some(selection),
        Screen::ProfileList { selection, .. } => Some(selection),
        Screen::DistantFiles { selection, .. } => Some(selection),
        Screen::BugPicker { selection, .. } => Some(selection),
        Screen::DistantUrlOptions { selection, .. } => Some(selection),
        _ => None,
    }
}

/// How many rows the screen has.
pub open spec fn rows(s: State) -> int {
    match s.screen {
        Screen::OptionsModal { .. } => 5,
        Screen::SettingsModal { .. } => 7,
        Screen::SettingsPrefsModal { .. } => 4,
        Screen::TouchesMenu { .. } => if s.touches.can_revert {
            6
        } else {
            5
        },
        Screen::ProfileList { .. } => s.touches.matches@.len() as int,
        Screen::DistantFiles { .. } => lists::files_before(
            s.remote.files@,
            s.remote.filter,
            s.remote.files@.len() as int,
        ) as int,
        Screen::BugPicker { .. } => s.entries@.len() as int,
        Screen::DistantUrlOptions { .. } => 3,
        _ => 0,
    }
}

/// The two are one screen of rows, of one game or one URL, but for the row.
pub open spec fn same_rows(a: Screen, b: Screen) -> bool {
    match (a, b) {
        (Screen::OptionsModal { game_idx: x, .. }, Screen::OptionsModal { game_idx: y, .. }) => x
            == y,
        (Screen::SettingsModal { .. }, Screen::SettingsModal { .. }) => true,
        (Screen::SettingsPrefsModal { .. }, Screen::SettingsPrefsModal { .. }) => true,
        (Screen::TouchesMenu { game_idx: x, .. }, Screen::TouchesMenu { game_idx: y, .. }) => x
            == y,
        (Screen::ProfileList { game_idx: x, .. }, Screen::ProfileList { game_idx: y, .. }) => x
            == y,
        (Screen::DistantFiles { .. }, Screen::DistantFiles { .. }) => true,
        (Screen::BugPicker { .. }, Screen::BugPicker { .. }) => true,
        (
            Screen::DistantUrlOptions { url_idx: x, .. },
            Screen::DistantUrlOptions { url_idx: y, .. },
        ) => x == y,
        _ => false,
    }
}

/// On a screen of rows Down goes one row down and Up one row up, round the ends, and
/// nothing else changes.
#[verifier::rlimit(60)]
pub proof fn the_cursor_goes_round_the_rows(
    pre: State,
    m: Menu,
    keys: Keys,
    f: Facts,
    down: bool,
    post: State,
    m2: Menu,
    r: Reply,
    row: usize,
)
    requires
        library::input_step(
            pre,
            m,
            keys,
            f,
            if down {
                Button::Down
            } else {
                Button::Up
            },
            post,
            m2,
            r,
        ),
        games::reaches(m, f, Button::Up),
        cursor(pre.screen) == Some(row),
        row < rows(pre) <= usize::MAX,
        pre.remote.files@.len() <= usize::MAX,
    ensures
        post == (State { screen: post.screen, ..pre }),
        r.effect == Effect::Nothing,
        same_rows(pre.screen, post.screen),
        cursor(post.screen) matches Some(to) && to == (if down {
            if row == rows(pre) - 1 {
                0
            } else {
                row + 1
            }
        } else {
            if row == 0 {
                rows(pre) - 1
            } else {
                row - 1
            }
        }),
{
    match pre.screen {
        Screen::OptionsModal { .. } => {},
        Screen::SettingsModal { .. } => {},
        Screen::SettingsPrefsModal { .. } => {},
        Screen::TouchesMenu { .. } => {},
        Screen::ProfileList { .. } => {},
        Screen::DistantFiles { .. } => {
            lists::shown_files_are_found(pre.remote.files@, pre.remote.filter);
        },
        Screen::BugPicker { .. } => {},
        _ => {},
    }
}

// ── The game list ──────────────────────────────────────────────────────────

proof fn tile_exists(cells: Seq<gallery::Cell>, row: int, from: gallery::Cell, k: int) -> (i: int)
    requires
        0 <= k < cells.len(),
        cells[k].row == row,
    ensures
        gallery::is_nearest(cells, row, from, i),
{
    let p = |j: int| 0 <= j < cells.len() && cells[j].row == row;
    let far = |j: int| gallery::apart(cells[j], from);
    let i = laws::nearest_exists(cells.len() as int, p, far, k);
    assert forall|x: int| 0 <= x < cells.len() && (#[trigger] cells[x]).row == row implies {
        &&& gallery::apart(cells[i], from) <= gallery::apart(cells[x], from)
        &&& x < i ==> gallery::apart(cells[i], from) < gallery::apart(cells[x], from)
    } by {
        assert(p(x));
    }
    i
}

/// In the game list Left and Right go to the game before and after, and stop at the
/// ends; only the cursor moves, and its game is shown.
pub proof fn the_list_is_walked_sideways(
    pre: State,
    m: Menu,
    keys: Keys,
    f: Facts,
    right: bool,
    post: State,
    m2: Menu,
    r: Reply,
    row: usize,
    scroll: usize,
)
    requires
        library::input_step(
            pre,
            m,
            keys,
            f,
            if right {
                Button::Right
            } else {
                Button::Left
            },
            post,
            m2,
            r,
        ),
        games::reaches(m, f, Button::Left),
        pre.screen == (Screen::List { selection: row, scroll_offset: scroll }),
        pre.entries@.len() <= usize::MAX,
        row < lists::games_before(pre.entries@, pre.local_filter, pre.entries@.len() as int),
    ensures
        post == (State { screen: post.screen, ..pre }),
        r.effect == Effect::Nothing,
        ({
            let n = lists::games_before(pre.entries@, pre.local_filter, pre.entries@.len() as int);
            &&& post.screen matches Screen::List { selection, scroll_offset }
            &&& selection == (if right {
                if row + 1 < n {
                    row + 1
                } else {
                    row as int
                }
            } else {
                if row > 0 {
                    row - 1
                } else {
                    0
                }
            })
            &&& selection < pre.layout.cells@.len() && row < pre.layout.cells@.len() ==> {
                let at = pre.layout.cells@[selection as int].row;
                let shown: int = if pre.settings.home_view % 4 == 1 {
                    13
                } else if pre.settings.home_view % 4 == 0 {
                    3
                } else {
                    1
                };
                scroll_offset <= at < scroll_offset + shown
            }
        }),
{
    lists::shown_games_are_found(pre.entries@, pre.local_filter);
}

/// In a layout of rows of covers Up and Down go to the row above and below, to the
/// cover whose middle is nearest; where there is no such row the cursor stays.
pub proof fn the_list_is_walked_up_and_down(
    pre: State,
    m: Menu,
    keys: Keys,
    f: Facts,
    down: bool,
    post: State,
    m2: Menu,
    r: Reply,
    at: usize,
    scroll: usize,
)
    requires
        library::input_step(
            pre,
            m,
            keys,
            f,
            if down {
                Button::Down
            } else {
                Button::Up
            },
            post,
            m2,
            r,
        ),
        games::reaches(m, f, Button::Up),
        pre.screen == (Screen::List { selection: at, scroll_offset: scroll }),
        pre.settings.home_view % 4 < 2,
        at < pre.layout.cells@.len() <= usize::MAX,
    ensures
        post == (State { screen: post.screen, ..pre }),
        r.effect == Effect::Nothing,
        ({
            let cells = pre.layout.cells@;
            let from = cells[at as int];
            let want = if down {
                from.row + 1
            } else {
                from.row - 1
            };
            &&& post.screen matches Screen::List { selection, .. }
            &&& if want < pre.layout.rows && exists|k: int|
                0 <= k < cells.len() && (#[trigger] cells[k]).row == want {
                &&& selection < cells.len()
                &&& cells[selection as int].row == want
                &&& forall|k: int|
                    0 <= k < cells.len() && (#[trigger] cells[k]).row == want
                        ==> laws::keys::gap(cells[selection as int].cx as int, from.cx as int)
                        <= laws::keys::gap(cells[k].cx as int, from.cx as int)
            } else {
                selection == at
            }
        }),
{
    let cells = pre.layout.cells@;
    let from = cells[at as int];
    let want = if down {
        from.row + 1
    } else {
        from.row - 1
    };
    if exists|k: int| 0 <= k < cells.len() && (#[trigger] cells[k]).row == want {
        let k = choose|k: int| 0 <= k < cells.len() && (#[trigger] cells[k]).row == want;
        let i = tile_exists(cells, want, from, k);
        let c = choose|c: int| gallery::is_nearest(cells, want, from, c);
        assert(gallery::is_nearest(cells, want, from, c));
    }
}

/// In a layout of one row Up goes four games on and Down four back, as far as there
/// are games.
pub proof fn the_strip_is_walked(
    pre: State,
    m: Menu,
    keys: Keys,
    f: Facts,
    up: bool,
    post: State,
    m2: Menu,
    r: Reply,
    at: usize,
    scroll: usize,
)
    requires
        library::input_step(
            pre,
            m,
            keys,
            f,
            if up {
                Button::Up
            } else {
                Button::Down
            },
            post,
            m2,
            r,
        ),
        games::reaches(m, f, Button::Up),
        pre.screen == (Screen::List { selection: at, scroll_offset: scroll }),
        pre.settings.home_view % 4 >= 2,
        pre.entries@.len() <= usize::MAX,
        at < lists::games_before(pre.entries@, pre.local_filter, pre.entries@.len() as int),
    ensures
        post == (State { screen: post.screen, ..pre }),
        r.effect == Effect::Nothing,
        ({
            let n = lists::games_before(pre.entries@, pre.local_filter, pre.entries@.len() as int);
            &&& post.screen matches Screen::List { selection, .. }
            &&& selection < n
            &&& up ==> selection == at + 4 || (selection == n - 1 && selection <= at + 4)
            &&& !up ==> selection == at - 4 || (selection == 0 && at <= 4)
        }),
{
    lists::shown_games_are_found(pre.entries@, pre.local_filter);
}

// ── A game's options ───────────────────────────────────────────────────────

/// The first row of a game's options makes it a favourite, or no longer one; the
/// marks of all other games stay, no game goes, and the options stay those of a game
/// of that file name.
pub proof fn the_favorite_row_flips_one_mark(
    pre: State,
    m: Menu,
    keys: Keys,
    f: Facts,
    post: State,
    m2: Menu,
    r: Reply,
    g: usize,
    name: Seq<char>,
)
    requires
        library::input_step(pre, m, keys, f, Button::A, post, m2, r),
        games::reaches(m, f, Button::A),
        pre.screen == (Screen::OptionsModal { game_idx: g, selection: 0 }),
        g < pre.entries@.len() <= usize::MAX,
    ensures
        r.effect == Effect::SaveFavorites,
        ({
            let base = pre.entries@[g as int].basename@;
            &&& laws::on_list(post.favorites@, name) == (if name == base {
                !laws::on_list(pre.favorites@, name)
            } else {
                laws::on_list(pre.favorites@, name)
            })
            &&& post.entries@.len() == pre.entries@.len()
            &&& post.screen matches Screen::OptionsModal { game_idx, selection }
            &&& selection == 0
            &&& game_idx < post.entries@.len()
            &&& post.entries@[game_idx as int].basename@ == base
        }),
{
    let base = pre.entries@[g as int].basename@;
    let mode = sorting::mode_at(post.sorting.mode as int);
    let e = pre.entries@[g as int];
    assert(library::games_step(pre, Button::A, post, r.effect));
    sorting::sorting_keeps_games(
        pre.entries@,
        post.entries@,
        mode,
        post.sorting.reverse,
        post.playtime@,
        post.favorites@,
        e,
    );
    assert(pre.entries@.contains(e));
    let k = choose|k: int| 0 <= k < post.entries@.len() && post.entries@[k] == e;
    first_named(post.entries@, base, 0, k);
    assert(laws::on_list(post.favorites@, name) == crate::library::state::listed(
        post.favorites@,
        name,
    ));
    assert(laws::on_list(pre.favorites@, name) == crate::library::state::listed(
        pre.favorites@,
        name,
    ));
}

proof fn first_named(
    list: Seq<crate::library::state::Entry>,
    base: Seq<char>,
    from: int,
    k: int,
)
    requires
        0 <= from <= k < list.len(),
        list[k].basename@ == base,
    ensures
        crate::library::buttons::games::game_named(list, base, from) matches Some(i) && from <= i
            < list.len() && list[i].basename@ == base,
    decreases k - from,
{
    if list[from].basename@ != base {
        first_named(list, base, from + 1, k);
    }
}

/// The other rows of a game's options edit its keys, ask for its name, search its
/// cover, and ask whether it is to be deleted, each for that game.
pub proof fn the_option_rows_are_for_the_game(
    pre: State,
    m: Menu,
    keys: Keys,
    f: Facts,
    post: State,
    m2: Menu,
    r: Reply,
    g: usize,
    row: usize,
)
    requires
        library::input_step(pre, m, keys, f, Button::A, post, m2, r),
        games::reaches(m, f, Button::A),
        pre.screen == (Screen::OptionsModal { game_idx: g, selection: row }),
        1 <= row <= 4,
    ensures
        post == (State { screen: post.screen, ..pre }),
        row == 1 ==> r.effect == (Effect::EnterTouches { game_idx: g, selection: 0 }),
        row == 2 ==> r.effect == (Effect::Rename { game_idx: g }),
        row == 3 ==> r.effect == (Effect::SearchCover { game_idx: g }),
        row == 4 ==> post.screen == (Screen::DeleteConfirm { game_idx: g }) && r.effect
            == Effect::Nothing,
{
}

/// Where a game is to be deleted A does it once the panel has closed, and everything
/// but A leaves all games in place.
pub proof fn only_a_confirmed_game_is_deleted(
    pre: State,
    m: Menu,
    keys: Keys,
    f: Facts,
    b: Button,
    post: State,
    m2: Menu,
    r: Reply,
    g: usize,
)
    requires
        library::input_step(pre, m, keys, f, b, post, m2, r),
        games::reaches(m, f, b),
        pre.screen == (Screen::DeleteConfirm { game_idx: g }),
        pre.pending_close is None,
    ensures
        post.entries == pre.entries && post.favorites == pre.favorites,
        (post.pending_close == Some(PendingClose::DeleteGame { game_idx: g })) == (b == Button::A),
        b != Button::A ==> post.pending_close is None,
        b == Button::B || b == Button::Minus ==> post.screen == (Screen::OptionsModal {
            game_idx: g,
            selection: 0,
        }),
{
}

/// Deleting a game takes that game out of the list and leaves the others in their
/// order; it takes its mark with it and no other.
pub proof fn deleting_takes_one_game(
    pre: State,
    m: Menu,
    post: State,
    m2: Menu,
    r: frame::Closed,
    g: usize,
    name: Seq<char>,
)
    requires
        frame::closed_step(pre, m, post, m2, r),
        pre.pending_close == Some(PendingClose::DeleteGame { game_idx: g }),
        g < pre.entries@.len(),
    ensures
        post.entries@.len() == pre.entries@.len() - 1,
        forall|i: int| 0 <= i < g ==> #[trigger] post.entries@[i] == pre.entries@[i],
        forall|i: int| g <= i < post.entries@.len() ==> #[trigger] post.entries@[i] == pre.entries@[i + 1],
        laws::on_list(post.favorites@, name) == (laws::on_list(pre.favorites@, name) && name
            != pre.entries@[g as int].basename@),
        post.pending_close is None,
        post.download == pre.download && post.history == pre.history && post.settings
            == pre.settings,
        post.entries@.len() == 0 ==> post.screen == Screen::Empty,
        post.entries@.len() > 0 ==> (post.screen matches Screen::List { selection, .. } && selection
            == (if g < post.entries@.len() {
            g as int
        } else {
            g - 1
        })) && post.local_filter is None,
{
    let taken = State { pending_close: None, ..pre };
    let gone = choose|gone: State| #[trigger]
        crate::library::buttons::games::game_deleted(taken, g as int, gone) && post
            == frame::after_delete(gone, g as int) && r.reset_gallery == (gone.entries@.len() > 0);
    let base = pre.entries@[g as int].basename@;
    crate::library::buttons::games::only_the_name_goes(pre.favorites@, base, name);
    assert(laws::on_list(post.favorites@, name) == crate::library::state::listed(
        post.favorites@,
        name,
    ));
    assert(laws::on_list(pre.favorites@, name) == crate::library::state::listed(
        pre.favorites@,
        name,
    ));
}

// ── Orders ─────────────────────────────────────────────────────────────────

/// The order of a row in the panel of orders.
pub open spec fn order_in_row(row: int) -> SortMode {
    if row == 1 {
        SortMode::Recent
    } else if row == 2 {
        SortMode::RecentlyPlayed
    } else if row == 3 {
        SortMode::MostPlayed
    } else if row == 4 {
        SortMode::Size
    } else {
        SortMode::Alpha
    }
}

/// A on a row of the orders puts the games in that order, keeping its direction; X
/// turns the direction round. Both are kept. B changes nothing.
pub proof fn the_chosen_order_is_taken(
    pre: State,
    m: Menu,
    keys: Keys,
    f: Facts,
    b: Button,
    post: State,
    m2: Menu,
    r: Reply,
    row: usize,
    prev_sel: usize,
    prev_scroll: usize,
)
    requires
        library::input_step(pre, m, keys, f, b, post, m2, r),
        games::reaches(m, f, b),
        pre.screen == (Screen::SortModal { selection: row, prev_sel, prev_scroll }),
        row < 5,
        pre.sorting.mode < 5,
    ensures
        b == Button::A ==> {
            &&& sorting::is_sorted(
                pre.entries@,
                post.entries@,
                order_in_row(row as int),
                pre.sorting.reverse,
                pre.playtime@,
                pre.favorites@,
            )
            &&& post.sorting.mode == row && post.sorting.reverse == pre.sorting.reverse
            &&& r.effect == Effect::SaveSort
        },
        b == Button::X ==> {
            &&& sorting::is_sorted(
                pre.entries@,
                post.entries@,
                order_in_row(pre.sorting.mode as int),
                !pre.sorting.reverse,
                pre.playtime@,
                pre.favorites@,
            )
            &&& post.sorting.mode == pre.sorting.mode && post.sorting.reverse
                == !pre.sorting.reverse
            &&& r.effect == Effect::SaveSort
        },
        b != Button::A && b != Button::X ==> post.entries == pre.entries && post.sorting
            == pre.sorting && r.effect == Effect::Nothing,
        post.favorites == pre.favorites && post.playtime == pre.playtime,
{
}

/// A on a row of an import list's orders takes that order: an item's files by name or
/// by size, the games of the gallery by title, the saved URLs as the row says.
pub proof fn the_chosen_import_order_is_taken(
    pre: State,
    m: Menu,
    keys: Keys,
    f: Facts,
    post: State,
    m2: Menu,
    r: Reply,
    row: usize,
    kind: u8,
    reverse: bool,
    prev_sel: usize,
    prev_scroll: usize,
)
    requires
        library::input_step(pre, m, keys, f, Button::A, post, m2, r),
        games::reaches(m, f, Button::A),
        pre.screen == (Screen::RemoteSortModal {
            selection: row,
            kind,
            reverse,
            prev_sel,
            prev_scroll,
        }),
        kind <= 2,
        row < 4,
    ensures
        kind == 0 ==> files::files_sorted(
            pre.remote.files@,
            post.remote.files@,
            row == 1,
            reverse,
        ),
        kind == 1 ==> files::titles_sorted(
            pre.covers.candidates@,
            post.covers.candidates@,
            reverse,
        ),
        kind == 2 ==> post.sorting.import_mode == row && post.sorting.import_reverse == reverse,
        kind != 0 ==> post.remote == pre.remote,
        kind != 1 ==> post.covers == pre.covers,
        kind != 2 ==> post.sorting == pre.sorting,
        post.entries == pre.entries && post.history == pre.history,
{
}

// ── Settings ───────────────────────────────────────────────────────────────

/// A on the settings tab steps the layout of the home tab round its four, opens the
/// defaults, the languages and the reports, asks for a proposal and for the nickname,
/// and ends the program, row by row; nothing else changes.
pub proof fn the_settings_rows(
    pre: State,
    m: Menu,
    keys: Keys,
    f: Facts,
    post: State,
    m2: Menu,
    r: Reply,
    row: usize,
)
    requires
        library::input_step(pre, m, keys, f, Button::A, post, m2, r),
        games::reaches(m, f, Button::A),
        pre.screen == (Screen::SettingsModal { selection: row }),
        row < 7,
        pre.settings.home_view < 4,
    ensures
        post.entries == pre.entries && post.history == pre.history && post.download
            == pre.download && post.sorting == pre.sorting,
        row != 0 ==> post.settings == pre.settings,
        row == 0 ==> {
            &&& post.settings.lang == pre.settings.lang
            &&& post.settings.display_mode == pre.settings.display_mode
            &&& post.settings.screen_filter == pre.settings.screen_filter
            &&& post.settings.home_view == (if pre.settings.home_view == 3 {
                0
            } else {
                pre.settings.home_view + 1
            })
            &&& r.effect == Effect::SaveHomeView
            &&& post.screen == pre.screen
        },
        row == 1 ==> post.screen is SettingsPrefsModal,
        row == 2 ==> post.screen is SettingsLanguagePicker,
        row == 3 ==> if pre.entries@.len() == 0 {
            post.screen == Screen::BugResult && !post.bug_ok
        } else {
            post.screen is BugPicker
        },
        row == 4 ==> r.effect == Effect::Suggest && post == pre,
        row == 5 ==> r.effect == Effect::SetPseudo && post == pre,
        row == 6 ==> post.screen == Screen::Quit,
        row != 0 && row != 4 && row != 5 ==> r.effect == Effect::Nothing,
{
}

/// A on the defaults edits the default keys, and steps the display mode and the screen
/// filter round their three and the cursor speed on, row by row.
pub proof fn the_default_rows(
    pre: State,
    m: Menu,
    keys: Keys,
    f: Facts,
    post: State,
    m2: Menu,
    r: Reply,
    row: usize,
)
    requires
        library::input_step(pre, m, keys, f, Button::A, post, m2, r),
        games::reaches(m, f, Button::A),
        pre.screen == (Screen::SettingsPrefsModal { selection: row }),
        row < 4,
        pre.settings.display_mode < 3,
        pre.settings.screen_filter < 3,
    ensures
        post.entries == pre.entries,
        post.settings.lang == pre.settings.lang,
        post.settings.home_view == pre.settings.home_view,
        post.settings.display_mode == (if row != 1 {
            pre.settings.display_mode as int
        } else if pre.settings.display_mode == 2 {
            0
        } else {
            pre.settings.display_mode + 1
        }),
        post.settings.screen_filter == (if row != 2 {
            pre.settings.screen_filter as int
        } else if pre.settings.screen_filter == 2 {
            0
        } else {
            pre.settings.screen_filter + 1
        }),
        row == 0 ==> r.effect == Effect::EditDefaultKeys && post.screen
            == Screen::SettingsKeymapEditor,
        row == 1 || row == 2 ==> r.effect == Effect::SaveSettings && post.screen == pre.screen,
        row == 3 ==> r.effect == Effect::CycleCursorSpeed && post == pre,
{
}

/// The key menu of a game edits its keys, looks for profiles, shares, steps its cursor
/// speed round the eight, shows or hides its cursor, and offers to revert, row by row
/// and for that game. Requests of the network wait for their panel.
pub proof fn the_key_menu_rows(
    pre: State,
    m: Menu,
    keys: Keys,
    f: Facts,
    post: State,
    m2: Menu,
    r: Reply,
    g: usize,
    row: usize,
)
    requires
        library::input_step(pre, m, keys, f, Button::A, post, m2, r),
        games::reaches(m, f, Button::A),
        pre.screen == (Screen::TouchesMenu { game_idx: g, selection: row }),
        g < pre.entries@.len(),
        row < 6,
        -1 <= pre.touches.cursor_idx < 8,
    ensures
        post.entries == pre.entries && post.settings == pre.settings,
        row == 0 ==> r.effect == (Effect::EditKeys { game_idx: g }) && post.screen == (
        Screen::TouchesEditor { game_idx: g }),
        row == 1 ==> post.pending_net == Some((PendingNet::OpenProfiles { game_idx: g }, false))
            && post.screen == Screen::ProfileLoading,
        row == 2 && f.from_catalog ==> r.effect == (Effect::OpenShareConfirm { game_idx: g })
            && post == pre,
        row == 2 && !f.from_catalog ==> post.pending_net == Some(
            (PendingNet::OpenShareConfirm { game_idx: g }, false),
        ) && post.screen == Screen::ProfileLoading,
        row == 3 ==> {
            let next: int = if pre.touches.cursor_idx == -1 {
                2
            } else if pre.touches.cursor_idx == 7 {
                0
            } else {
                pre.touches.cursor_idx + 1
            };
            post.touches.cursor_idx == next && r.effect == (Effect::SetCursorSpeed {
                game_idx: g,
                speed: next as i32,
            })
        },
        row != 3 ==> post.touches.cursor_idx == pre.touches.cursor_idx,
        post.touches.show_cursor == (pre.touches.show_cursor != (row == 4)),
        row == 4 ==> r.effect == (Effect::ToggleShowCursor { game_idx: g }),
        row == 5 ==> r.effect == (Effect::OpenRevertPreview { game_idx: g }) && post == pre,
{
}

// ── Going back ─────────────────────────────────────────────────────────────

/// Where B leads from a panel or a notice.
pub open spec fn behind(s: State) -> Option<Screen> {
    match s.screen {
        Screen::SettingsPrefsModal { .. } => Some(Screen::SettingsModal { selection: 1 }),
        Screen::SettingsLanguagePicker { .. } => Some(Screen::SettingsModal { selection: 2 }),
        Screen::BugPicker { .. } => Some(Screen::SettingsModal { selection: 3 }),
        Screen::BugResult => Some(Screen::SettingsModal { selection: 3 }),
        Screen::TouchesMenu { game_idx, .. } => Some(
            Screen::OptionsModal { game_idx, selection: 1 },
        ),
        Screen::CoverPicker { game_idx, .. } => Some(
            Screen::OptionsModal { game_idx, selection: 3 },
        ),
        Screen::ProfilePreview { game_idx, profile_idx } => Some(
            Screen::ProfileList { game_idx, selection: profile_idx },
        ),
        Screen::ProfileDeleteConfirm { game_idx, profile_idx } => Some(
            Screen::ProfileList { game_idx, selection: profile_idx },
        ),
        Screen::FpDetails { selection, scroll, .. } => Some(
            Screen::FpGallery { selection, scroll },
        ),
        Screen::SortModal { prev_sel, prev_scroll, .. } => Some(
            Screen::List { selection: prev_sel, scroll_offset: prev_scroll },
        ),
        Screen::AppletNotice { selection, scroll_offset } => Some(
            Screen::List { selection, scroll_offset },
        ),
        _ => None,
    }
}

/// B leads back to where the panel was opened from, at once or when the panel has
/// closed, and changes no game, no order and no setting.
pub proof fn b_leads_back(
    pre: State,
    m: Menu,
    keys: Keys,
    f: Facts,
    post: State,
    m2: Menu,
    r: Reply,
)
    requires
        library::input_step(pre, m, keys, f, Button::B, post, m2, r),
        games::reaches(m, f, Button::B),
        behind(pre) is Some,
    ensures
        if r.closing {
            post.pending_close == Some(PendingClose::Goto(behind(pre)->0)) && post.screen
                == pre.screen
        } else {
            post.screen == behind(pre)->0 && post.pending_close == pre.pending_close
        },
        post.entries == pre.entries && post.favorites == pre.favorites && post.sorting
            == pre.sorting && post.settings == pre.settings && post.history == pre.history,
{
}

// ── Tabs ───────────────────────────────────────────────────────────────────

/// R leads from the games to the imports, from there to the settings and from there to
/// the games; L the other way. Only the screen changes.
pub proof fn the_shoulder_buttons_switch_tabs(
    pre: State,
    m: Menu,
    keys: Keys,
    f: Facts,
    right: bool,
    post: State,
    m2: Menu,
    r: Reply,
)
    requires
        library::input_step(
            pre,
            m,
            keys,
            f,
            if right {
                Button::R
            } else {
                Button::L
            },
            post,
            m2,
            r,
        ),
        !f.busy,
        m.screen == menu::Screen::Inactive,
    ensures
        pre.screen is List || pre.screen is Empty ==> if right {
            post.screen is DistantIdle
        } else {
            post.screen == (Screen::SettingsModal { selection: 0 })
        },
        pre.screen is DistantIdle ==> if right {
            post.screen == (Screen::SettingsModal { selection: 0 })
        } else {
            post.screen == (if pre.entries@.len() == 0 {
                Screen::Empty
            } else {
                Screen::List { selection: 0, scroll_offset: 0 }
            })
        },
        pre.screen is SettingsModal ==> if right {
            post.screen == (if pre.entries@.len() == 0 {
                Screen::Empty
            } else {
                Screen::List { selection: 0, scroll_offset: 0 }
            })
        } else {
            post.screen is DistantIdle
        },
        pre.screen is List || pre.screen is Empty || pre.screen is DistantIdle || pre.screen
            is SettingsModal ==> post == (State { screen: post.screen, ..pre }) && r.consumed
            && r.effect == (Effect::SlideTab { left: !right }),
{
}

/// While something moves on the screen no button does anything.
pub proof fn nothing_happens_while_something_moves(
    pre: State,
    m: Menu,
    keys: Keys,
    f: Facts,
    b: Button,
    post: State,
    m2: Menu,
    r: Reply,
)
    requires
        library::input_step(pre, m, keys, f, b, post, m2, r),
        f.busy,
    ensures
        post == pre && m2 == m && r.consumed && r.effect == Effect::Nothing && !r.closing,
{
}

} // verus!
