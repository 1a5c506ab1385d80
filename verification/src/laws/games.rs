//! The game list: its order, and what the buttons do in it.

use crate::laws;
use crate::laws::lists;
use crate::library;
use crate::library::order;
use crate::library::screen::{Button, Effect, Screen};
use crate::library::sorting;
use crate::library::sorting::SortMode;
use crate::library::state::{Entry, State};
use crate::library::{Facts, Reply};
use crate::menu;
use crate::menu::pad::Keys;
use crate::menu::Menu;
use crate::playtime::Row;
use crate::text;
use vstd::prelude::*;

verus! {

/// The button reaches the screen: nothing moves and the key editor is closed.
pub open spec fn reaches(m: Menu, f: Facts, b: Button) -> bool {
    !f.busy && m.screen == menu::Screen::Inactive && b != Button::L && b != Button::R
}

/// A in the game list launches the game under the cursor: the one that the search
/// leaves in that row. Where there is too little memory a notice says so; on no game
/// nothing happens.
pub proof fn the_game_under_the_cursor_is_launched(
    pre: State,
    m: Menu,
    keys: Keys,
    f: Facts,
    post: State,
    m2: Menu,
    r: Reply,
    row: usize,
    scroll: usize,
)
    requires
        library::input_step(pre, m, keys, f, Button::A, post, m2, r),
        reaches(m, f, Button::A),
        pre.screen == (Screen::List { selection: row, scroll_offset: scroll }),
        pre.entries@.len() <= usize::MAX,
    ensures
        ({
            let list = pre.entries@;
            let n = lists::games_before(list, pre.local_filter, list.len() as int);
            if row >= n {
                post == pre && r.effect == Effect::Nothing
            } else if pre.applet_mode {
                post.screen is AppletNotice && post.selected_path == pre.selected_path
                    && post.session == pre.session && r.effect == Effect::Nothing
            } else {
                &&& r.effect matches Effect::Launch { game_idx }
                &&& game_idx < list.len()
                &&& lists::game_found(list[game_idx as int], pre.local_filter)
                &&& lists::games_before(list, pre.local_filter, game_idx as int) == row
                &&& (post.selected_path matches Some(p) && p@ == list[game_idx as int].path@)
                &&& (post.session.last_played matches Some(l) && l.0@
                    == list[game_idx as int].basename@ && l.1@
                    == list[game_idx as int].display_name@)
                &&& post.screen == (Screen::Launching { selection: row, scroll_offset: scroll })
                &&& post.entries == pre.entries
            }
        }),
{
    lists::shown_games_are_found(pre.entries@, pre.local_filter);
}

/// Plus in the game list opens the options of the game under the cursor.
pub proof fn the_options_are_those_of_the_game_under_the_cursor(
    pre: State,
    m: Menu,
    keys: Keys,
    f: Facts,
    post: State,
    m2: Menu,
    r: Reply,
    row: usize,
    scroll: usize,
)
    requires
        library::input_step(pre, m, keys, f, Button::Plus, post, m2, r),
        reaches(m, f, Button::Plus),
        pre.screen == (Screen::List { selection: row, scroll_offset: scroll }),
        pre.entries@.len() <= usize::MAX,
    ensures
        ({
            let list = pre.entries@;
            let n = lists::games_before(list, pre.local_filter, list.len() as int);
            &&& r.effect == Effect::Nothing
            &&& if row >= n {
                post == pre
            } else {
                &&& post.screen matches Screen::OptionsModal { game_idx, selection }
                &&& selection == 0
                &&& game_idx < list.len()
                &&& lists::game_found(list[game_idx as int], pre.local_filter)
                &&& lists::games_before(list, pre.local_filter, game_idx as int) == row
                &&& post == (State { screen: post.screen, ..pre })
            }
        }),
{
    lists::shown_games_are_found(pre.entries@, pre.local_filter);
}

// ── The order ──────────────────────────────────────────────────────────────

pub(crate) proof fn text_order(a: Seq<char>, b: Seq<char>)
    ensures
        order::text_before(a, b) == laws::comes_first(a, b),
    decreases a.len(),
{
    if a.len() == 0 {
        if b.len() > 0 {
            assert(a.take(0) =~= b.take(0));
        }
    } else if b.len() > 0 {
        let (c, d) = (a.drop_first(), b.drop_first());
        text_order(c, d);
        if a[0] == b[0] {
            if laws::comes_first(c, d) {
                let k = choose|k: int|
                    #![trigger c.take(k)]
                    0 <= k <= c.len() && k < d.len() && c.take(k) == d.take(k) && (k == c.len()
                        || c[k] < d[k]);
                assert(a.take(k + 1) =~= seq![a[0]] + c.take(k));
                assert(b.take(k + 1) =~= seq![b[0]] + d.take(k));
                assert(a.take(k + 1) == b.take(k + 1));
            }
            if laws::comes_first(a, b) {
                let k = choose|k: int|
                    #![trigger a.take(k)]
                    0 <= k <= a.len() && k < b.len() && a.take(k) == b.take(k) && (k == a.len()
                        || a[k] < b[k]);
                assert(k > 0);
                assert(c.take(k - 1) =~= a.take(k).drop_first());
                assert(d.take(k - 1) =~= b.take(k).drop_first());
                assert(c.take(k - 1) == d.take(k - 1));
            }
        } else {
            if laws::comes_first(a, b) {
                let k = choose|k: int|
                    #![trigger a.take(k)]
                    0 <= k <= a.len() && k < b.len() && a.take(k) == b.take(k) && (k == a.len()
                        || a[k] < b[k]);
                if k > 0 {
                    assert(a.take(k)[0] == a[0] && b.take(k)[0] == b[0]);
                }
            }
            if a[0] < b[0] {
                assert(a.take(0) =~= b.take(0));
            }
        }
    }
}

/// The seconds and the last time that a table has for a game: those of the first row
/// of its name, or none.
pub open spec fn played(rows: Seq<Row>, name: Seq<char>, s: u64, l: u64) -> bool {
    ||| exists|i: int|
        {
            &&& 0 <= i < rows.len()
            &&& #[trigger] rows[i] == (name, s, l)
            &&& forall|j: int| 0 <= j < i ==> (#[trigger] rows[j]).0 != name
        }
    ||| s == 0 && l == 0 && forall|j: int| 0 <= j < rows.len() ==> (#[trigger] rows[j]).0 != name
}

/// What a game is ordered by before its name: when it came to the card, when it was
/// played last, how long it was played, or how large it is; in the order of the
/// names nothing.
pub open spec fn measures(rows: Seq<Row>, mode: SortMode, e: Entry, v: int) -> bool {
    match mode {
        SortMode::Alpha => v == 0,
        SortMode::Recent => v == e.mtime,
        SortMode::RecentlyPlayed => exists|s: u64, l: u64| #[trigger]
            played(rows, e.basename@, s, l) && v == l,
        SortMode::MostPlayed => exists|s: u64, l: u64| #[trigger]
            played(rows, e.basename@, s, l) && v == s,
        SortMode::Size => v == e.size_bytes,
    }
}

/// Game `a`, which stood at `x`, goes before game `b`, which stood at `y`: it has the
/// greater measure; or as great a one, and the name that comes first in lower case;
/// or the same name too, and stood first.
pub open spec fn goes_before(
    rows: Seq<Row>,
    mode: SortMode,
    a: Entry,
    x: int,
    b: Entry,
    y: int,
) -> bool {
    exists|v: int, w: int|
        {
            let (p, q) = (text::lowercase(a.display_name@), text::lowercase(b.display_name@));
            &&& #[trigger] measures(rows, mode, a, v)
            &&& #[trigger] measures(rows, mode, b, w)
            &&& v > w || (v == w && (laws::comes_first(p, q) || (p == q && x < y)))
        }
}

pub(crate) proof fn lookup_is_played(rows: Seq<Row>, name: Seq<char>)
    ensures
        played(
            rows,
            name,
            crate::playtime::seconds(rows, name),
            crate::playtime::last(rows, name),
        ),
    decreases rows.len(),
{
    if rows.len() > 0 && rows[0].0 != name {
        let t = rows.drop_first();
        lookup_is_played(t, name);
        let (s, l) = (crate::playtime::seconds(rows, name), crate::playtime::last(rows, name));
        if exists|i: int|
            {
                &&& 0 <= i < t.len()
                &&& #[trigger] t[i] == (name, s, l)
                &&& forall|j: int| 0 <= j < i ==> (#[trigger] t[j]).0 != name
            } {
            let i = choose|i: int|
                {
                    &&& 0 <= i < t.len()
                    &&& #[trigger] t[i] == (name, s, l)
                    &&& forall|j: int| 0 <= j < i ==> (#[trigger] t[j]).0 != name
                };
            assert(rows[i + 1] == (name, s, l));
            assert forall|j: int| 0 <= j < i + 1 implies (#[trigger] rows[j]).0 != name by {
                if j > 0 {
                    assert(t[j - 1] == rows[j]);
                }
            }
        } else {
            assert forall|j: int| 0 <= j < rows.len() implies (#[trigger] rows[j]).0 != name by {
                if j > 0 {
                    assert(t[j - 1] == rows[j]);
                }
            }
        }
    } else if rows.len() > 0 {
        assert(rows[0] == (name, rows[0].1, rows[0].2));
    }
}

/// A table has one answer for a game.
pub proof fn played_is_one(rows: Seq<Row>, name: Seq<char>, s: u64, l: u64, s2: u64, l2: u64)
    requires
        played(rows, name, s, l),
        played(rows, name, s2, l2),
    ensures
        s == s2 && l == l2,
{
}

proof fn measure_is(rows: Seq<Row>, mode: SortMode, e: Entry)
    ensures
        measures(rows, mode, e, u64::MAX - sorting::entry_key(e, mode, rows).num) || mode
            == SortMode::Alpha,
        mode == SortMode::Alpha ==> measures(rows, mode, e, 0) && sorting::entry_key(
            e,
            mode,
            rows,
        ).num == 0,
{
    lookup_is_played(rows, e.basename@);
}

/// The game list stands in its order, whichever it is: favourites first; among
/// favourites, and among the others, one game before another as `goes_before` says,
/// or against it where the order is reversed. `o` says where each game stood.
pub proof fn games_stand_in_order(
    before: Seq<Entry>,
    after: Seq<Entry>,
    mode: SortMode,
    reverse: bool,
    rows: Seq<Row>,
    favorites: Seq<String>,
) -> (o: Seq<usize>)
    requires
        sorting::is_sorted(before, after, mode, reverse, rows, favorites),
    ensures
        o.len() == after.len() == before.len(),
        forall|i: int| 0 <= i < o.len() ==> #[trigger] o[i] < before.len() && after[i] == before[o[i] as int],
        forall|i: int, j: int| 0 <= i < j < o.len() ==> #[trigger] o[i] != #[trigger] o[j],
        forall|i: int, j: int|
            #![trigger o[i], o[j]]
            0 <= i < j < o.len() ==> {
                let (a, b) = (after[i], after[j]);
                let (fa, fb) = (
                    laws::on_list(favorites, a.basename@),
                    laws::on_list(favorites, b.basename@),
                );
                &&& fb ==> fa
                &&& fa == fb && !reverse ==> goes_before(rows, mode, a, o[i] as int, b, o[j] as int)
                &&& fa == fb && reverse ==> goes_before(rows, mode, b, o[j] as int, a, o[i] as int)
            },
{
    let keys = sorting::entry_keys(before, mode, rows);
    let pins = sorting::favored(before, favorites);
    let o = choose|o: Seq<usize>| #[trigger]
        order::is_order(keys, reverse, pins, o) && after == order::arranged(before, o);
    assert forall|i: int| 0 <= i < o.len() implies #[trigger] o[i] < before.len() && after[i]
        == before[o[i] as int] by {}
    assert forall|i: int, j: int|
        #![trigger o[i], o[j]]
        0 <= i < j < o.len() implies {
        let (a, b) = (after[i], after[j]);
        let (fa, fb) = (
            laws::on_list(favorites, a.basename@),
            laws::on_list(favorites, b.basename@),
        );
        &&& fb ==> fa
        &&& fa == fb && !reverse ==> goes_before(rows, mode, a, o[i] as int, b, o[j] as int)
        &&& fa == fb && reverse ==> goes_before(rows, mode, b, o[j] as int, a, o[i] as int)
    } by {
        let (x, y) = (o[i] as int, o[j] as int);
        let (a, b) = (before[x], before[y]);
        assert(order::row_before(keys, reverse, pins, x, y));
        assert(pins[x] == laws::on_list(favorites, a.basename@));
        assert(pins[y] == laws::on_list(favorites, b.basename@));
        let (p, q) = (text::lowercase(a.display_name@), text::lowercase(b.display_name@));
        text_order(p, q);
        text_order(q, p);
        order::before_is_strict(Seq::empty());
        measure_is(rows, mode, a);
        measure_is(rows, mode, b);
        let (v, w) = if mode == SortMode::Alpha {
            (0int, 0int)
        } else {
            (u64::MAX - keys[x].num, u64::MAX - keys[y].num)
        };
        assert(measures(rows, mode, a, v) && measures(rows, mode, b, w));
        assert(keys[x].num == keys[y].num && p == q ==> keys[x] == keys[y]);
    }
    o
}

/// In the order of the names, of two games of which both or neither is a favourite
/// the one whose lower-case name comes first stands first.
pub proof fn names_stand_in_order(
    before: Seq<Entry>,
    after: Seq<Entry>,
    rows: Seq<Row>,
    favorites: Seq<String>,
    i: int,
    j: int,
)
    requires
        sorting::is_sorted(before, after, SortMode::Alpha, false, rows, favorites),
        0 <= i < after.len(),
        0 <= j < after.len(),
        laws::on_list(favorites, after[i].basename@) == laws::on_list(
            favorites,
            after[j].basename@,
        ),
        laws::comes_first(
            text::lowercase(after[i].display_name@),
            text::lowercase(after[j].display_name@),
        ),
    ensures
        i < j,
{
    let o = games_stand_in_order(before, after, SortMode::Alpha, false, rows, favorites);
    let (p, q) = (
        text::lowercase(after[i].display_name@),
        text::lowercase(after[j].display_name@),
    );
    text_order(p, q);
    text_order(q, p);
    order::before_is_strict(p);
    if i == j {
        assert(false);
    } else if j < i {
        assert(o[j] != o[i]);
        assert(goes_before(rows, SortMode::Alpha, after[j], o[j] as int, after[i], o[i] as int));
        order::key_before_strict(order::text_key(p));
        order::row_before_total(
            seq![order::text_key(p), order::text_key(q)],
            false,
            seq![false, false],
            0,
            1,
        );
        assert(order::text_before(q, p) || p == q);
    }
}

// ── Names ──────────────────────────────────────────────────────────────────

/// A new name is shown for the game that it was typed for and no other, without the
/// blanks round it; a blank one gives the game the name of its file. Nothing else of
/// any game changes, and nothing where the name could not be kept.
pub proof fn one_game_is_renamed(
    pre: State,
    g: int,
    typed: Seq<char>,
    persisted: bool,
    post: State,
    i: int,
)
    requires
        library::buttons::games::name_changed(pre, g, typed, persisted, post),
        0 <= g < pre.entries@.len(),
        0 <= i < pre.entries@.len(),
    ensures
        post.entries@.len() == pre.entries@.len(),
        !persisted || i != g ==> post.entries@[i] == pre.entries@[i],
        persisted ==> {
            let (x, y) = (post.entries@[g], pre.entries@[g]);
            &&& x == (Entry { display_name: x.display_name, ..y })
            &&& text::trimmed(typed).len() > 0 ==> x.display_name@ == text::trimmed(typed)
            &&& text::trimmed(typed).len() == 0 ==> x.display_name@ == y.basename@
        },
        post.favorites == pre.favorites && post.screen == pre.screen,
{
}

} // verus!
