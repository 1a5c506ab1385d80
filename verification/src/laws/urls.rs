//! The saved URLs: how they are kept, and how their list stands.

use crate::laws;
use crate::laws::games;
use crate::laws::lists;
use crate::library;
use crate::library::filters;
use crate::library::history;
use crate::library::history::{Row, Saves};
use crate::library::importer;
use crate::library::names;
use crate::library::order;
use crate::library::screen::{Button, Effect, Screen};
use crate::library::state::{Entry, History, Sorting, State};
use crate::library::{Facts, Reply};
use crate::menu::pad::Keys;
use crate::menu::Menu;
use crate::net;
use crate::text;
use vstd::prelude::*;

verus! {

// ── Saving and removing ────────────────────────────────────────────────────

/// A URL that is imported is in the list afterwards, without blanks round it, and the
/// cursor is on it. One that was there stays where it was, and so do all others. A new
/// one is the last; all others stand before it as they stood, but for the oldest where
/// five hundred were there.
pub proof fn an_imported_url_is_saved(pre: History, url: Seq<char>, now: u64, post: History, r: Saves)
    requires
        history::pushed(pre, url, now, post, r),
        pre.urls@.len() <= 500,
        text::trimmed(url).len() > 0,
    ensures
        ({
            let u = text::trimmed(url);
            let (a, b) = (pre.urls@, post.urls@);
            &&& post.index matches Some(k) && k < b.len() && b[k as int]@ == u
            &&& if laws::on_list(a, u) {
                b == a && post.meta == pre.meta
            } else {
                let gone: int = if a.len() == 500 {
                    1
                } else {
                    0
                };
                &&& b.len() == a.len() + 1 - gone
                &&& b[b.len() - 1]@ == u
                &&& forall|i: int| 0 <= i < b.len() - 1 ==> (#[trigger] b[i])@ == a[i + gone]@
            }
        }),
{
    let u = text::trimmed(url);
    let t = text::texts(pre.urls@);
    let w = text::texts(post.urls@);
    if laws::on_list(pre.urls@, u) {
        let i = choose|i: int| 0 <= i < pre.urls@.len() && (#[trigger] pre.urls@[i])@ == u;
        assert(t[i] == u);
        let k = first_place(t, u, 0, i);
        history::place_in_is(t, u, 0, k);
        assert(pre.urls@[k]@ == t[k]);
    } else {
        assert forall|k: int| 0 <= k < t.len() implies t[k] != u by {
            assert(pre.urls@[k]@ == t[k]);
        }
        history::place_in_none(t, u, 0);
        assert(w == history::with_url(t, u));
        assert forall|i: int| 0 <= i < post.urls@.len() implies (#[trigger] post.urls@[i])@ == w[i] by {}
        assert forall|i: int| 0 <= i < t.len() implies t[i] == (#[trigger] pre.urls@[i])@ by {}
    }
}

proof fn first_place(t: Seq<Seq<char>>, u: Seq<char>, from: int, i: int) -> (k: int)
    requires
        0 <= from <= i < t.len(),
        t[i] == u,
    ensures
        from <= k <= i,
        t[k] == u,
        forall|j: int| from <= j < k ==> t[j] != u,
    decreases i - from,
{
    if t[from] == u {
        from
    } else {
        first_place(t, u, from + 1, i)
    }
}

/// Removing takes the URL under the cursor and no other, and leaves the others in
/// their order.
pub proof fn the_chosen_url_is_removed(pre: History, post: History, r: Option<String>, k: usize)
    requires
        history::removed(pre, post, r),
        pre.index == Some(k),
        k < pre.urls@.len(),
    ensures
        post.urls@.len() == pre.urls@.len() - 1,
        forall|i: int| 0 <= i < k ==> #[trigger] post.urls@[i] == pre.urls@[i],
        forall|i: int| k <= i < post.urls@.len() ==> #[trigger] post.urls@[i] == pre.urls@[i + 1],
        post.index matches Some(i) ==> i < post.urls@.len(),
        post.index is None <==> post.urls@.len() == 0,
{
}

// ── The list ───────────────────────────────────────────────────────────────

/// The URL is a favourite: its row, the first of it, is marked.
pub open spec fn marked(rows: Seq<Row>, url: Seq<char>) -> bool {
    exists|i: int|
        {
            &&& 0 <= i < rows.len()
            &&& (#[trigger] rows[i]).0 == url
            &&& rows[i].3
            &&& forall|j: int| 0 <= j < i ==> (#[trigger] rows[j]).0 != url
        }
}

proof fn row_is_first(rows: Seq<Row>, url: Seq<char>, from: int)
    requires
        0 <= from <= rows.len(),
        forall|j: int| 0 <= j < from ==> (#[trigger] rows[j]).0 != url,
    ensures
        match history::row_of(rows, url, from) {
            Some(i) => from <= i < rows.len() && rows[i].0 == url && forall|j: int|
                0 <= j < i ==> (#[trigger] rows[j]).0 != url,
            None => forall|j: int| 0 <= j < rows.len() ==> (#[trigger] rows[j]).0 != url,
        },
    decreases rows.len() - from,
{
    if from < rows.len() && rows[from].0 != url {
        row_is_first(rows, url, from + 1);
    }
}

pub(crate) proof fn favored_is_marked(rows: Seq<Row>, url: Seq<char>)
    ensures
        history::favored(rows, url) == marked(rows, url),
{
    row_is_first(rows, url, 0);
    match history::row_of(rows, url, 0) {
        Some(i) => {
            if marked(rows, url) {
                let k = choose|k: int|
                    {
                        &&& 0 <= k < rows.len()
                        &&& (#[trigger] rows[k]).0 == url
                        &&& rows[k].3
                        &&& forall|j: int| 0 <= j < k ==> (#[trigger] rows[j]).0 != url
                    };
                assert(i == k);
            }
        },
        None => {},
    }
}

spec fn has_row(rows: Seq<Row>, url: Seq<char>) -> bool {
    exists|i: int| 0 <= i < rows.len() && (#[trigger] rows[i]).0 == url
}

proof fn one_row_more(rows: Seq<Row>, x: Row, url: Seq<char>)
    ensures
        has_row(rows.push(x), url) == (has_row(rows, url) || x.0 == url),
        marked(rows.push(x), url) == (marked(rows, url) || (!has_row(rows, url) && x.0 == url
            && x.3)),
{
    let p = rows.push(x);
    let n = rows.len() as int;
    assert(p[n] == x);
    assert forall|i: int| 0 <= i < n implies #[trigger] p[i] == rows[i] by {}
    if has_row(rows, url) {
        let i = choose|i: int| 0 <= i < rows.len() && (#[trigger] rows[i]).0 == url;
        assert(p[i].0 == url);
    }
    if marked(rows, url) {
        let i = choose|i: int|
            {
                &&& 0 <= i < rows.len()
                &&& (#[trigger] rows[i]).0 == url
                &&& rows[i].3
                &&& forall|j: int| 0 <= j < i ==> (#[trigger] rows[j]).0 != url
            };
        assert(p[i] == rows[i]);
        assert forall|j: int| 0 <= j < i implies (#[trigger] p[j]).0 != url by {
            assert(p[j] == rows[j]);
        }
        assert(marked(p, url));
    }
    if marked(p, url) {
        let i = choose|i: int|
            {
                &&& 0 <= i < p.len()
                &&& (#[trigger] p[i]).0 == url
                &&& p[i].3
                &&& forall|j: int| 0 <= j < i ==> (#[trigger] p[j]).0 != url
            };
        if i < n {
            assert(rows[i] == p[i]);
            assert forall|j: int| 0 <= j < i implies (#[trigger] rows[j]).0 != url by {
                assert(p[j] == rows[j]);
            }
        } else {
            assert forall|j: int| 0 <= j < n implies (#[trigger] rows[j]).0 != url by {
                assert(p[j] == rows[j]);
            }
        }
    }
}

pub(crate) proof fn pruning_keeps_marks(rows: Seq<Row>, list: Seq<String>, url: Seq<char>)
    requires
        laws::on_list(list, url),
    ensures
        marked(history::pruned(rows, list), url) == marked(rows, url),
{
    pruning_keeps_rows(rows, list, url);
}

proof fn pruning_keeps_rows(rows: Seq<Row>, list: Seq<String>, url: Seq<char>)
    requires
        laws::on_list(list, url),
    ensures
        has_row(history::pruned(rows, list), url) == has_row(rows, url),
        marked(history::pruned(rows, list), url) == marked(rows, url),
    decreases rows.len(),
{
    if rows.len() > 0 {
        let d = rows.drop_last();
        let x = rows.last();
        pruning_keeps_rows(d, list, url);
        assert(d.push(x) =~= rows);
        one_row_more(d, x, url);
        one_row_more(history::pruned(d, list), x, url);
    } else {
        assert(history::pruned(rows, list) =~= rows);
    }
}

/// The URL is one that the search leaves: its address or its label is found.
pub open spec fn url_found(url: Seq<char>, f: Option<String>) -> bool {
    lists::searched(url, names::label_of(url), f)
}

proof fn kept_is_found(url: Seq<char>, f: Option<String>)
    ensures
        importer::url_kept(url, filters::needle_of(f)) == url_found(url, f),
{
    if let Some(t) = f {
        let q = text::lowercase(text::trimmed(t@));
        lists::occurrence(text::lowercase(url), q);
        lists::occurrence(text::lowercase(names::label_of(url)), q);
    }
}

/// One URL, saved as number `a`, goes before another, saved as number `b`: in the
/// order of addition the later one; by name, by server and then by name, or by the
/// number of files and then by name, the larger number first and an unknown one last;
/// the earlier one where these are the same.
pub open spec fn url_goes_before(
    entries: Seq<Entry>,
    h: History,
    mode: int,
    a: int,
    b: int,
) -> bool {
    let (x, y) = (h.urls@[a]@, h.urls@[b]@);
    let (p, q) = (text::lowercase(names::label_of(x)), text::lowercase(names::label_of(y)));
    let (c, d) = (text::lowercase(names::host_of(x)), text::lowercase(names::host_of(y)));
    let (m, n) = (
        importer::progress_of(entries, h, x).1,
        importer::progress_of(entries, h, y).1,
    );
    let by_name = laws::comes_first(p, q) || (p == q && a < b);
    if mode == 0 {
        a > b
    } else if mode == 1 {
        by_name
    } else if mode == 2 {
        laws::comes_first(c, d) || (c == d && by_name)
    } else {
        match (m, n) {
            (Some(s), Some(t)) => s > t || (s == t && by_name),
            (Some(_), None) => true,
            (None, Some(_)) => false,
            (None, None) => by_name,
        }
    }
}

/// The list of saved URLs shows those that the search leaves, each once, and stands in
/// its order: favourites first; among favourites, and among the others, one URL before
/// another as `url_goes_before` says, or against it where the order is reversed.
pub proof fn saved_urls_stand_in_order(
    entries: Seq<Entry>,
    h: History,
    sorting: Sorting,
    v: Seq<usize>,
)
    requires
        importer::is_view(entries, h, sorting, v),
        h.urls@.len() <= usize::MAX,
        sorting.import_mode < 4,
    ensures
        forall|k: int|
            0 <= k < h.urls@.len() ==> v.contains(k as usize) == url_found(
                (#[trigger] h.urls@[k])@,
                h.filter,
            ),
        forall|i: int| 0 <= i < v.len() ==> (#[trigger] v[i]) < h.urls@.len(),
        forall|i: int, j: int|
            #![trigger v[i], v[j]]
            0 <= i < j < v.len() ==> {
                let (a, b) = (v[i] as int, v[j] as int);
                let rows = history::rows_of(h.meta@);
                let (fa, fb) = (marked(rows, h.urls@[a]@), marked(rows, h.urls@[b]@));
                let mode = sorting.import_mode as int;
                &&& a != b
                &&& fb ==> fa
                &&& fa == fb && !sorting.import_reverse ==> url_goes_before(entries, h, mode, a, b)
                &&& fa == fb && sorting.import_reverse ==> url_goes_before(entries, h, mode, b, a)
            },
{
    importer::view_shows_each_once(entries, h, sorting, v);
    let mode = sorting.import_mode as int;
    let rows = history::rows_of(h.meta@);
    let keys = importer::url_keys(entries, h, mode);
    let pins = importer::url_pins(h);
    let rev = importer::turned(sorting);
    let m = importer::matching(h);
    let o = choose|o: Seq<usize>| #[trigger]
        order::is_order(keys, rev, pins, o) && v == order::arranged(m, o);
    filters::kept_is_exact(importer::urls_kept(h));
    assert forall|k: int| 0 <= k < h.urls@.len() implies v.contains(k as usize) == url_found(
        (#[trigger] h.urls@[k])@,
        h.filter,
    ) by {
        kept_is_found(h.urls@[k]@, h.filter);
        if v.contains(k as usize) {
            let i = choose|i: int| 0 <= i < v.len() && v[i] == k as usize;
            assert(v[i] == k);
        }
    }
    assert forall|i: int, j: int|
        #![trigger v[i], v[j]]
        0 <= i < j < v.len() implies {
        let (a, b) = (v[i] as int, v[j] as int);
        let (fa, fb) = (marked(rows, h.urls@[a]@), marked(rows, h.urls@[b]@));
        &&& a != b
        &&& fb ==> fa
        &&& fa == fb && !sorting.import_reverse ==> url_goes_before(entries, h, mode, a, b)
        &&& fa == fb && sorting.import_reverse ==> url_goes_before(entries, h, mode, b, a)
    } by {
        let (s, t) = (o[i] as int, o[j] as int);
        let (a, b) = (v[i] as int, v[j] as int);
        assert(s < m.len() && t < m.len());
        assert(a == m[s] && b == m[t]);
        assert(s < t ==> a < b);
        assert(t < s ==> b < a);
        assert(order::row_before(keys, rev, pins, s, t));
        let (x, y) = (h.urls@[a]@, h.urls@[b]@);
        favored_is_marked(rows, x);
        favored_is_marked(rows, y);
        let (p, q) = (text::lowercase(names::label_of(x)), text::lowercase(names::label_of(y)));
        let (c, d) = (text::lowercase(names::host_of(x)), text::lowercase(names::host_of(y)));
        games::text_order(p, q);
        games::text_order(q, p);
        games::text_order(c, d);
        games::text_order(d, c);
        order::before_is_strict(Seq::empty());
        assert(keys[s] == importer::url_key(entries, h, mode, x));
        assert(keys[t] == importer::url_key(entries, h, mode, y));
        let (k, l) = (
            importer::progress_of(entries, h, x).1,
            importer::progress_of(entries, h, y).1,
        );
        if mode == 1 {
            assert(p == q ==> keys[s] == keys[t]);
        } else if mode == 2 {
            assert(p == q && c == d ==> keys[s] == keys[t]);
        } else if mode == 3 {
            assert(p == q && k == l ==> keys[s] == keys[t]);
        }
    }
}

/// On the saved URLs A opens the one under the cursor, and Plus its options; in the
/// first row A adds one. `v` is the list as it is shown.
pub proof fn the_url_under_the_cursor_is_opened(
    pre: State,
    m: Menu,
    keys: Keys,
    f: Facts,
    b: Button,
    post: State,
    m2: Menu,
    r: Reply,
    row: usize,
    scroll: usize,
    v: Seq<usize>,
)
    requires
        library::input_step(pre, m, keys, f, b, post, m2, r),
        games::reaches(m, f, b),
        pre.screen == (Screen::DistantIdle { selection: row, scroll_offset: scroll }),
        importer::is_view(pre.entries@, pre.history, pre.sorting, v),
        row <= v.len() <= usize::MAX,
    ensures
        post.history == pre.history && post.entries == pre.entries,
        b == Button::A && row > 0 ==> post == pre && r.effect == (Effect::FetchUrl {
            url_idx: v[row - 1],
            row,
            scroll,
        }),
        b == Button::A && row == 0 ==> post == pre && r.effect == Effect::AddUrl,
        b == Button::Plus && row > 0 ==> post.screen == (Screen::DistantUrlOptions {
            url_idx: v[row - 1],
            selection: 0,
        }),
        b == Button::Plus && row == 0 ==> post == pre,
        b == Button::Down ==> (post.screen matches Screen::DistantIdle { selection, .. }
            && selection == (if row == v.len() {
            0
        } else {
            row + 1
        })),
        b == Button::Up ==> (post.screen matches Screen::DistantIdle { selection, .. } && selection
            == (if row == 0 {
            v.len() as int
        } else {
            row - 1
        })),
{
    importer::view_is(pre.entries@, pre.history, pre.sorting, v);
}

// ── How much is on the card ────────────────────────────────────────────────

proof fn games_are_counted(entries: Seq<Entry>, item: Seq<char>)
    ensures
        importer::games_from(entries, item) == entries.filter(
            |e: Entry| e.source_item@ == item,
        ).len(),
        importer::games_from(entries, item) <= entries.len(),
    decreases entries.len(),
{
    reveal(Seq::filter);
    if entries.len() > 0 {
        games_are_counted(entries.drop_last(), item);
    }
}

/// Of an item as many files are on the card as games came from it, whatever the case
/// of its id; of a movie one, where there is a game of its name. What is known of the
/// number of files is shown, and never less than what is on the card.
pub proof fn files_on_the_card_are_counted(
    entries: Seq<Entry>,
    h: History,
    url: Seq<char>,
    raw: Seq<char>,
    direct: bool,
    id: Seq<char>,
)
    requires
        importer::source_of(h.sources@, url, 0) == (raw, direct),
        entries.len() <= u32::MAX,
        !direct ==> net::item_id(raw) == Some(id),
    ensures
        ({
            let (have, total) = importer::progress_of(entries, h, url);
            let name = names::url_file_name(raw);
            let here = exists|i: int| 0 <= i < entries.len() && (#[trigger] entries[i]).basename@ == name;
            &&& direct ==> total == Some(1u32) && (have == 1 <==> here) && (have == 0 <==> !here)
            &&& !direct ==> have == entries.filter(
                |e: Entry| e.source_item@ == text::lowercase(id),
            ).len()
            &&& total matches Some(t) ==> have <= t
        }),
{
    if !direct {
        games_are_counted(entries, text::lowercase(id));
    }
}

} // verus!
