//! The list of saved URLs as it is shown: searched, sorted, favourites on top.

use crate::library::filters;
use crate::library::history;
use crate::library::names;
use crate::library::order;
use crate::library::order::Key;
use crate::library::sorting;
use crate::library::state::{Entry, History, Sorting, State, UrlSource};
use crate::net;
use crate::text;
use vstd::prelude::*;

verus! {

// ── What is known of the servers ───────────────────────────────────────────

/// What is known of the server behind a URL: its address of the file itself, and
/// whether it is that of a movie. A URL that nothing is known of is an item of
/// archive.org under its own address.
pub open spec fn source_of(list: Seq<UrlSource>, url: Seq<char>, from: int) -> (Seq<char>, bool)
    decreases list.len() - from,
{
    if from < 0 || from >= list.len() {
        (url, false)
    } else if list[from].url@ == url {
        (list[from].raw@, list[from].direct)
    } else {
        source_of(list, url, from + 1)
    }
}

/// What is known of the server behind a URL.
pub fn find_source(h: &History, url: &str) -> (r: (String, bool))
    ensures
        (r.0@, r.1) == source_of(h.sources@, url@, 0),
{
    let mut i: usize = 0;
    while i < h.sources.len()
        invariant
            i <= h.sources.len(),
            source_of(h.sources@, url@, 0) == source_of(h.sources@, url@, i as int),
        decreases h.sources.len() - i,
    {
        if text::str_eq(h.sources[i].url.as_str(), url) {
            return (h.sources[i].raw.clone(), h.sources[i].direct);
        }
        i = i + 1;
    }
    (url.to_owned(), false)
}

/// What is known of the server behind a URL from now on.
pub fn note_source(h: &mut History, url: &str, raw: &str, direct: bool)
    ensures
        *final(h) == (History { sources: final(h).sources, ..*old(h) }),
        source_of(final(h).sources@, url@, 0) == (raw@, direct),
        forall|other: Seq<char>|
            other != url@ ==> #[trigger] source_of(final(h).sources@, other, 0) == source_of(
                old(h).sources@,
                other,
                0,
            ),
{
    let x: UrlSource = UrlSource { url: url.to_owned(), raw: raw.to_owned(), direct };
    let ghost before = h.sources@;
    h.sources.insert(0, x);
    proof {
        let after = h.sources@;
        assert(after[0] == x);
        assert forall|other: Seq<char>| other != url@ implies #[trigger] source_of(after, other, 0)
            == source_of(before, other, 0) by {
            source_shift(before, after, other, 0);
        }
    }
}

proof fn source_shift(before: Seq<UrlSource>, after: Seq<UrlSource>, url: Seq<char>, i: int)
    requires
        0 <= i,
        after.len() == before.len() + 1,
        forall|k: int| 0 <= k < before.len() ==> #[trigger] after[k + 1] == before[k],
    ensures
        source_of(after, url, i + 1) == source_of(before, url, i),
    decreases before.len() - i,
{
    if i < before.len() {
        assert(after[i + 1] == before[i]);
        source_shift(before, after, url, i + 1);
    }
}

// ── How much of a URL is on the card ───────────────────────────────────────

/// Is there a game of that file name?
pub open spec fn on_card(entries: Seq<Entry>, basename: Seq<char>) -> bool {
    exists|i: int| 0 <= i < entries.len() && (#[trigger] entries[i]).basename@ == basename
}

/// Is there a game of that file name?
pub fn is_on_card(entries: &Vec<Entry>, basename: &str) -> (r: bool)
    ensures
        r == on_card(entries@, basename@),
{
    let mut i: usize = 0;
    while i < entries.len()
        invariant
            i <= entries.len(),
            forall|k: int| 0 <= k < i ==> (#[trigger] entries@[k]).basename@ != basename@,
        decreases entries.len() - i,
    {
        if text::str_eq(entries[i].basename.as_str(), basename) {
            assert(entries@[i as int].basename@ == basename@);
            return true;
        }
        i = i + 1;
    }
    false
}

/// How many games came from an item.
pub open spec fn games_from(entries: Seq<Entry>, item: Seq<char>) -> nat
    decreases entries.len(),
{
    if entries.len() == 0 {
        0
    } else {
        games_from(entries.drop_last(), item) + if entries.last().source_item@ == item {
            1nat
        } else {
            0nat
        }
    }
}

fn count_from(entries: &Vec<Entry>, item: &str) -> (r: u32)
    ensures
        r == games_from(entries@, item@) % 0x1_0000_0000,
{
    let mut n: u32 = 0;
    let mut i: usize = 0;
    assert(entries@.take(0) =~= Seq::empty());
    while i < entries.len()
        invariant
            i <= entries.len(),
            n == games_from(entries@.take(i as int), item@) % 0x1_0000_0000,
        decreases entries.len() - i,
    {
        assert(entries@.take(i + 1).drop_last() =~= entries@.take(i as int));
        if text::str_eq(entries[i].source_item.as_str(), item) {
            n = if n == u32::MAX {
                0
            } else {
                n + 1
            };
        }
        i = i + 1;
    }
    assert(entries@.take(i as int) =~= entries@);
    n
}

/// How many files of a URL are on the card, and how many there are. A movie is one
/// file; of an item that was never opened the number is not known. The number of
/// files is never less than that of those on the card.
pub open spec fn progress_of(entries: Seq<Entry>, h: History, url: Seq<char>) -> (u32, Option<u32>) {
    let (raw, direct) = source_of(h.sources@, url, 0);
    let total = history::total_of(history::rows_of(h.meta@), url);
    if direct {
        (
            if on_card(entries, names::url_file_name(raw)) {
                1
            } else {
                0
            },
            Some(1),
        )
    } else {
        match net::item_id(raw) {
            Some(id) => {
                let have = (games_from(entries, text::lowercase(id)) % 0x1_0000_0000) as u32;
                (
                    have,
                    match total {
                        Some(t) => Some(
                            if t > have {
                                t
                            } else {
                                have
                            },
                        ),
                        None => None,
                    },
                )
            },
            None => (0, total),
        }
    }
}

/// How many files of a URL are on the card, and how many there are.
pub fn importer_progress(entries: &Vec<Entry>, h: &History, url: &str) -> (r: (u32, Option<u32>))
    ensures
        r == progress_of(entries@, *h, url@),
{
    let (raw, direct) = find_source(h, url);
    if direct {
        let name: String = names::safe_name_from_url(raw.as_str());
        let have: u32 = if is_on_card(entries, name.as_str()) {
            1
        } else {
            0
        };
        return (have, Some(1));
    }
    let total: Option<u32> = history::url_total(h, url);
    match net::extract_item_id(raw.as_str()) {
        Some(id) => {
            let low: String = text::lower(id.as_str());
            let have: u32 = count_from(entries, low.as_str());
            let shown: Option<u32> = match total {
                Some(t) => Some(
                    if t > have {
                        t
                    } else {
                        have
                    },
                ),
                None => None,
            };
            (have, shown)
        },
        None => (0, total),
    }
}

// ── The list ───────────────────────────────────────────────────────────────

/// Is the URL shown? A search looks at the URL and at its label.
pub open spec fn url_kept(url: Seq<char>, q: Option<Seq<char>>) -> bool {
    match q {
        Some(q) => filters::holds(url, q) || filters::holds(names::label_of(url), q),
        None => true,
    }
}

/// Which URLs are shown.
pub open spec fn urls_kept(h: History) -> Seq<bool> {
    Seq::new(h.urls@.len(), |i: int| url_kept(h.urls@[i]@, filters::needle_of(h.filter)))
}

/// The rows of the URLs that a search leaves, oldest first.
pub open spec fn matching(h: History) -> Seq<usize> {
    filters::kept(urls_kept(h))
}

/// What a URL is ordered by.
pub open spec fn url_key(entries: Seq<Entry>, h: History, mode: int, url: Seq<char>) -> order::KeyView {
    let label = text::lowercase(names::label_of(url));
    if mode == 1 {
        order::text_key(label)
    } else if mode == 2 {
        order::KeyView {
            num: 0,
            num2: 0,
            first: text::lowercase(names::host_of(url)),
            second: label,
        }
    } else if mode == 3 {
        order::KeyView {
            num: match progress_of(entries, h, url).1 {
                Some(t) => u64::MAX - t,
                None => u64::MAX as int,
            },
            num2: if progress_of(entries, h, url).1 is None {
                1
            } else {
                0
            },
            first: label,
            second: Seq::empty(),
        }
    } else {
        order::text_key(Seq::empty())
    }
}

/// What the shown URLs are ordered by.
pub open spec fn url_keys(entries: Seq<Entry>, h: History, mode: int) -> Seq<order::KeyView> {
    Seq::new(
        matching(h).len(),
        |i: int| url_key(entries, h, mode, h.urls@[matching(h)[i] as int]@),
    )
}

/// Which of the shown URLs are favourites.
pub open spec fn url_pins(h: History) -> Seq<bool> {
    Seq::new(
        matching(h).len(),
        |i: int|
            history::favored(history::rows_of(h.meta@), h.urls@[matching(h)[i] as int]@),
    )
}

/// Is the list turned round? The order of addition shows the newest first.
pub open spec fn turned(sorting: Sorting) -> bool {
    if sorting::import_row(sorting) == 0 {
        !sorting.import_reverse
    } else {
        sorting.import_reverse
    }
}

/// `v` are the shown URLs in their order: favourites first, then by the order,
/// then by age.
pub open spec fn is_view(entries: Seq<Entry>, h: History, sorting: Sorting, v: Seq<usize>) -> bool {
    exists|o: Seq<usize>|
        {
            &&& #[trigger] order::is_order(
                url_keys(entries, h, sorting::import_row(sorting)),
                turned(sorting),
                url_pins(h),
                o,
            )
            &&& v == order::arranged(matching(h), o)
        }
}

/// The shown URLs in their order.
pub open spec fn view_of(entries: Seq<Entry>, h: History, sorting: Sorting) -> Seq<usize> {
    choose|v: Seq<usize>| is_view(entries, h, sorting, v)
}

/// There is one such list.
pub proof fn view_is(entries: Seq<Entry>, h: History, sorting: Sorting, v: Seq<usize>)
    requires
        is_view(entries, h, sorting, v),
    ensures
        view_of(entries, h, sorting) == v,
{
    let w = view_of(entries, h, sorting);
    assert(is_view(entries, h, sorting, w));
    let keys = url_keys(entries, h, sorting::import_row(sorting));
    let pins = url_pins(h);
    let rev = turned(sorting);
    let ov = choose|o: Seq<usize>| #[trigger]
        order::is_order(keys, rev, pins, o) && v == order::arranged(matching(h), o);
    let ow = choose|o: Seq<usize>| #[trigger]
        order::is_order(keys, rev, pins, o) && w == order::arranged(matching(h), o);
    order::order_is_unique(keys, rev, pins, ov, ow);
}

fn key_of_url(entries: &Vec<Entry>, h: &History, mode: usize, url: &str) -> (r: Key)
    ensures
        r@ == url_key(entries@, *h, mode as int, url@),
{
    let label: String = names::importer_label(url);
    let low: String = text::lower(label.as_str());
    let k: Key = if mode == 1 {
        Key { num: 0, num2: 0, first: text::chars_of(low.as_str()), second: Vec::new() }
    } else if mode == 2 {
        let host: String = names::importer_host(url);
        let low_host: String = text::lower(host.as_str());
        Key {
            num: 0,
            num2: 0,
            first: text::chars_of(low_host.as_str()),
            second: text::chars_of(low.as_str()),
        }
    } else if mode == 3 {
        let total: Option<u32> = importer_progress(entries, h, url).1;
        Key {
            num: match total {
                Some(t) => u64::MAX - t as u64,
                None => u64::MAX,
            },
            num2: match total {
                Some(_) => 0,
                None => 1,
            },
            first: text::chars_of(low.as_str()),
            second: Vec::new(),
        }
    } else {
        Key { num: 0, num2: 0, first: Vec::new(), second: Vec::new() }
    };
    assert(k@ =~= url_key(entries@, *h, mode as int, url@));
    k
}

fn matching_rows(h: &History) -> (r: Vec<usize>)
    ensures
        r@ == matching(*h),
        r@.len() <= h.urls@.len(),
        forall|i: int| 0 <= i < r@.len() ==> (#[trigger] r@[i]) < h.urls@.len(),
{
    let q: Option<String> = filters::needle(&h.filter);
    let mut keep: Vec<bool> = Vec::new();
    let mut i: usize = 0;
    while i < h.urls.len()
        invariant
            i <= h.urls.len(),
            keep@.len() == i,
            match q {
                Some(x) => filters::needle_of(h.filter) == Some(x@),
                None => filters::needle_of(h.filter) == None::<Seq<char>>,
            },
            forall|k: int|
                0 <= k < i ==> #[trigger] keep@[k] == url_kept(
                    h.urls@[k]@,
                    filters::needle_of(h.filter),
                ),
        decreases h.urls.len() - i,
    {
        let k: bool = match &q {
            Some(x) => {
                let u: &str = h.urls[i].as_str();
                if filters::text_holds(u, x.as_str()) {
                    true
                } else {
                    let label: String = names::importer_label(u);
                    filters::text_holds(label.as_str(), x.as_str())
                }
            },
            None => true,
        };
        keep.push(k);
        i = i + 1;
    }
    assert(keep@ =~= urls_kept(*h));
    filters::kept_rows(&keep)
}

/// The shown URLs in their order: places in the list of saved ones.
pub fn importer_view(entries: &Vec<Entry>, h: &History, sorting: &Sorting) -> (r: Vec<usize>)
    ensures
        is_view(entries@, *h, *sorting, r@),
        r@ == view_of(entries@, *h, *sorting),
        r@.len() <= h.urls@.len(),
        forall|i: int| 0 <= i < r@.len() ==> (#[trigger] r@[i]) < h.urls@.len(),
{
    let rows: Vec<usize> = matching_rows(h);
    let mode: usize = sorting::import_sort_index(sorting);
    let mut keys: Vec<Key> = Vec::new();
    let mut pins: Vec<bool> = Vec::new();
    let mut i: usize = 0;
    while i < rows.len()
        invariant
            i <= rows.len(),
            rows@ == matching(*h),
            mode == sorting::import_row(*sorting),
            forall|k: int| 0 <= k < rows@.len() ==> (#[trigger] rows@[k]) < h.urls@.len(),
            keys@.len() == i,
            pins@.len() == i,
            forall|k: int|
                0 <= k < i ==> (#[trigger] keys@[k])@ == url_key(
                    entries@,
                    *h,
                    mode as int,
                    h.urls@[rows@[k] as int]@,
                ),
            forall|k: int|
                0 <= k < i ==> #[trigger] pins@[k] == history::favored(
                    history::rows_of(h.meta@),
                    h.urls@[rows@[k] as int]@,
                ),
        decreases rows.len() - i,
    {
        let u: &str = h.urls[rows[i]].as_str();
        keys.push(key_of_url(entries, h, mode, u));
        pins.push(history::url_is_favorite(h, u));
        i = i + 1;
    }
    let reverse: bool = if mode == 0 {
        !sorting.import_reverse
    } else {
        sorting.import_reverse
    };
    let o: Vec<usize> = order::sorted_rows(&keys, reverse, &pins);
    proof {
        assert(order::key_views(keys@) =~= url_keys(entries@, *h, mode as int));
        assert(pins@ =~= url_pins(*h));
    }
    let ghost before = rows@;
    let r: Vec<usize> = order::rearranged(rows, &o);
    proof {
        assert(order::is_order(
            url_keys(entries@, *h, sorting::import_row(*sorting)),
            turned(*sorting),
            url_pins(*h),
            o@,
        ));
        assert(r@ == order::arranged(matching(*h), o@));
        assert(is_view(entries@, *h, *sorting, r@));
        view_is(entries@, *h, *sorting, r@);
        assert forall|k: int| 0 <= k < r@.len() implies (#[trigger] r@[k]) < h.urls@.len() by {
            assert(o@[k] < before.len());
            assert(before[o@[k] as int] < h.urls@.len());
        }
    }
    r
}

/// The list shows each URL that the search leaves, once.
pub proof fn view_shows_each_once(entries: Seq<Entry>, h: History, sorting: Sorting, v: Seq<usize>)
    requires
        is_view(entries, h, sorting, v),
        h.urls@.len() <= usize::MAX,
    ensures
        forall|i: int, j: int| 0 <= i < j < v.len() ==> v[i] != v[j],
        forall|i: int|
            0 <= i < v.len() ==> (#[trigger] v[i]) < h.urls@.len() && url_kept(
                h.urls@[v[i] as int]@,
                filters::needle_of(h.filter),
            ),
        forall|k: int|
            0 <= k < h.urls@.len() && url_kept(
                (#[trigger] h.urls@[k])@,
                filters::needle_of(h.filter),
            ) ==> v.contains(k as usize),
{
    let keys = url_keys(entries, h, sorting::import_row(sorting));
    let pins = url_pins(h);
    let rev = turned(sorting);
    let m = matching(h);
    let keep = urls_kept(h);
    let o = choose|o: Seq<usize>| #[trigger]
        order::is_order(keys, rev, pins, o) && v == order::arranged(m, o);
    filters::kept_is_exact(keep);
    assert forall|i: int, j: int| 0 <= i < j < v.len() implies v[i] != v[j] by {
        assert(o[i] != o[j]);
        assert(o[i] < m.len() && o[j] < m.len());
        if o[i] < o[j] {
            assert(m[o[i] as int] < m[o[j] as int]);
        } else {
            assert(m[o[j] as int] < m[o[i] as int]);
        }
    }
    assert forall|i: int| 0 <= i < v.len() implies (#[trigger] v[i]) < h.urls@.len() && url_kept(
        h.urls@[v[i] as int]@,
        filters::needle_of(h.filter),
    ) by {
        assert(o[i] < m.len());
        assert(m[o[i] as int] < keep.len() && keep[m[o[i] as int] as int]);
    }
    assert forall|k: int|
        0 <= k < h.urls@.len() && url_kept(
            (#[trigger] h.urls@[k])@,
            filters::needle_of(h.filter),
        ) implies v.contains(k as usize) by {
        assert(keep[k]);
        let p = choose|p: int| 0 <= p < m.len() && m[p] == k as usize;
        order::permutation_covers(o, m.len() as int, p);
        let q = choose|q: int| 0 <= q < m.len() && #[trigger] o[q] == p;
        assert(v[q] == k as usize);
    }
}

/// Favourites stand on top of the list, whatever its order.
pub proof fn favorite_urls_lead(
    entries: Seq<Entry>,
    h: History,
    sorting: Sorting,
    v: Seq<usize>,
    i: int,
    j: int,
)
    requires
        is_view(entries, h, sorting, v),
        0 <= i < j < v.len(),
        history::favored(history::rows_of(h.meta@), h.urls@[v[j] as int]@),
    ensures
        history::favored(history::rows_of(h.meta@), h.urls@[v[i] as int]@),
{
    let keys = url_keys(entries, h, sorting::import_row(sorting));
    let pins = url_pins(h);
    let rev = turned(sorting);
    let o = choose|o: Seq<usize>| #[trigger]
        order::is_order(keys, rev, pins, o) && v == order::arranged(matching(h), o);
    assert(order::row_before(keys, rev, pins, o[i] as int, o[j] as int));
    assert(o[i] < pins.len() && o[j] < pins.len());
}

/// The row of a saved URL in the list: row 0 adds a URL, and is the row of those
/// that are not shown.
pub open spec fn row_for(s: State, abs: int) -> int {
    match filters::place(view_of(s.entries@, s.history, s.sorting), abs, 0) {
        Some(p) => p + 1,
        None => 0,
    }
}

/// The saved URL of a row in the list.
pub open spec fn abs_for(s: State, row: int) -> Option<usize> {
    let v = view_of(s.entries@, s.history, s.sorting);
    if 0 < row <= v.len() {
        Some(v[row - 1])
    } else {
        None
    }
}

/// The row of a saved URL in the list.
pub fn importer_row_for_abs(s: &State, abs: usize) -> (r: usize)
    ensures
        r == row_for(*s, abs as int),
        r <= s.history.urls@.len(),
{
    let v: Vec<usize> = importer_view(&s.entries, &s.history, &s.sorting);
    let n: usize = v.len();
    match filters::position(&v, abs) {
        Some(p) => if p < n {
            p + 1
        } else {
            0
        },
        None => 0,
    }
}

/// The saved URL of a row in the list.
pub fn importer_abs_for_row(s: &State, row: usize) -> (r: Option<usize>)
    ensures
        r == abs_for(*s, row as int),
        r matches Some(i) ==> i < s.history.urls@.len(),
{
    if row == 0 {
        return None;
    }
    let v: Vec<usize> = importer_view(&s.entries, &s.history, &s.sorting);
    if row - 1 < v.len() {
        Some(v[row - 1])
    } else {
        None
    }
}

/// A row and the URL that it shows name each other.
pub proof fn rows_and_urls_agree(s: State, v: Seq<usize>, row: int)
    requires
        is_view(s.entries@, s.history, s.sorting, v),
        s.history.urls@.len() <= usize::MAX,
        0 < row <= v.len(),
    ensures
        abs_for(s, row) matches Some(i) && row_for(s, i as int) == row,
{
    view_is(s.entries@, s.history, s.sorting, v);
    view_shows_each_once(s.entries@, s.history, s.sorting, v);
    filters::place_is(v, row - 1, 0);
}

// ── What the rows show ─────────────────────────────────────────────────────

/// What a row of the list shows.
pub struct UrlRow {
    pub label: String,
    pub host: String,
    pub direct: bool,
    /// The files on the card, and all of them where their number is known.
    pub progress: (u32, Option<u32>),
    pub favorite: bool,
}

/// A row shows its URL.
pub open spec fn shows_url(r: UrlRow, entries: Seq<Entry>, h: History, url: Seq<char>) -> bool {
    &&& r.label@ == names::label_of(url)
    &&& r.host@ == names::host_of(url)
    &&& r.direct == source_of(h.sources@, url, 0).1
    &&& r.progress == progress_of(entries, h, url)
    &&& r.favorite == history::favored(history::rows_of(h.meta@), url)
}

/// What the rows below the first show, and how many URLs there are without the
/// search.
pub fn importer_rows(s: &State) -> (r: (Vec<UrlRow>, usize))
    ensures
        r.0@.len() == view_of(s.entries@, s.history, s.sorting).len(),
        forall|i: int|
            0 <= i < r.0@.len() ==> shows_url(
                #[trigger] r.0@[i],
                s.entries@,
                s.history,
                s.history.urls@[view_of(s.entries@, s.history, s.sorting)[i] as int]@,
            ),
        r.1 == s.history.urls@.len(),
{
    let v: Vec<usize> = importer_view(&s.entries, &s.history, &s.sorting);
    let mut rows: Vec<UrlRow> = Vec::new();
    let mut i: usize = 0;
    while i < v.len()
        invariant
            i <= v.len(),
            v@ == view_of(s.entries@, s.history, s.sorting),
            forall|k: int| 0 <= k < v@.len() ==> (#[trigger] v@[k]) < s.history.urls@.len(),
            rows@.len() == i,
            forall|k: int|
                0 <= k < i ==> shows_url(
                    #[trigger] rows@[k],
                    s.entries@,
                    s.history,
                    s.history.urls@[v@[k] as int]@,
                ),
        decreases v.len() - i,
    {
        let u: &str = s.history.urls[v[i]].as_str();
        let (_, direct) = find_source(&s.history, u);
        rows.push(
            UrlRow {
                label: names::importer_label(u),
                host: names::importer_host(u),
                direct,
                progress: importer_progress(&s.entries, &s.history, u),
                favorite: history::url_is_favorite(&s.history, u),
            },
        );
        i = i + 1;
    }
    (rows, s.history.urls.len())
}

} // verus!
