//! The orders of the lists, and how they are kept.

use crate::library::names;
use crate::library::order;
use crate::library::order::Key;
use crate::library::state;
use crate::library::state::{Entry, Session, Sorting};
use crate::playtime;
use crate::playtime::Playtime;
use crate::text;
use vstd::prelude::*;

verus! {

/// The orders of the game list.
#[derive(Clone, Copy, PartialEq, Eq, Structural, Debug)]
pub enum SortMode {
    Alpha,
    Recent,
    RecentlyPlayed,
    MostPlayed,
    Size,
}

/// The order of a number.
pub open spec fn mode_at(i: int) -> SortMode {
    if i == 1 {
        SortMode::Recent
    } else if i == 2 {
        SortMode::RecentlyPlayed
    } else if i == 3 {
        SortMode::MostPlayed
    } else if i == 4 {
        SortMode::Size
    } else {
        SortMode::Alpha
    }
}

/// The order of the game list.
pub fn current_sort_mode(s: &Sorting) -> (r: SortMode)
    ensures
        r == mode_at(s.mode as int),
{
    match s.mode {
        1 => SortMode::Recent,
        2 => SortMode::RecentlyPlayed,
        3 => SortMode::MostPlayed,
        4 => SortMode::Size,
        _ => SortMode::Alpha,
    }
}

/// The row of the order in the list of orders.
pub fn sort_mode_index(s: &Sorting) -> (r: usize)
    ensures
        r == s.mode,
{
    s.mode as usize
}

/// Is the game list reversed?
pub fn current_sort_reverse(s: &Sorting) -> (r: bool)
    ensures
        r == s.reverse,
{
    s.reverse
}

// ── How an order is kept ───────────────────────────────────────────────────

/// The digit of an order.
pub open spec fn mode_digit(mode: int) -> char {
    if mode == 1 {
        '1'
    } else if mode == 2 {
        '2'
    } else if mode == 3 {
        '3'
    } else if mode == 4 {
        '4'
    } else {
        '0'
    }
}

/// The file of an order: its digit, then `R` where it is reversed.
pub open spec fn pref_text(mode: int, reverse: bool) -> Seq<char> {
    if reverse {
        seq![mode_digit(mode), 'R']
    } else {
        seq![mode_digit(mode)]
    }
}

/// The file of an order.
pub fn write_sort_pref(mode: u8, rev: bool) -> (r: String)
    ensures
        r@ == pref_text(mode as int, rev),
{
    let mut v: Vec<char> = Vec::new();
    v.push(
        match mode {
            1 => '1',
            2 => '2',
            3 => '3',
            4 => '4',
            _ => '0',
        },
    );
    if rev {
        v.push('R');
    }
    let n: usize = v.len();
    let r: String = text::string_of(&v, 0, n);
    assert(r@ =~= pref_text(mode as int, rev));
    r
}

/// The order that the digit `b` stands for.
pub open spec fn byte_mode(b: u8) -> u8 {
    if b == 49 {
        1
    } else if b == 50 {
        2
    } else if b == 51 {
        3
    } else if b == 52 {
        4
    } else {
        0
    }
}

/// The order in the first four bytes of a file: the digit first, an `R` or `r`
/// anywhere.
pub open spec fn pref_in(b: Seq<u8>) -> (u8, bool) {
    if b.len() == 0 {
        (0, false)
    } else {
        (
            byte_mode(b[0]),
            exists|i: int|
                0 <= i < b.len() && i < 4 && ((#[trigger] b[i]) == 82 || b[i] == 114),
        )
    }
}

/// The order in a file; the first, not reversed, where there is no file.
pub fn read_sort_prefs(file: Option<&[u8]>) -> (r: (u8, bool))
    ensures
        r == (match file {
            Some(b) => pref_in(b@),
            None => (0, false),
        }),
{
    match file {
        None => (0, false),
        Some(b) => {
            if b.len() == 0 {
                return (0, false);
            }
            let mode: u8 = match b[0] {
                49 => 1,
                50 => 2,
                51 => 3,
                52 => 4,
                _ => 0,
            };
            let mut i: usize = 0;
            while i < b.len() && i < 4
                invariant
                    i <= b.len(),
                    i <= 4,
                    file == Some(b),
                    b.len() > 0,
                    mode == byte_mode(b@[0]),
                    forall|k: int| 0 <= k < i ==> (#[trigger] b@[k]) != 82 && b@[k] != 114,
                decreases b.len() - i,
            {
                if b[i] == 82 || b[i] == 114 {
                    return (mode, true);
                }
                i = i + 1;
            }
            (mode, false)
        },
    }
}

/// The bytes of an ASCII text are its characters.
pub open spec fn ascii_bytes(s: Seq<char>) -> Seq<u8> {
    Seq::new(s.len(), |i: int| s[i] as u8)
}

/// An order is read as it was kept.
pub proof fn sort_pref_round_trip(mode: u8, rev: bool)
    requires
        mode <= 4,
    ensures
        pref_in(ascii_bytes(pref_text(mode as int, rev))) == (mode, rev),
{
    let b = ascii_bytes(pref_text(mode as int, rev));
    assert(b[0] == mode_digit(mode as int) as u8);
    if rev {
        assert(b[1] == 82);
    }
}

/// Sets the order of the game list; the result is its file.
pub fn set_sort_mode(s: &mut Sorting, idx: u8) -> (r: String)
    ensures
        *final(s) == (Sorting { mode: idx, ..*old(s) }),
        r@ == pref_text(idx as int, old(s).reverse),
{
    s.mode = idx;
    write_sort_pref(s.mode, s.reverse)
}

/// Sets whether the game list is reversed; the result is its file.
pub fn set_sort_reverse(s: &mut Sorting, rev: bool) -> (r: String)
    ensures
        *final(s) == (Sorting { reverse: rev, ..*old(s) }),
        r@ == pref_text(old(s).mode as int, rev),
{
    s.reverse = rev;
    write_sort_pref(s.mode, s.reverse)
}

/// The number of orders of the saved URLs: added, name, source, files.
pub const IMPORT_SORT_MODES: usize = 4;

/// The row of the order of the saved URLs.
pub open spec fn import_row(s: Sorting) -> int {
    if s.import_mode < 4 {
        s.import_mode as int
    } else {
        3
    }
}

/// The row of the order of the saved URLs.
pub fn import_sort_index(s: &Sorting) -> (r: usize)
    ensures
        r == import_row(*s),
        r < IMPORT_SORT_MODES,
{
    if (s.import_mode as usize) < IMPORT_SORT_MODES {
        s.import_mode as usize
    } else {
        IMPORT_SORT_MODES - 1
    }
}

/// Are the saved URLs reversed?
pub fn import_sort_reverse(s: &Sorting) -> (r: bool)
    ensures
        r == s.import_reverse,
{
    s.import_reverse
}

/// Sets the order of the saved URLs; the result is its file.
pub fn set_import_sort(s: &mut Sorting, idx: u8, rev: bool) -> (r: String)
    ensures
        *final(s) == (Sorting { import_mode: idx, import_reverse: rev, ..*old(s) }),
        r@ == pref_text(idx as int, rev),
{
    s.import_mode = idx;
    s.import_reverse = rev;
    write_sort_pref(idx, rev)
}

/// The orders as the two files keep them.
pub fn load_sorting(s: &mut Sorting, games: Option<&[u8]>, urls: Option<&[u8]>)
    ensures
        (final(s).mode, final(s).reverse) == (match games {
            Some(b) => pref_in(b@),
            None => (0, false),
        }),
        (final(s).import_mode, final(s).import_reverse) == (match urls {
            Some(b) => pref_in(b@),
            None => (0, false),
        }),
{
    let (mode, rev) = read_sort_prefs(games);
    s.mode = mode;
    s.reverse = rev;
    let (mode2, rev2) = read_sort_prefs(urls);
    s.import_mode = mode2;
    s.import_reverse = rev2;
}

// ── The game list ──────────────────────────────────────────────────────────

/// What a game is ordered by: the most first, then the name.
pub open spec fn entry_key(e: Entry, mode: SortMode, rows: Seq<playtime::Row>) -> order::KeyView {
    order::KeyView {
        num: match mode {
            SortMode::Alpha => 0,
            SortMode::Recent => u64::MAX - e.mtime,
            SortMode::RecentlyPlayed => u64::MAX - playtime::last(rows, e.basename@),
            SortMode::MostPlayed => u64::MAX - playtime::seconds(rows, e.basename@),
            SortMode::Size => u64::MAX - e.size_bytes,
        },
        num2: 0,
        first: text::lowercase(e.display_name@),
        second: Seq::empty(),
    }
}

/// The keys of the games.
pub open spec fn entry_keys(list: Seq<Entry>, mode: SortMode, rows: Seq<playtime::Row>) -> Seq<
    order::KeyView,
> {
    Seq::new(list.len(), |i: int| entry_key(list[i], mode, rows))
}

/// Which games are favourites.
pub open spec fn favored(list: Seq<Entry>, favorites: Seq<String>) -> Seq<bool> {
    Seq::new(list.len(), |i: int| state::listed(favorites, list[i].basename@))
}

/// `after` are the games `before` in the order of the list: the favourites first,
/// then by the order, then as they stood.
pub open spec fn is_sorted(
    before: Seq<Entry>,
    after: Seq<Entry>,
    mode: SortMode,
    reverse: bool,
    rows: Seq<playtime::Row>,
    favorites: Seq<String>,
) -> bool {
    exists|o: Seq<usize>|
        {
            &&& #[trigger] order::is_order(
                entry_keys(before, mode, rows),
                reverse,
                favored(before, favorites),
                o,
            )
            &&& after == order::arranged(before, o)
        }
}

fn key_of_entry(e: &Entry, mode: SortMode, pt: &Playtime) -> (r: Key)
    ensures
        r@ == entry_key(*e, mode, pt@),
{
    let num: u64 = match mode {
        SortMode::Alpha => 0,
        SortMode::Recent => u64::MAX - e.mtime,
        SortMode::RecentlyPlayed => u64::MAX - playtime::get_last(pt, e.basename.as_str()),
        SortMode::MostPlayed => u64::MAX - playtime::get(pt, e.basename.as_str()),
        SortMode::Size => u64::MAX - e.size_bytes,
    };
    let name: String = text::lower(e.display_name.as_str());
    let k: Key = Key { num, num2: 0, first: text::chars_of(name.as_str()), second: Vec::new() };
    assert(k@ =~= entry_key(*e, mode, pt@));
    k
}

/// Puts the games in order, favourites on top.
pub fn sort_entries(
    entries: &mut Vec<Entry>,
    mode: SortMode,
    reverse: bool,
    pt: &Playtime,
    favorites: &Vec<String>,
)
    ensures
        is_sorted(old(entries)@, final(entries)@, mode, reverse, pt@, favorites@),
{
    let ghost before = entries@;
    let mut keys: Vec<Key> = Vec::new();
    let mut pinned: Vec<bool> = Vec::new();
    let mut i: usize = 0;
    while i < entries.len()
        invariant
            i <= entries.len(),
            entries@ == before,
            keys.len() == i,
            pinned.len() == i,
            forall|k: int| 0 <= k < i ==> (#[trigger] keys@[k])@ == entry_key(before[k], mode, pt@),
            forall|k: int|
                0 <= k < i ==> #[trigger] pinned@[k] == state::listed(
                    favorites@,
                    before[k].basename@,
                ),
        decreases entries.len() - i,
    {
        keys.push(key_of_entry(&entries[i], mode, pt));
        pinned.push(state::is_favorite(favorites, entries[i].basename.as_str()));
        i = i + 1;
    }
    let rows: Vec<usize> = order::sorted_rows(&keys, reverse, &pinned);
    proof {
        assert(order::key_views(keys@) =~= entry_keys(before, mode, pt@));
        assert(pinned@ =~= favored(before, favorites@));
    }
    let mut list: Vec<Entry> = Vec::new();
    std::mem::swap(&mut list, entries);
    *entries = order::rearranged(list, &rows);
}

/// The order of the games is the only one: whoever sorts gets the same list.
pub proof fn sorted_list_is_unique(
    before: Seq<Entry>,
    a: Seq<Entry>,
    b: Seq<Entry>,
    mode: SortMode,
    reverse: bool,
    rows: Seq<playtime::Row>,
    favorites: Seq<String>,
)
    requires
        is_sorted(before, a, mode, reverse, rows, favorites),
        is_sorted(before, b, mode, reverse, rows, favorites),
    ensures
        a == b,
{
    let keys = entry_keys(before, mode, rows);
    let pins = favored(before, favorites);
    let oa = choose|o: Seq<usize>| #[trigger]
        order::is_order(keys, reverse, pins, o) && a == order::arranged(before, o);
    let ob = choose|o: Seq<usize>| #[trigger]
        order::is_order(keys, reverse, pins, o) && b == order::arranged(before, o);
    order::order_is_unique(keys, reverse, pins, oa, ob);
}

/// Favourites stand on top, whatever the order.
pub proof fn favorites_lead(
    before: Seq<Entry>,
    after: Seq<Entry>,
    mode: SortMode,
    reverse: bool,
    rows: Seq<playtime::Row>,
    favorites: Seq<String>,
    i: int,
    j: int,
)
    requires
        is_sorted(before, after, mode, reverse, rows, favorites),
        0 <= i < j < after.len(),
        state::listed(favorites, after[j].basename@),
    ensures
        state::listed(favorites, after[i].basename@),
{
    let keys = entry_keys(before, mode, rows);
    let pins = favored(before, favorites);
    let o = choose|o: Seq<usize>| #[trigger]
        order::is_order(keys, reverse, pins, o) && after == order::arranged(before, o);
    assert(order::row_before(keys, reverse, pins, o[i] as int, o[j] as int));
    assert(o[i] < before.len() && o[j] < before.len());
    assert(pins[o[i] as int] == state::listed(favorites, after[i].basename@));
    assert(pins[o[j] as int] == state::listed(favorites, after[j].basename@));
}

/// No game is lost and none is added by sorting.
pub proof fn sorting_keeps_games(
    before: Seq<Entry>,
    after: Seq<Entry>,
    mode: SortMode,
    reverse: bool,
    rows: Seq<playtime::Row>,
    favorites: Seq<String>,
    e: Entry,
)
    requires
        is_sorted(before, after, mode, reverse, rows, favorites),
    ensures
        after.len() == before.len(),
        before.contains(e) == after.contains(e),
{
    let keys = entry_keys(before, mode, rows);
    let pins = favored(before, favorites);
    let o = choose|o: Seq<usize>| #[trigger]
        order::is_order(keys, reverse, pins, o) && after == order::arranged(before, o);
    let n = before.len() as int;
    if before.contains(e) {
        let k = choose|k: int| 0 <= k < n && before[k] == e;
        order::permutation_covers(o, n, k);
        let p = choose|p: int| 0 <= p < n && #[trigger] o[p] == k;
        assert(after[p] == e);
    }
    if after.contains(e) {
        let p = choose|p: int| 0 <= p < n && after[p] == e;
        assert(o[p] < n);
        assert(before[o[p] as int] == e);
    }
}

// ── Sessions ───────────────────────────────────────────────────────────────

/// What the end of a session changes: the launch is over, and where it is known when
/// and what was launched, the seconds since then are counted for that game.
pub open spec fn banked(
    pre: Session,
    rows: Seq<playtime::Row>,
    now: u64,
    freq: u64,
    epoch: u64,
    post: Session,
    after: Seq<playtime::Row>,
) -> bool {
    &&& post == (Session { launch_tick: None, ..pre })
    &&& match (pre.launch_tick, pre.last_played) {
        (Some(start), Some((base, _))) => if freq > 0 && now > start && base@.len() > 0 {
            &&& playtime::lookup(after, base@) == Some(
                playtime::after_session(
                    playtime::lookup(rows, base@),
                    ((now - start) / freq as int) as u64,
                    epoch,
                ),
            )
            &&& forall|other: Seq<char>|
                other != base@ ==> #[trigger] playtime::lookup(after, other) == playtime::lookup(
                    rows,
                    other,
                )
        } else {
            after == rows
        },
        _ => after == rows,
    }
    &&& playtime::distinct(rows) ==> playtime::distinct(after)
}

/// Counts the session that ended: once, and only where a game was launched and
/// the clock went on.
pub fn bank_playtime(session: &mut Session, pt: &mut Playtime, now: u64, freq: u64, epoch: u64)
    ensures
        banked(*old(session), old(pt)@, now, freq, epoch, *final(session), final(pt)@),
{
    let start: Option<u64> = session.launch_tick;
    session.launch_tick = None;
    if let Some(start) = start {
        if let Some((base, _)) = &session.last_played {
            if freq > 0 && now > start {
                let secs: u64 = (now - start) / freq;
                playtime::add(pt, base.as_str(), secs, epoch);
            }
        }
    }
}

/// The name that a game is shown by: the one it was given, unless that is blank.
pub open spec fn shown_name(basename: Seq<char>, given: Option<Seq<char>>) -> Seq<char> {
    match given {
        Some(n) => if text::trimmed(n).len() > 0 {
            n
        } else {
            basename
        },
        None => basename,
    }
}

/// The text of an optional string.
pub open spec fn opt_text(s: Option<&str>) -> Option<Seq<char>> {
    match s {
        Some(t) => Some(t@),
        None => None,
    }
}

/// The name that a game is shown by.
pub fn name_to_show(basename: &str, given: Option<&str>) -> (r: String)
    ensures
        r@ == shown_name(basename@, opt_text(given)),
{
    match given {
        Some(n) => {
            let t: String = text::trim(n);
            if t.unicode_len() > 0 {
                n.to_owned()
            } else {
                basename.to_owned()
            }
        },
        None => basename.to_owned(),
    }
}

/// The game of a path is the one that is played; `given` is the name that it was
/// given. A path without a name changes nothing.
pub fn note_played_from_path(session: &mut Session, path: &str, given: Option<&str>)
    ensures
        names::base_of(path@).len() == 0 ==> *final(session) == *old(session),
        names::base_of(path@).len() > 0 ==> {
            &&& *final(session) == (Session {
                last_played: final(session).last_played,
                ..*old(session)
            })
            &&& (final(session).last_played matches Some(p) && p.0@ == names::base_of(path@)
                && p.1@ == shown_name(names::base_of(path@), opt_text(given)))
        },
{
    let base: String = names::basename_of(path);
    if base.unicode_len() == 0 {
        return;
    }
    let shown: String = name_to_show(base.as_str(), given);
    note_played(session, base.as_str(), shown.as_str());
}

/// A game is played.
pub fn note_played(session: &mut Session, basename: &str, display_name: &str)
    ensures
        *final(session) == (Session { last_played: final(session).last_played, ..*old(session) }),
        final(session).last_played matches Some(p) && p.0@ == basename@ && p.1@ == display_name@,
{
    session.last_played = Some((basename.to_owned(), display_name.to_owned()));
}

/// The shown name of the game that is or was played.
pub fn active_display_name(session: &Session) -> (r: Option<String>)
    ensures
        match r {
            Some(n) => session.last_played matches Some(p) && n@ == p.1@,
            None => session.last_played is None,
        },
{
    match &session.last_played {
        Some((_, n)) => Some(n.clone()),
        None => None,
    }
}

} // verus!
