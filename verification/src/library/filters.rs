//! The rows of a list that match what was searched for.

use crate::library::gallery;
use crate::library::screen::Screen;
use crate::library::state::{Entry, State};
use crate::loc;
use crate::net::RemoteFile;
use crate::text;
use vstd::prelude::*;

verus! {

/// What a search looks for: the text in lower case, without the blanks around it;
/// nothing where that is empty.
pub open spec fn needle_of(filter: Option<String>) -> Option<Seq<char>> {
    match filter {
        Some(f) => {
            let q = text::lowercase(text::trimmed(f@));
            if q.len() == 0 {
                None
            } else {
                Some(q)
            }
        },
        None => None,
    }
}

/// What a search looks for.
pub fn needle(filter: &Option<String>) -> (r: Option<String>)
    ensures
        match r {
            Some(q) => needle_of(*filter) == Some(q@),
            None => needle_of(*filter) == None::<Seq<char>>,
        },
{
    match filter {
        Some(f) => {
            let t: String = text::trim(f.as_str());
            let q: String = text::lower(t.as_str());
            if q.unicode_len() == 0 {
                None
            } else {
                Some(q)
            }
        },
        None => None,
    }
}

/// Does a text hold the needle, whatever the case?
pub open spec fn holds(t: Seq<char>, q: Seq<char>) -> bool {
    text::occurs(text::lowercase(t), q)
}

/// Does a text hold the needle, whatever the case?
pub fn text_holds(t: &str, q: &str) -> (r: bool)
    ensures
        r == holds(t@, q@),
{
    let low: String = text::lower(t);
    text::contains(low.as_str(), q)
}

// ── Rows ───────────────────────────────────────────────────────────────────

/// The rows that are kept, in order.
pub open spec fn kept(keep: Seq<bool>) -> Seq<usize>
    decreases keep.len(),
{
    if keep.len() == 0 {
        Seq::empty()
    } else if keep.last() {
        kept(keep.drop_last()).push((keep.len() - 1) as usize)
    } else {
        kept(keep.drop_last())
    }
}

/// The rows that are kept.
pub fn kept_rows(keep: &Vec<bool>) -> (r: Vec<usize>)
    ensures
        r@ == kept(keep@),
        r@.len() <= keep@.len(),
        forall|i: int| 0 <= i < r@.len() ==> (#[trigger] r@[i]) < keep@.len(),
{
    let mut r: Vec<usize> = Vec::new();
    let mut i: usize = 0;
    assert(keep@.take(0) =~= Seq::empty());
    while i < keep.len()
        invariant
            i <= keep.len(),
            r@ == kept(keep@.take(i as int)),
            r@.len() <= i,
            forall|k: int| 0 <= k < r@.len() ==> (#[trigger] r@[k]) < i,
        decreases keep.len() - i,
    {
        assert(keep@.take(i + 1).drop_last() =~= keep@.take(i as int));
        if keep[i] {
            r.push(i);
        }
        i = i + 1;
    }
    assert(keep@.take(i as int) =~= keep@);
    r
}

/// The kept rows are those that are to be kept, each once, in ascending order.
pub proof fn kept_is_exact(keep: Seq<bool>)
    requires
        keep.len() <= usize::MAX,
    ensures
        forall|i: int|
            0 <= i < kept(keep).len() ==> (#[trigger] kept(keep)[i]) < keep.len()
                && keep[kept(keep)[i] as int],
        forall|i: int, j: int|
            0 <= i < j < kept(keep).len() ==> (#[trigger] kept(keep)[i]) < (#[trigger] kept(
                keep,
            )[j]),
        forall|k: int|
            0 <= k < keep.len() && #[trigger] keep[k] ==> kept(keep).contains(k as usize),
    decreases keep.len(),
{
    if keep.len() > 0 {
        let sub = keep.drop_last();
        kept_is_exact(sub);
        let ks = kept(sub);
        assert forall|k: int| 0 <= k < keep.len() && #[trigger] keep[k] implies kept(keep).contains(
            k as usize,
        ) by {
            if k == keep.len() - 1 {
                assert(kept(keep).last() == k as usize);
            } else {
                assert(sub[k]);
                let p = choose|p: int| 0 <= p < ks.len() && ks[p] == k as usize;
                assert(kept(keep)[p] == k as usize);
            }
        }
        assert forall|i: int| 0 <= i < kept(keep).len() implies (#[trigger] kept(keep)[i])
            < keep.len() && keep[kept(keep)[i] as int] by {
            if i < ks.len() {
                assert(kept(keep)[i] == ks[i]);
                assert(sub[ks[i] as int]);
            }
        }
    }
}

/// Where `x` stands in a list, first.
pub open spec fn place(list: Seq<usize>, x: int, from: int) -> Option<int>
    decreases list.len() - from,
{
    if from < 0 || from >= list.len() {
        None
    } else if list[from] == x {
        Some(from)
    } else {
        place(list, x, from + 1)
    }
}

/// Where `x` stands in a list, first.
pub fn position(list: &Vec<usize>, x: usize) -> (r: Option<usize>)
    ensures
        match r {
            Some(i) => i < list@.len() && place(list@, x as int, 0) == Some(i as int)
                && list@[i as int] == x,
            None => place(list@, x as int, 0) == None::<int>,
        },
{
    let mut i: usize = 0;
    while i < list.len()
        invariant
            i <= list.len(),
            place(list@, x as int, 0) == place(list@, x as int, i as int),
        decreases list.len() - i,
    {
        if list[i] == x {
            return Some(i);
        }
        i = i + 1;
    }
    None
}

/// In a list without repetition an item is found where it stands.
pub proof fn place_is(list: Seq<usize>, i: int, from: int)
    requires
        0 <= from <= i < list.len(),
        forall|a: int, b: int| 0 <= a < b < list.len() ==> list[a] != list[b],
    ensures
        place(list, list[i] as int, from) == Some(i),
    decreases i - from,
{
    if from < i {
        assert(list[from] != list[i]);
        place_is(list, i, from + 1);
    }
}

// ── Remote files ───────────────────────────────────────────────────────────

/// Is the file shown?
pub open spec fn file_kept(f: RemoteFile, q: Option<Seq<char>>) -> bool {
    match q {
        Some(q) => holds(f.name@, q),
        None => true,
    }
}

/// Which files are shown.
pub open spec fn files_kept(files: Seq<RemoteFile>, filter: Option<String>) -> Seq<bool> {
    Seq::new(files.len(), |i: int| file_kept(files[i], needle_of(filter)))
}

/// The rows of the files that are shown.
pub fn filtered_indices(files: &Vec<RemoteFile>, filter: &Option<String>) -> (r: Vec<usize>)
    ensures
        r@ == kept(files_kept(files@, *filter)),
        r@.len() <= files@.len(),
        forall|i: int| 0 <= i < r@.len() ==> (#[trigger] r@[i]) < files@.len(),
{
    let q: Option<String> = needle(filter);
    let mut keep: Vec<bool> = Vec::new();
    let mut i: usize = 0;
    while i < files.len()
        invariant
            i <= files.len(),
            keep@.len() == i,
            match q {
                Some(x) => needle_of(*filter) == Some(x@),
                None => needle_of(*filter) == None::<Seq<char>>,
            },
            forall|k: int|
                0 <= k < i ==> #[trigger] keep@[k] == file_kept(files@[k], needle_of(*filter)),
        decreases files.len() - i,
    {
        let k: bool = match &q {
            Some(x) => text_holds(files[i].name.as_str(), x.as_str()),
            None => true,
        };
        keep.push(k);
        i = i + 1;
    }
    assert(keep@ =~= files_kept(files@, *filter));
    kept_rows(&keep)
}

// ── Games ──────────────────────────────────────────────────────────────────

/// Is the game shown?
pub open spec fn entry_kept(e: Entry, q: Option<Seq<char>>) -> bool {
    match q {
        Some(q) => holds(e.display_name@, q) || holds(e.basename@, q),
        None => true,
    }
}

/// Which games are shown.
pub open spec fn entries_kept(list: Seq<Entry>, filter: Option<String>) -> Seq<bool> {
    Seq::new(list.len(), |i: int| entry_kept(list[i], needle_of(filter)))
}

/// The rows of the games that are shown.
pub open spec fn shown_games(s: State) -> Seq<usize> {
    kept(entries_kept(s.entries@, s.local_filter))
}

/// The rows of the games that are shown.
pub fn local_filtered_indices(entries: &Vec<Entry>, filter: &Option<String>) -> (r: Vec<usize>)
    ensures
        r@ == kept(entries_kept(entries@, *filter)),
        r@.len() <= entries@.len(),
        forall|i: int| 0 <= i < r@.len() ==> (#[trigger] r@[i]) < entries@.len(),
{
    let q: Option<String> = needle(filter);
    let mut keep: Vec<bool> = Vec::new();
    let mut i: usize = 0;
    while i < entries.len()
        invariant
            i <= entries.len(),
            keep@.len() == i,
            match q {
                Some(x) => needle_of(*filter) == Some(x@),
                None => needle_of(*filter) == None::<Seq<char>>,
            },
            forall|k: int|
                0 <= k < i ==> #[trigger] keep@[k] == entry_kept(entries@[k], needle_of(*filter)),
        decreases entries.len() - i,
    {
        let k: bool = match &q {
            Some(x) => text_holds(entries[i].display_name.as_str(), x.as_str()) || text_holds(
                entries[i].basename.as_str(),
                x.as_str(),
            ),
            None => true,
        };
        keep.push(k);
        i = i + 1;
    }
    assert(keep@ =~= entries_kept(entries@, *filter));
    kept_rows(&keep)
}

/// Without a search every row is shown.
pub proof fn no_search_shows_all(n: nat)
    requires
        n <= usize::MAX,
    ensures
        kept(Seq::new(n, |i: int| true)) == Seq::new(n, |i: int| i as usize),
    decreases n,
{
    let all = Seq::new(n, |i: int| true);
    if n > 0 {
        let m = (n - 1) as nat;
        no_search_shows_all(m);
        assert(all.drop_last() =~= Seq::new(m, |i: int| true));
        assert(kept(all) =~= Seq::new(n, |i: int| i as usize));
    } else {
        assert(kept(all) =~= Seq::new(n, |i: int| i as usize));
    }
}

/// The game list with the cursor on game `abs`; on the first row where the search
/// hides the game.
pub open spec fn list_at(s: State, abs: int) -> Screen {
    let pos = match place(shown_games(s), abs, 0) {
        Some(p) => p,
        None => 0,
    };
    Screen::List {
        selection: pos as usize,
        scroll_offset: gallery::scroll_for(
            s.layout.cells@,
            (s.settings.home_view % 4) as int,
            pos,
            s.scroll.jouer as int,
        ) as usize,
    }
}

/// The game list with the cursor on game `abs`.
pub fn list_screen_for_abs(s: &State, abs: usize) -> (r: Screen)
    ensures
        r == list_at(*s, abs as int),
{
    let shown: Vec<usize> = local_filtered_indices(&s.entries, &s.local_filter);
    let pos: usize = match position(&shown, abs) {
        Some(p) => p,
        None => 0,
    };
    let scroll: usize = gallery::gallery_scroll_for(
        &s.layout,
        loc::home_view(&s.settings),
        pos,
        s.scroll.jouer,
    );
    Screen::List { selection: pos, scroll_offset: scroll }
}

/// Going back to a game that is shown puts the cursor on it.
pub proof fn back_on_the_game(s: State, row: int)
    requires
        s.entries@.len() <= usize::MAX,
        0 <= row < shown_games(s).len(),
    ensures
        list_at(s, shown_games(s)[row] as int) matches Screen::List { selection, .. } && selection
            == row,
{
    let v = shown_games(s);
    kept_is_exact(entries_kept(s.entries@, s.local_filter));
    assert forall|a: int, b: int| 0 <= a < b < v.len() implies v[a] != v[b] by {
        assert(v[a] < v[b]);
    }
    place_is(v, row, 0);
    kept_len(entries_kept(s.entries@, s.local_filter));
}

proof fn kept_len(keep: Seq<bool>)
    ensures
        kept(keep).len() <= keep.len(),
    decreases keep.len(),
{
    if keep.len() > 0 {
        kept_len(keep.drop_last());
    }
}

} // verus!
