//! What is shown of a list that is searched.

use crate::laws;
use crate::library::buttons::games;
use crate::library::filters;
use crate::library::state::Entry;
use crate::net::RemoteFile;
use crate::text;
use vstd::prelude::*;

verus! {

/// The text is found in one of two names, whatever the case; an empty search finds
/// everything.
pub open spec fn searched(first: Seq<char>, second: Seq<char>, f: Option<String>) -> bool {
    match f {
        Some(t) => {
            let q = text::lowercase(text::trimmed(t@));
            ||| q.len() == 0
            ||| laws::found_in(text::lowercase(first), q)
            ||| laws::found_in(text::lowercase(second), q)
        },
        None => true,
    }
}

/// The game is one that the search leaves.
pub open spec fn game_found(e: Entry, f: Option<String>) -> bool {
    searched(e.display_name@, e.basename@, f)
}

/// The file is one that the search leaves.
pub open spec fn file_found(x: RemoteFile, f: Option<String>) -> bool {
    searched(x.name@, x.name@, f)
}

/// How many games before game `n` the search leaves.
pub open spec fn games_before(list: Seq<Entry>, f: Option<String>, n: int) -> nat {
    list.take(n).filter(|e: Entry| game_found(e, f)).len()
}

/// How many files before file `n` the search leaves.
pub open spec fn files_before(list: Seq<RemoteFile>, f: Option<String>, n: int) -> nat {
    list.take(n).filter(|x: RemoteFile| file_found(x, f)).len()
}

pub(crate) proof fn occurrence(t: Seq<char>, q: Seq<char>)
    ensures
        text::occurs(t, q) == laws::found_in(t, q),
{
    assert forall|p: int| 0 <= p && p + q.len() <= t.len() implies t.subrange(p, p + q.len())
        == #[trigger] t.skip(p).take(q.len() as int) by {
        assert(t.subrange(p, p + q.len()) =~= t.skip(p).take(q.len() as int));
    }
    if text::occurs(t, q) {
        let p = choose|p: int| text::occurs_at(t, q, p);
        assert(t.skip(p).take(q.len() as int) == q);
    }
    if laws::found_in(t, q) {
        let p = choose|p: int|
            0 <= p <= t.len() && q.len() <= t.len() - p && #[trigger] t.skip(p).take(
                q.len() as int,
            ) == q;
        assert(text::occurs_at(t, q, p));
    }
}

pub(crate) proof fn game_kept(e: Entry, f: Option<String>)
    ensures
        filters::entry_kept(e, filters::needle_of(f)) == game_found(e, f),
{
    if let Some(t) = f {
        let q = text::lowercase(text::trimmed(t@));
        occurrence(text::lowercase(e.display_name@), q);
        occurrence(text::lowercase(e.basename@), q);
    }
}

pub(crate) proof fn file_kept(x: RemoteFile, f: Option<String>)
    ensures
        filters::file_kept(x, filters::needle_of(f)) == file_found(x, f),
{
    if let Some(t) = f {
        let q = text::lowercase(text::trimmed(t@));
        occurrence(text::lowercase(x.name@), q);
    }
}

/// The rows that are kept, counted: row `i` is that of an item before which `i` items
/// are kept.
pub(crate) proof fn kept_counts<T>(list: Seq<T>, p: spec_fn(T) -> bool, keep: Seq<bool>)
    requires
        keep.len() == list.len() <= usize::MAX,
        forall|i: int| 0 <= i < list.len() ==> #[trigger] keep[i] == p(list[i]),
    ensures
        filters::kept(keep).len() == list.filter(p).len(),
        forall|i: int|
            0 <= i < filters::kept(keep).len() ==> {
                let k = #[trigger] filters::kept(keep)[i];
                k < list.len() && p(list[k as int]) && list.take(k as int).filter(p).len() == i
            },
    decreases list.len(),
{
    reveal(Seq::filter);
    if list.len() > 0 {
        let (l, s) = (list.drop_last(), keep.drop_last());
        assert forall|i: int| 0 <= i < l.len() implies #[trigger] s[i] == p(l[i]) by {
            assert(s[i] == keep[i]);
        }
        kept_counts(l, p, s);
        let n = list.len() - 1;
        assert(keep[n] == p(list[n]));
        assert(list.take(n) =~= l);
        assert forall|i: int| 0 <= i < filters::kept(keep).len() implies {
            let k = #[trigger] filters::kept(keep)[i];
            k < list.len() && p(list[k as int]) && list.take(k as int).filter(p).len() == i
        } by {
            if i < filters::kept(s).len() {
                let k = filters::kept(s)[i];
                assert(filters::kept(keep)[i] == k);
                assert(l.take(k as int) =~= list.take(k as int));
            }
        }
    }
}

/// Row by row the game list shows the games that the search leaves, in their order:
/// in row `i` the one before which the search leaves `i` games, and no row is shown
/// more.
pub proof fn shown_games_are_found(list: Seq<Entry>, f: Option<String>)
    requires
        list.len() <= usize::MAX,
    ensures
        ({
            let shown = filters::kept(filters::entries_kept(list, f));
            &&& shown.len() == games_before(list, f, list.len() as int)
            &&& forall|i: int|
                0 <= i < shown.len() ==> {
                    let g = #[trigger] shown[i] as int;
                    g < list.len() && game_found(list[g], f) && games_before(list, f, g) == i
                }
        }),
{
    let p = |e: Entry| game_found(e, f);
    let keep = filters::entries_kept(list, f);
    assert forall|i: int| 0 <= i < list.len() implies #[trigger] keep[i] == p(list[i]) by {
        game_kept(list[i], f);
    }
    kept_counts(list, p, keep);
    assert(list.take(list.len() as int) =~= list);
}

/// Row by row the list of an item's files shows those that the search leaves, in
/// their order, and no row is shown more.
pub proof fn shown_files_are_found(list: Seq<RemoteFile>, f: Option<String>)
    requires
        list.len() <= usize::MAX,
    ensures
        ({
            let shown = filters::kept(filters::files_kept(list, f));
            &&& shown.len() == files_before(list, f, list.len() as int)
            &&& forall|i: int|
                0 <= i < shown.len() ==> {
                    let g = #[trigger] shown[i] as int;
                    g < list.len() && file_found(list[g], f) && files_before(list, f, g) == i
                }
        }),
{
    let p = |x: RemoteFile| file_found(x, f);
    let keep = filters::files_kept(list, f);
    assert forall|i: int| 0 <= i < list.len() implies #[trigger] keep[i] == p(list[i]) by {
        file_kept(list[i], f);
    }
    kept_counts(list, p, keep);
    assert(list.take(list.len() as int) =~= list);
}

/// What is typed into a search is what is searched for, without the blanks round it: a
/// game is left where its shown name or its file's name holds the text, whatever the
/// case. A blank text ends the search.
pub proof fn what_is_typed_is_searched(typed: Seq<char>, f: Option<String>, e: Entry)
    requires
        games::typed_filter(typed, f),
    ensures
        ({
            let q = text::lowercase(text::trimmed(typed));
            &&& text::trimmed(typed).len() == 0 ==> game_found(e, f)
            &&& text::trimmed(typed).len() > 0 && q.len() > 0 ==> (game_found(e, f)
                <==> laws::found_in(text::lowercase(e.display_name@), q) || laws::found_in(
                text::lowercase(e.basename@),
                q,
            ))
        }),
{
    text::trimmed_twice(typed);
}

} // verus!
