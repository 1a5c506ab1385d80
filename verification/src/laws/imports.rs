//! Imports: what is downloaded, and what becomes of it.

use crate::laws;
use crate::laws::games;
use crate::laws::lists;
use crate::library;
use crate::library::buttons::files;
use crate::library::buttons::flashpoint;
use crate::library::buttons::flashpoint::{FpFacts, FpRequest};
use crate::library::buttons::urls;
use crate::library::buttons::urls::FetchPlan;
use crate::library::download;
use crate::library::download::Finished;
use crate::library::importer;
use crate::library::index;
use crate::library::names;
use crate::library::order;
use crate::library::screen::{Button, Effect, Screen};
use crate::library::sorting;
use crate::library::state::{Candidate, Download, Entry, State};
use crate::library::{Facts, Reply};
use crate::loc;
use crate::loc::strings::Strings;
use crate::menu::pad::Keys;
use crate::menu::Menu;
use crate::net;
use crate::net::{RemoteFile, Sink};
use crate::parts;
use crate::text;
use vstd::prelude::*;

verus! {

/// A game of that file name is in the list.
pub open spec fn in_list(list: Seq<Entry>, name: Seq<char>) -> bool {
    exists|i: int| 0 <= i < list.len() && (#[trigger] list[i]).basename@ == name
}

/// A chosen game of the catalogue that is not on the card is requested wherever it can
/// be played: an archive whose command names a movie or a page, or a movie that the
/// mirror has. It is refused as a page only where its command names no movie and the
/// game is no archived page; it is refused as missing only where it is no archive
/// and the mirror has it not. A game that is on the card changes nothing.
pub proof fn a_playable_game_is_requested(
    pre: State,
    sel: int,
    f: FpFacts,
    post: State,
    r: Option<FpRequest>,
)
    requires
        flashpoint::download_step(pre, sel, f, post, r),
        0 <= sel < pre.covers.candidates@.len(),
    ensures
        ({
            let zipped = pre.covers.candidates@[sel].zipped;
            let lc = loc::table_of(pre.settings.lang);
            if in_list(pre.entries@, f.swf_name@) {
                r is None && post == pre
            } else if !f.is_swf && !(zipped && f.is_html) {
                &&& r is None
                &&& post.screen == Screen::DistantError
                &&& post.remote.error@ == lc.err_fp_html_game@
            } else if zipped {
                &&& post == pre
                &&& r matches Some(x)
                &&& x.url@ == f.archive_url@
                &&& !x.direct
                &&& x.out_path@ == "sdmc:/flashnx/.fpdl.zip"@
                &&& x.swf_path@ == "sdmc:/flashnx/"@ + f.swf_name@
            } else {
                match f.mirror_url {
                    Some(u) => {
                        &&& post == pre
                        &&& r matches Some(x)
                        &&& x.url@ == u@
                        &&& x.direct
                        &&& x.out_path@ == "sdmc:/flashnx/"@ + f.swf_name@
                        &&& x.swf_path@ == "sdmc:/flashnx/"@ + f.swf_name@
                    },
                    None => {
                        &&& r is None
                        &&& post.screen == Screen::DistantError
                        &&& post.remote.error@ == lc.err_no_swf@
                    },
                }
            }
        }),
{
    assert(importer::on_card(pre.entries@, f.swf_name@) == in_list(pre.entries@, f.swf_name@));
}

/// A in the list of an item's files downloads the file under the cursor, the one that
/// the search leaves in that row, unless the game is on the card.
pub proof fn the_file_under_the_cursor_is_downloaded(
    pre: State,
    m: Menu,
    keys: Keys,
    f: Facts,
    post: State,
    m2: Menu,
    r: Reply,
    row: usize,
    scroll: usize,
)
    requires
        library::input_step(pre, m, keys, f, Button::A, post, m2, r),
        games::reaches(m, f, Button::A),
        pre.screen == (Screen::DistantFiles { selection: row, scroll_offset: scroll }),
        pre.remote.files@.len() <= usize::MAX,
    ensures
        post == pre,
        ({
            let list = pre.remote.files@;
            let n = lists::files_before(list, pre.remote.filter, list.len() as int);
            &&& row >= n ==> r.effect == Effect::Nothing
            &&& row < n ==> exists|k: int|
                {
                    &&& 0 <= k < list.len()
                    &&& lists::file_found(#[trigger] list[k], pre.remote.filter)
                    &&& lists::files_before(list, pre.remote.filter, k) == row
                    &&& r.effect == (if in_list(pre.entries@, names::card_name(list[k].name@)) {
                        Effect::Nothing
                    } else {
                        Effect::DownloadRemote { file_idx: k as usize, selection: row, scroll }
                    })
                }
        }),
{
    let list = pre.remote.files@;
    lists::shown_files_are_found(list, pre.remote.filter);
    let shown = files::shown_files(pre);
    if row < shown.len() {
        let k = shown[row as int] as int;
        let n = names::card_name(list[k].name@);
        assert(importer::on_card(pre.entries@, n) == in_list(pre.entries@, n));
        assert(lists::file_found(list[k], pre.remote.filter));
    }
}

/// The name of a file on the card is that of the file with each slash, either way, an
/// underscore.
pub proof fn a_card_name_has_no_slash(name: Seq<char>)
    ensures
        names::card_name(name).len() == name.len(),
        forall|i: int|
            0 <= i < name.len() ==> #[trigger] names::card_name(name)[i] == (if name[i] == '/'
                || name[i] == '\\' {
                '_'
            } else {
                name[i]
            }),
{
}

// ── Orders ─────────────────────────────────────────────────────────────────

/// The files of an item stand in order: by size the larger first, then by the
/// lower-case name, then as they stood; or all of it the other way round.
pub proof fn files_stand_in_order(
    before: Seq<RemoteFile>,
    after: Seq<RemoteFile>,
    by_size: bool,
    reverse: bool,
) -> (o: Seq<usize>)
    requires
        files::files_sorted(before, after, by_size, reverse),
    ensures
        o.len() == after.len() == before.len(),
        forall|i: int| 0 <= i < o.len() ==> #[trigger] o[i] < before.len() && after[i] == before[o[i] as int],
        forall|i: int, j: int| 0 <= i < j < o.len() ==> #[trigger] o[i] != #[trigger] o[j],
        forall|i: int, j: int|
            #![trigger o[i], o[j]]
            0 <= i < j < o.len() ==> {
                let (a, b) = if reverse {
                    (o[j] as int, o[i] as int)
                } else {
                    (o[i] as int, o[j] as int)
                };
                let (x, y) = (before[a], before[b]);
                let (p, q) = (text::lowercase(x.name@), text::lowercase(y.name@));
                ||| by_size && x.size_bytes > y.size_bytes
                ||| (by_size ==> x.size_bytes == y.size_bytes) && (laws::comes_first(p, q) || (p
                    == q && a < b))
            },
{
    let keys = files::file_keys(before, by_size);
    let pins = files::no_pins(before.len());
    let o = choose|o: Seq<usize>| #[trigger]
        order::is_order(keys, reverse, pins, o) && after == order::arranged(before, o);
    assert forall|i: int, j: int|
        #![trigger o[i], o[j]]
        0 <= i < j < o.len() implies {
        let (a, b) = if reverse {
            (o[j] as int, o[i] as int)
        } else {
            (o[i] as int, o[j] as int)
        };
        let (x, y) = (before[a], before[b]);
        let (p, q) = (text::lowercase(x.name@), text::lowercase(y.name@));
        ||| by_size && x.size_bytes > y.size_bytes
        ||| (by_size ==> x.size_bytes == y.size_bytes) && (laws::comes_first(p, q) || (p == q && a
            < b))
    } by {
        let (s, t) = (o[i] as int, o[j] as int);
        assert(order::row_before(keys, reverse, pins, s, t));
        assert(keys[s] == files::file_key(before[s], by_size));
        assert(keys[t] == files::file_key(before[t], by_size));
        let (p, q) = (text::lowercase(before[s].name@), text::lowercase(before[t].name@));
        games::text_order(p, q);
        games::text_order(q, p);
        order::before_is_strict(Seq::empty());
        assert(keys[s].num == keys[t].num && p == q ==> keys[s] == keys[t]);
    }
    o
}

/// The games of the gallery stand in the order of their lower-case titles, then as
/// they stood; or all of it the other way round.
pub proof fn titles_stand_in_order(before: Seq<Candidate>, after: Seq<Candidate>, reverse: bool) -> (o:
    Seq<usize>)
    requires
        files::titles_sorted(before, after, reverse),
    ensures
        o.len() == after.len() == before.len(),
        forall|i: int| 0 <= i < o.len() ==> #[trigger] o[i] < before.len() && after[i] == before[o[i] as int],
        forall|i: int, j: int| 0 <= i < j < o.len() ==> #[trigger] o[i] != #[trigger] o[j],
        forall|i: int, j: int|
            #![trigger o[i], o[j]]
            0 <= i < j < o.len() ==> {
                let (a, b) = if reverse {
                    (o[j] as int, o[i] as int)
                } else {
                    (o[i] as int, o[j] as int)
                };
                let (p, q) = (text::lowercase(before[a].title@), text::lowercase(before[b].title@));
                laws::comes_first(p, q) || (p == q && a < b)
            },
{
    let keys = files::title_keys(before);
    let pins = files::no_pins(before.len());
    let o = choose|o: Seq<usize>| #[trigger]
        order::is_order(keys, reverse, pins, o) && after == order::arranged(before, o);
    assert forall|i: int, j: int|
        #![trigger o[i], o[j]]
        0 <= i < j < o.len() implies {
        let (a, b) = if reverse {
            (o[j] as int, o[i] as int)
        } else {
            (o[i] as int, o[j] as int)
        };
        let (p, q) = (text::lowercase(before[a].title@), text::lowercase(before[b].title@));
        laws::comes_first(p, q) || (p == q && a < b)
    } by {
        let (s, t) = (o[i] as int, o[j] as int);
        assert(order::row_before(keys, reverse, pins, s, t));
        let (p, q) = (text::lowercase(before[s].title@), text::lowercase(before[t].title@));
        assert(keys[s] == order::text_key(p) && keys[t] == order::text_key(q));
        games::text_order(p, q);
        games::text_order(q, p);
        order::before_is_strict(Seq::empty());
    }
    o
}

// ── What becomes of a download ─────────────────────────────────────────────

/// A file begins as a movie does: with `FWS`, `CWS` or `ZWS`.
pub open spec fn begins_as_movie(head: Seq<u8>) -> bool {
    head.len() >= 3 && (head.take(3) == seq![0x46u8, 0x57u8, 0x53u8] || head.take(3) == seq![
        0x43u8,
        0x57u8,
        0x53u8,
    ] || head.take(3) == seq![0x5au8, 0x57u8, 0x53u8])
}

/// A file begins as an archive does: with `PK`, 3, 4.
pub open spec fn begins_as_archive(head: Seq<u8>) -> bool {
    head.len() >= 4 && head.take(4) == seq![0x50u8, 0x4bu8, 3u8, 4u8]
}

/// A file that was downloaded is kept only where it is what was asked for: an archive
/// for an archived game of the catalogue, a movie for everything else. Any other file
/// is discarded with an error, and nothing of the download is left for the next one.
pub proof fn only_what_was_asked_for_is_kept(pre: State, head: Seq<u8>, post: State, r: Finished)
    requires
        download::finished_step(pre, head, post, r),
        pre.download.out_path@.len() > 0,
    ensures
        ({
            let d = pre.download;
            let archived = d.zip_extract is Some && !d.fp_direct;
            if archived && begins_as_archive(head) {
                &&& post == pre
                &&& r matches Finished::Archive { zip, swf_path, .. }
                &&& zip@ == d.out_path@
                &&& d.zip_extract == Some(swf_path) || (d.zip_extract matches Some(p) && p@
                    == swf_path@)
            } else if !archived && begins_as_movie(head) {
                &&& post == pre
                &&& if d.fp_direct {
                    r matches Finished::Direct { path, .. } && path@ == d.out_path@
                } else {
                    r matches Finished::Movie { path, source_url } && path@ == d.out_path@
                        && source_url@ == d.source_url@
                }
            } else {
                &&& r matches Finished::Discard { path }
                &&& path@ == d.out_path@
                &&& post.screen == Screen::DistantError
                &&& post.remote.failed_url == pre.remote.failed_url
                &&& post.download.out_path@.len() == 0
                &&& post.download.zip_extract is None
                &&& !post.download.companions.active
                &&& post.entries == pre.entries
            }
        }),
{
    if head.len() >= 3 {
        let h = head.take(3);
        assert(h[0] == head[0] && h[1] == head[1] && h[2] == head[2]);
        if crate::library::swf::magic(head) is Some {
            assert(h =~= seq![head[0], 0x57u8, 0x53u8]);
        }
        let (a, b, c) = (
            seq![0x46u8, 0x57u8, 0x53u8],
            seq![0x43u8, 0x57u8, 0x53u8],
            seq![0x5au8, 0x57u8, 0x53u8],
        );
        assert(a[0] == 0x46 && a[1] == 0x57 && a[2] == 0x53);
        assert(b[0] == 0x43 && b[1] == 0x57 && b[2] == 0x53);
        assert(c[0] == 0x5a && c[1] == 0x57 && c[2] == 0x53);
        assert((crate::library::swf::magic(head) is Some) == begins_as_movie(head));
    }
    if head.len() >= 4 {
        let h = head.take(4);
        let z = seq![0x50u8, 0x4bu8, 3u8, 4u8];
        assert(h[0] == head[0] && h[1] == head[1] && h[2] == head[2] && h[3] == head[3]);
        if download::zip_magic(head) {
            assert(h =~= z);
        }
        assert(z[0] == 0x50 && z[1] == 0x4b && z[2] == 3 && z[3] == 4);
    }
}

// ── Where an import begins and ends ────────────────────────────────────────

/// The address of a movie is downloaded under the name that it ends with, unless a
/// game of that name is on the card.
pub proof fn a_movie_is_downloaded_once(
    pre: State,
    url: Seq<char>,
    raw: Seq<char>,
    post: State,
    r: FetchPlan,
)
    requires
        urls::fetch_planned(pre, url, raw, true, post, r),
    ensures
        post.entries == pre.entries && post.history == pre.history && post.screen == pre.screen,
        in_list(pre.entries@, names::url_file_name(raw)) ==> r is Nothing,
        !in_list(pre.entries@, names::url_file_name(raw)) ==> (r matches FetchPlan::Download {
            url: u,
            out_path,
        } && u@ == raw && out_path@ == "sdmc:/flashnx/"@ + names::url_file_name(raw)),
{
    let n = names::url_file_name(raw);
    assert(importer::on_card(pre.entries@, n) == in_list(pre.entries@, n));
}

/// The address of an item has its files listed; an address of the same shape that
/// names no item is an error.
pub proof fn an_item_is_listed(
    pre: State,
    head: Seq<char>,
    id: Seq<char>,
    tail: Seq<char>,
    raw: Seq<char>,
    post: State,
    r: FetchPlan,
)
    requires
        urls::fetch_planned(
            pre,
            head + seq!['/'] + "details"@ + seq!['/'] + id + tail,
            raw,
            false,
            post,
            r,
        ),
        forall|i: int|
            0 <= i < parts::pieces(head, '/').len() ==> #[trigger] parts::pieces(head, '/')[i]
                != "details"@ && parts::pieces(head, '/')[i] != "download"@,
        id.len() > 0,
        laws::names::without(id, '/'),
        laws::names::begins_with(tail, '/'),
        laws::names::tight(head + seq!['/'] + "details"@ + seq!['/'] + id + tail),
    ensures
        r matches FetchPlan::List { item } && item@ == id,
        post.screen == pre.screen,
{
    laws::names::an_address_names_its_item(head, false, id, tail);
}

/// A game that was imported is in the list afterwards; a game of another file stays,
/// and of the same file none but the new one is left where there was one.
pub proof fn an_imported_game_joins_the_list(
    pre: State,
    path: Seq<char>,
    e: Entry,
    post: State,
    other: Entry,
)
    requires
        download::took_place(pre, path, e, post),
        e.path@ == path,
        pre.entries@.contains(other),
        other.path@ != path,
    ensures
        post.entries@.contains(e),
        post.entries@.contains(other),
        post.favorites == pre.favorites && post.settings == pre.settings && post.screen
            == pre.screen,
{
    let list = pre.entries@;
    let mid = download::with_game(list, path, e);
    let k = choose|k: int| 0 <= k < list.len() && list[k] == other;
    assert(mid.last() == e);
    assert(mid.contains(e));
    place_of_path(list, path, 0);
    match index::entry_at(list, path, 0) {
        Some(i) => {
            if k < i {
                assert(mid[k] == other);
            } else {
                assert(mid[k - 1] == other);
            }
        },
        None => {
            assert(mid[k] == other);
        },
    }
    let mode = sorting::mode_at(pre.sorting.mode as int);
    sorting::sorting_keeps_games(
        mid,
        post.entries@,
        mode,
        pre.sorting.reverse,
        pre.playtime@,
        pre.favorites@,
        e,
    );
    sorting::sorting_keeps_games(
        mid,
        post.entries@,
        mode,
        pre.sorting.reverse,
        pre.playtime@,
        pre.favorites@,
        other,
    );
}

proof fn place_of_path(list: Seq<Entry>, path: Seq<char>, from: int)
    requires
        0 <= from <= list.len(),
    ensures
        index::entry_at(list, path, from) matches Some(i) ==> from <= i < list.len()
            && list[i].path@ == path,
    decreases list.len() - from,
{
    if from < list.len() && list[from].path@ != path {
        place_of_path(list, path, from + 1);
    }
}

/// When the import of a catalogue game is over the gallery is shown again, on the game
/// that was chosen; only the shown name of that game can have changed, and nothing of
/// the download is left.
pub proof fn an_import_ends_where_it_began(pre: State, added: bool, post: State, row: usize, top: usize)
    requires
        download::finalized(pre, added, post),
        pre.download.zip_extract matches Some(p) && p@.len() > 0,
        pre.download.resume_pos == Some((row, top)),
        row < pre.covers.candidates@.len(),
    ensures
        post.screen == (Screen::FpGallery { selection: row, scroll: top }),
        post.entries@.len() == pre.entries@.len(),
        forall|i: int|
            0 <= i < post.entries@.len() ==> {
                let (x, y) = (#[trigger] post.entries@[i], pre.entries@[i]);
                &&& x == (Entry { display_name: x.display_name, ..y })
                &&& y.basename@ != pre.download.file_name@ ==> x == y
            },
        post.download.zip_extract is None && post.download.out_path@.len() == 0,
        post.covers == pre.covers && post.history == pre.history,
{
    first_of_name(pre.entries@, pre.download.file_name@, 0);
}

proof fn first_of_name(list: Seq<Entry>, name: Seq<char>, from: int)
    requires
        0 <= from <= list.len(),
    ensures
        crate::library::buttons::games::game_named(list, name, from) matches Some(i) ==> from <= i
            < list.len() && list[i].basename@ == name,
    decreases list.len() - from,
{
    if from < list.len() && list[from].basename@ != name {
        first_of_name(list, name, from + 1);
    }
}

/// Every file that a game links to is fetched or was: after they are queued each of
/// them is noted.
pub proof fn every_linked_file_is_noted(
    seen: Seq<Seq<char>>,
    queue: Seq<Seq<char>>,
    list: Seq<Seq<char>>,
    i: int,
)
    requires
        0 <= i < list.len(),
    ensures
        ({
            let (s, q) = download::enqueued(seen, queue, list);
            let low = text::ascii_lower(list[i]);
            &&& s.contains(low)
            &&& seen.contains(low) || exists|k: int|
                0 <= k < q.len() && text::ascii_lower(#[trigger] q[k]) == low
        }),
    decreases list.len(),
{
    let d = list.drop_last();
    let (s, q) = download::enqueued(seen, queue, list);
    let (s0, q0) = download::enqueued(seen, queue, d);
    let low = text::ascii_lower(list[i]);
    if i < d.len() {
        every_linked_file_is_noted(seen, queue, d, i);
        let k = choose|k: int| 0 <= k < s0.len() && s0[k] == low;
        assert(s[k] == low);
        if !seen.contains(low) {
            let k = choose|k: int| 0 <= k < q0.len() && text::ascii_lower(#[trigger] q0[k]) == low;
            assert(q[k] == q0[k]);
        }
    } else {
        if s0.contains(low) {
            if !seen.contains(low) {
                noted_is_queued(seen, queue, d, low);
            }
        } else {
            assert(s[s.len() - 1] == low);
            assert(q[q.len() - 1] == list[i]);
        }
    }
}

proof fn noted_is_queued(
    seen: Seq<Seq<char>>,
    queue: Seq<Seq<char>>,
    list: Seq<Seq<char>>,
    low: Seq<char>,
)
    requires
        !seen.contains(low),
        download::enqueued(seen, queue, list).0.contains(low),
    ensures
        exists|k: int|
            0 <= k < download::enqueued(seen, queue, list).1.len() && text::ascii_lower(
                #[trigger] download::enqueued(seen, queue, list).1[k],
            ) == low,
    decreases list.len(),
{
    if list.len() > 0 {
        let d = list.drop_last();
        let (s, q) = download::enqueued(seen, queue, list);
        let (s0, q0) = download::enqueued(seen, queue, d);
        if s0.contains(low) {
            noted_is_queued(seen, queue, d, low);
            let k = choose|k: int| 0 <= k < q0.len() && text::ascii_lower(#[trigger] q0[k]) == low;
            assert(q[k] == q0[k]);
        } else {
            let k = choose|k: int| 0 <= k < s.len() && s[k] == low;
            if k < s0.len() {
                assert(s0[k] == low);
            }
            assert(q[q.len() - 1] == list.last());
        }
    }
}

/// What was typed is what stands in the keyboard's buffer before its first zero.
pub proof fn what_was_typed_ends_at_zero(b: Seq<u8>, n: int)
    requires
        0 <= n <= b.len(),
        n < b.len() ==> b[n] == 0,
        forall|i: int| 0 <= i < n ==> b[i] != 0,
    ensures
        net::before_zero(b) == b.take(n),
    decreases n,
{
    if n > 0 {
        let d = b.drop_first();
        assert forall|i: int| 0 <= i < n - 1 implies d[i] != 0 by {
            assert(d[i] == b[i + 1]);
        }
        what_was_typed_ends_at_zero(d, n - 1);
        assert(seq![b[0]] + d.take(n - 1) =~= b.take(n));
    } else {
        assert(net::before_zero(b) =~= b.take(0));
    }
}

/// The name that is told of an imported game is the title of the catalogue, without
/// the blanks round it, where there is one; else that of the file without `.swf`.
pub proof fn the_title_is_told(d: Download, t: String)
    requires
        d.title == Some(t),
        text::trimmed(t@).len() > 0,
    ensures
        download::told_name(d) == text::trimmed(t@),
{
}

/// A game without a title is told by its file's name, without the ending.
pub proof fn a_file_is_told_without_its_ending(d: Download, stem: Seq<char>)
    requires
        d.title is None,
        d.file_name@ == stem + ".swf"@,
    ensures
        download::told_name(d) == stem,
{
    reveal_strlit(".swf");
    let n = d.file_name@;
    assert(n.subrange(n.len() - 4, n.len() as int) =~= ".swf"@);
    assert(n.take(n.len() - 4) =~= stem);
}

/// The notice of a failed import is left to where the download was started: to the
/// gallery for a game of the catalogue, to the item's files for one of them, else to
/// the saved URLs; and nothing of the download is left.
pub proof fn a_failed_import_leads_back(
    pre: State,
    m: Menu,
    keys: Keys,
    f: Facts,
    b: Button,
    post: State,
    m2: Menu,
    r: Reply,
    row: usize,
    top: usize,
)
    requires
        library::input_step(pre, m, keys, f, b, post, m2, r),
        games::reaches(m, f, b),
        pre.screen == Screen::DistantError,
        b == Button::A || b == Button::B,
        pre.download.resume_pos == Some((row, top)),
        pre.remote.files@.len() <= usize::MAX,
    ensures
        ({
            let d = pre.download;
            let n = lists::files_before(
                pre.remote.files@,
                pre.remote.filter,
                pre.remote.files@.len() as int,
            );
            if d.zip_extract is Some || d.fp_direct {
                post.screen == (Screen::FpGallery { selection: row, scroll: top })
            } else if pre.remote.files@.len() > 0 {
                post.screen matches Screen::DistantFiles { selection, .. } && (row < n ==> selection
                    == row)
            } else {
                post.screen is DistantIdle
            }
        }),
        post.remote.error@.len() == 0 && post.remote.failed_url@.len() == 0,
        post.download.out_path@.len() == 0 && post.download.zip_extract is None,
        post.entries == pre.entries && post.history == pre.history,
{
    lists::shown_files_are_found(pre.remote.files@, pre.remote.filter);
}

/// What is said of a failed transfer: that there is no network, that it took too long,
/// that the page is not there, or that the card or the memory is full.
pub proof fn failures_are_told_apart(lc: Strings, sink: Sink, curl: int, http: int, detail: Seq<char>)
    ensures
        ({
            let t = net::failure_text(lc, sink, curl, http, detail);
            &&& 5 <= curl <= 7 ==> t == lc.err_offline@
            &&& curl == 28 ==> t == lc.err_timeout@
            &&& curl == 60 ==> t == lc.err_tls@
            &&& curl == 23 && sink == Sink::Sd ==> t == lc.err_sd_write@
            &&& curl == 23 && sink == Sink::Memory ==> t == lc.err_response_big@
            &&& curl == 22 && http == 404 ==> t == lc.err_not_found@
        }),
{
}

} // verus!
