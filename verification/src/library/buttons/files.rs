//! The files of an item, and the orders of the lists of an import.

use crate::library::buttons::games;
use crate::library::buttons::urls;
use crate::library::buttons::urls::{SORT_TARGET_FILES, SORT_TARGET_FP, SORT_TARGET_IMPORT};
use crate::library::filters;
use crate::library::importer;
use crate::library::names;
use crate::library::order;
use crate::library::order::Key;
use crate::library::screen;
use crate::library::screen::{
    clamp_scroll, distant_idle_at, wrap_down, wrap_up, Button, Effect, Screen,
    DISTANT_VISIBLE_ROWS,
};
use crate::library::sorting;
use crate::library::sorting::IMPORT_SORT_MODES;
use crate::library::state::{Candidate, Covers, Download, Remote, Sorting, State};
use crate::loc;
use crate::loc::strings::Strings;
use crate::net::RemoteFile;
use crate::parts;
use crate::text;
use vstd::prelude::*;

verus! {

// ── The files of an item ───────────────────────────────────────────────────

/// The rows of the files that are shown.
pub open spec fn shown_files(s: State) -> Seq<usize> {
    filters::kept(filters::files_kept(s.remote.files@, s.remote.filter))
}

/// What a button does on the files of an item.
pub open spec fn files_next(s: State, b: Button, sel: int, scroll: int) -> (Screen, Effect) {
    let shown = shown_files(s);
    let n = shown.len() as int;
    let at = |i: int|
        Screen::DistantFiles {
            selection: i as usize,
            scroll_offset: screen::scrolled_to(scroll, i, DISTANT_VISIBLE_ROWS as int) as usize,
        };
    let stay = Screen::DistantFiles { selection: sel as usize, scroll_offset: scroll as usize };
    match b {
        Button::Up => (
            if n == 0 {
                stay
            } else {
                at(screen::up_in(sel, n - 1))
            },
            Effect::Nothing,
        ),
        Button::Down => (
            if n == 0 {
                stay
            } else {
                at(screen::down_in(sel, n - 1))
            },
            Effect::Nothing,
        ),
        Button::L => (
            if n == 0 {
                stay
            } else {
                at(
                    if sel > 10 {
                        sel - 10
                    } else {
                        0
                    },
                )
            },
            Effect::Nothing,
        ),
        Button::R => (
            if n == 0 {
                stay
            } else {
                at(
                    if sel + 10 < n - 1 {
                        sel + 10
                    } else {
                        n - 1
                    },
                )
            },
            Effect::Nothing,
        ),
        Button::A => if sel < n && !importer::on_card(
            s.entries@,
            names::card_name(s.remote.files@[shown[sel] as int].name@),
        ) {
            (
                stay,
                Effect::DownloadRemote {
                    file_idx: shown[sel],
                    selection: sel as usize,
                    scroll: scroll as usize,
                },
            )
        } else {
            (stay, Effect::Nothing)
        },
        Button::Y => (
            Screen::RemoteSortModal {
                selection: 0,
                kind: SORT_TARGET_FILES,
                reverse: false,
                prev_sel: sel as usize,
                prev_scroll: scroll as usize,
            },
            Effect::Nothing,
        ),
        Button::B => (stay, Effect::CollapseRemote),
        Button::Minus => (stay, Effect::SearchRemote),
        _ => (stay, Effect::Nothing),
    }
}

fn page_down(selection: usize, n: usize) -> (r: usize)
    requires
        n > 0,
    ensures
        r == (if selection + 10 < n - 1 {
            selection + 10
        } else {
            n - 1
        }),
{
    if n > 11 && selection < n - 11 {
        selection + 10
    } else {
        n - 1
    }
}

/// A button on the files of an item.
pub fn handle_distant_files_input(s: &mut State, b: Button, selection: usize, scroll: usize) -> (e:
    Effect)
    requires
        old(s).screen == (Screen::DistantFiles { selection, scroll_offset: scroll }),
    ensures
        *final(s) == (State {
            screen: files_next(*old(s), b, selection as int, scroll as int).0,
            ..*old(s)
        }),
        e == files_next(*old(s), b, selection as int, scroll as int).1,
{
    let shown: Vec<usize> = filters::filtered_indices(&s.remote.files, &s.remote.filter);
    let n: usize = shown.len();
    match b {
        Button::Up | Button::Down | Button::L | Button::R => {
            if n > 0 {
                let to: usize = match b {
                    Button::Up => wrap_up(selection, n - 1),
                    Button::Down => wrap_down(selection, n - 1),
                    Button::L => if selection > DISTANT_VISIBLE_ROWS {
                        selection - DISTANT_VISIBLE_ROWS
                    } else {
                        0
                    },
                    _ => page_down(selection, n),
                };
                s.screen = Screen::DistantFiles {
                    selection: to,
                    scroll_offset: clamp_scroll(scroll, to, DISTANT_VISIBLE_ROWS),
                };
            }
        },
        Button::A => {
            if selection < n {
                let file_idx: usize = shown[selection];
                let name: String = parts::swap_either(
                    s.remote.files[file_idx].name.as_str(),
                    '/',
                    '\\',
                    '_',
                );
                if !importer::is_on_card(&s.entries, name.as_str()) {
                    return Effect::DownloadRemote { file_idx, selection, scroll };
                }
            }
        },
        Button::Y => {
            s.screen = Screen::RemoteSortModal {
                selection: 0,
                kind: SORT_TARGET_FILES,
                reverse: false,
                prev_sel: selection,
                prev_scroll: scroll,
            };
        },
        Button::B => {
            return Effect::CollapseRemote;
        },
        Button::Minus => {
            return Effect::SearchRemote;
        },
        _ => {},
    }
    Effect::Nothing
}

/// The files are searched for what was typed.
pub fn remote_searched(s: &mut State, typed: &str)
    ensures
        *final(s) == (State {
            remote: Remote { filter: final(s).remote.filter, ..old(s).remote },
            screen: Screen::DistantFiles { selection: 0, scroll_offset: 0 },
            ..*old(s)
        }),
        games::typed_filter(typed@, final(s).remote.filter),
{
    s.remote.filter = games::filter_from(typed);
    s.screen = Screen::DistantFiles { selection: 0, scroll_offset: 0 };
}

/// Where a file of an item is downloaded to.
pub open spec fn file_path(name: Seq<char>) -> Seq<char> {
    "sdmc:/flashnx/"@ + names::card_name(name)
}

/// The address of a file of an item, and where it is downloaded to.
pub fn remote_download(s: &State, file_idx: usize) -> (r: Option<(String, String)>)
    ensures
        match r {
            Some((url, out_path)) => {
                &&& file_idx < s.remote.files@.len()
                &&& url@ == s.remote.files@[file_idx as int].download_url@
                &&& out_path@ == file_path(s.remote.files@[file_idx as int].name@)
            },
            None => file_idx >= s.remote.files@.len(),
        },
{
    if file_idx >= s.remote.files.len() {
        return None;
    }
    let name: String = parts::swap_either(s.remote.files[file_idx].name.as_str(), '/', '\\', '_');
    Some(
        (
            s.remote.files[file_idx].download_url.clone(),
            parts::concat("sdmc:/flashnx/", name.as_str()),
        ),
    )
}

/// The download of a file of an item started (`Ok`), or why not.
pub fn remote_download_started(
    s: &mut State,
    file_idx: usize,
    selection: usize,
    scroll: usize,
    result: Result<(), String>,
)
    ensures
        file_idx >= old(s).remote.files@.len() ==> *final(s) == *old(s),
        file_idx < old(s).remote.files@.len() ==> match result {
            Ok(_) => {
                let f = old(s).remote.files@[file_idx as int];
                &&& *final(s) == (State {
                    download: Download {
                        file_name: final(s).download.file_name,
                        out_path: final(s).download.out_path,
                        source_url: final(s).download.source_url,
                        resume_pos: Some((selection, scroll)),
                        ..old(s).download
                    },
                    screen: Screen::DistantDownloading,
                    ..*old(s)
                })
                &&& final(s).download.file_name@ == f.name@
                &&& final(s).download.out_path@ == file_path(f.name@)
                &&& final(s).download.source_url@ == f.download_url@
            },
            Err(m) => urls::failed(*old(s), m@, *final(s)),
        },
{
    match remote_download(s, file_idx) {
        Some((url, out_path)) => match result {
            Ok(_) => {
                s.download.file_name = s.remote.files[file_idx].name.clone();
                s.download.out_path = out_path;
                s.download.source_url = url;
                s.download.resume_pos = Some((selection, scroll));
                s.screen = Screen::DistantDownloading;
            },
            Err(m) => {
                urls::set_distant_error(s, m);
            },
        },
        None => {},
    }
}

/// What a button does while the files of an item are fetched or a file is
/// downloaded.
pub open spec fn waiting_step(pre: State, b: Button, post: State, e: Effect) -> bool {
    match pre.screen {
        Screen::DistantLoading => if b == Button::B || b == Button::Minus || b == Button::Y {
            post == (State { screen: urls::idle(pre, 0), ..pre }) && e == Effect::CancelFetch
        } else {
            post == pre && e == Effect::Nothing
        },
        Screen::DistantDownloading => if b == Button::B {
            urls::failed(pre, loc::table_of(pre.settings.lang).err_dl_cancelled@, post) && e
                == Effect::CancelDownload
        } else {
            post == pre && e == Effect::Nothing
        },
        _ => post == pre && e == Effect::Nothing,
    }
}

/// A button while the files of an item are fetched or a file is downloaded.
pub fn handle_waiting_input(s: &mut State, b: Button) -> (e: Effect)
    ensures
        waiting_step(*old(s), b, *final(s), e),
{
    match s.screen {
        Screen::DistantLoading => match b {
            Button::B | Button::Minus | Button::Y => {
                s.screen = distant_idle_at(s.scroll.import, 0);
                Effect::CancelFetch
            },
            _ => Effect::Nothing,
        },
        Screen::DistantDownloading => match b {
            Button::B => {
                let lc: Strings = loc::s(&s.settings);
                urls::set_distant_error(s, lc.err_dl_cancelled.to_owned());
                Effect::CancelDownload
            },
            _ => Effect::Nothing,
        },
        _ => Effect::Nothing,
    }
}

// ── Orders ─────────────────────────────────────────────────────────────────

/// What a file is ordered by: the largest first, or the name.
pub open spec fn file_key(f: RemoteFile, by_size: bool) -> order::KeyView {
    order::KeyView {
        num: if by_size {
            u64::MAX - f.size_bytes
        } else {
            0
        },
        num2: 0,
        first: text::lowercase(f.name@),
        second: Seq::empty(),
    }
}

/// What the files are ordered by.
pub open spec fn file_keys(files: Seq<RemoteFile>, by_size: bool) -> Seq<order::KeyView> {
    Seq::new(files.len(), |i: int| file_key(files[i], by_size))
}

/// What the games of the gallery are ordered by.
pub open spec fn title_keys(list: Seq<Candidate>) -> Seq<order::KeyView> {
    Seq::new(list.len(), |i: int| order::text_key(text::lowercase(list[i].title@)))
}

/// Nothing is pinned.
pub open spec fn no_pins(n: nat) -> Seq<bool> {
    Seq::new(n, |i: int| false)
}

/// `after` are the files `before` in order.
pub open spec fn files_sorted(
    before: Seq<RemoteFile>,
    after: Seq<RemoteFile>,
    by_size: bool,
    reverse: bool,
) -> bool {
    exists|o: Seq<usize>|
        {
            &&& #[trigger] order::is_order(
                file_keys(before, by_size),
                reverse,
                no_pins(before.len()),
                o,
            )
            &&& after == order::arranged(before, o)
        }
}

/// Puts the files in order.
pub fn sort_files(files: &mut Vec<RemoteFile>, by_size: bool, reverse: bool)
    ensures
        files_sorted(old(files)@, final(files)@, by_size, reverse),
{
    let ghost before = files@;
    let mut keys: Vec<Key> = Vec::new();
    let mut pins: Vec<bool> = Vec::new();
    let mut i: usize = 0;
    while i < files.len()
        invariant
            i <= files.len(),
            files@ == before,
            keys@.len() == i,
            pins@.len() == i,
            forall|k: int| 0 <= k < i ==> (#[trigger] keys@[k])@ == file_key(before[k], by_size),
            forall|k: int| 0 <= k < i ==> !(#[trigger] pins@[k]),
        decreases files.len() - i,
    {
        let num: u64 = if by_size {
            u64::MAX - files[i].size_bytes
        } else {
            0
        };
        let low: String = text::lower(files[i].name.as_str());
        let k: Key = Key { num, num2: 0, first: text::chars_of(low.as_str()), second: Vec::new() };
        assert(k@ =~= file_key(before[i as int], by_size));
        keys.push(k);
        pins.push(false);
        i = i + 1;
    }
    let o: Vec<usize> = order::sorted_rows(&keys, reverse, &pins);
    proof {
        assert(order::key_views(keys@) =~= file_keys(before, by_size));
        assert(pins@ =~= no_pins(before.len()));
    }
    let mut list: Vec<RemoteFile> = Vec::new();
    std::mem::swap(&mut list, files);
    *files = order::rearranged(list, &o);
}

/// `after` are the games `before` by their titles.
pub open spec fn titles_sorted(before: Seq<Candidate>, after: Seq<Candidate>, reverse: bool) -> bool {
    exists|o: Seq<usize>|
        {
            &&& #[trigger] order::is_order(
                title_keys(before),
                reverse,
                no_pins(before.len()),
                o,
            )
            &&& after == order::arranged(before, o)
        }
}

/// Puts the games of the gallery in order by their titles.
pub fn sort_titles(list: &mut Vec<Candidate>, reverse: bool)
    ensures
        titles_sorted(old(list)@, final(list)@, reverse),
{
    let ghost before = list@;
    let mut keys: Vec<Key> = Vec::new();
    let mut pins: Vec<bool> = Vec::new();
    let mut i: usize = 0;
    while i < list.len()
        invariant
            i <= list.len(),
            list@ == before,
            keys@.len() == i,
            pins@.len() == i,
            forall|k: int|
                0 <= k < i ==> (#[trigger] keys@[k])@ == order::text_key(
                    text::lowercase(before[k].title@),
                ),
            forall|k: int| 0 <= k < i ==> !(#[trigger] pins@[k]),
        decreases list.len() - i,
    {
        let low: String = text::lower(list[i].title.as_str());
        let k: Key = Key {
            num: 0,
            num2: 0,
            first: text::chars_of(low.as_str()),
            second: Vec::new(),
        };
        assert(k@ =~= order::text_key(text::lowercase(before[i as int].title@)));
        keys.push(k);
        pins.push(false);
        i = i + 1;
    }
    let o: Vec<usize> = order::sorted_rows(&keys, reverse, &pins);
    proof {
        assert(order::key_views(keys@) =~= title_keys(before));
        assert(pins@ =~= no_pins(before.len()));
    }
    let mut taken: Vec<Candidate> = Vec::new();
    std::mem::swap(&mut taken, list);
    *list = order::rearranged(taken, &o);
}

/// How many orders a list has.
pub open spec fn sort_count(kind: u8) -> int {
    if kind == SORT_TARGET_FP {
        1
    } else if kind == SORT_TARGET_IMPORT {
        4
    } else {
        2
    }
}

/// How many orders a list has.
pub fn remote_sort_count(kind: u8) -> (r: usize)
    ensures
        r == sort_count(kind),
{
    match kind {
        SORT_TARGET_FP => 1,
        SORT_TARGET_IMPORT => IMPORT_SORT_MODES,
        _ => 2,
    }
}

/// What choosing an order does.
pub open spec fn order_chosen(pre: State, sel: int, kind: u8, reverse: bool, post: State, e: Effect) -> bool {
    if kind == SORT_TARGET_FP {
        &&& post == (State {
            covers: Covers { candidates: post.covers.candidates, ..pre.covers },
            screen: Screen::FpGallery { selection: 0, scroll: 0 },
            ..pre
        })
        &&& titles_sorted(pre.covers.candidates@, post.covers.candidates@, reverse)
        &&& e == Effect::ResetGallery
    } else if kind == SORT_TARGET_IMPORT {
        &&& post == (State {
            sorting: Sorting {
                import_mode: (sel % 256) as u8,
                import_reverse: reverse,
                ..pre.sorting
            },
            screen: urls::idle(
                pre,
                if importer::view_of(post.entries@, post.history, post.sorting).len() == 0 {
                    0
                } else {
                    1
                },
            ),
            ..pre
        })
        &&& e == Effect::SaveImportSort
    } else {
        &&& post == (State {
            remote: Remote { files: post.remote.files, ..pre.remote },
            screen: Screen::DistantFiles { selection: 0, scroll_offset: 0 },
            ..pre
        })
        &&& files_sorted(pre.remote.files@, post.remote.files@, sel == 1, reverse)
        &&& e == Effect::ResetGallery
    }
}

/// What a button does on the orders of a list of an import.
pub open spec fn remote_sort_step(
    pre: State,
    b: Button,
    sel: int,
    kind: u8,
    reverse: bool,
    prev_sel: int,
    prev_scroll: int,
    post: State,
    e: Effect,
) -> bool {
    let (ps, pc) = (prev_sel as usize, prev_scroll as usize);
    let to = |x: Screen| post == (State { screen: x, ..pre }) && e == Effect::Nothing;
    let at = |i: int|
        to(
            Screen::RemoteSortModal {
                selection: i as usize,
                kind,
                reverse,
                prev_sel: ps,
                prev_scroll: pc,
            },
        );
    match b {
        Button::Up => at(
            if sel > 0 {
                sel - 1
            } else {
                sel
            },
        ),
        Button::Down => at(
            if sel + 1 < sort_count(kind) {
                sel + 1
            } else {
                sel
            },
        ),
        Button::X => to(
            Screen::RemoteSortModal {
                selection: sel as usize,
                kind,
                reverse: !reverse,
                prev_sel: ps,
                prev_scroll: pc,
            },
        ),
        Button::A => order_chosen(pre, sel, kind, reverse, post, e),
        Button::B => to(
            if kind == SORT_TARGET_FP {
                Screen::FpGallery { selection: ps, scroll: pc }
            } else if kind == SORT_TARGET_IMPORT {
                Screen::DistantIdle { selection: ps, scroll_offset: pc }
            } else {
                Screen::DistantFiles { selection: ps, scroll_offset: pc }
            },
        ),
        _ => post == pre && e == Effect::Nothing,
    }
}

fn choose_order(s: &mut State, selection: usize, kind: u8, reverse: bool) -> (e: Effect)
    ensures
        order_chosen(*old(s), selection as int, kind, reverse, *final(s), e),
{
    match kind {
        SORT_TARGET_FP => {
            sort_titles(&mut s.covers.candidates, reverse);
            s.screen = Screen::FpGallery { selection: 0, scroll: 0 };
            Effect::ResetGallery
        },
        SORT_TARGET_IMPORT => {
            s.sorting.import_mode = (selection % 256) as u8;
            s.sorting.import_reverse = reverse;
            let v: Vec<usize> = importer::importer_view(&s.entries, &s.history, &s.sorting);
            let row: usize = if v.len() == 0 {
                0
            } else {
                1
            };
            s.screen = distant_idle_at(s.scroll.import, row);
            Effect::SaveImportSort
        },
        _ => {
            sort_files(&mut s.remote.files, selection == 1, reverse);
            s.screen = Screen::DistantFiles { selection: 0, scroll_offset: 0 };
            Effect::ResetGallery
        },
    }
}

/// A button on the orders of a list of an import.
pub fn handle_remote_sort_modal_input(
    s: &mut State,
    b: Button,
    selection: usize,
    kind: u8,
    reverse: bool,
    prev_sel: usize,
    prev_scroll: usize,
) -> (e: Effect)
    requires
        old(s).screen == (Screen::RemoteSortModal {
            selection,
            kind,
            reverse,
            prev_sel,
            prev_scroll,
        }),
    ensures
        remote_sort_step(
            *old(s),
            b,
            selection as int,
            kind,
            reverse,
            prev_sel as int,
            prev_scroll as int,
            *final(s),
            e,
        ),
{
    let n: usize = remote_sort_count(kind);
    match b {
        Button::Up => {
            if selection > 0 {
                s.screen = Screen::RemoteSortModal {
                    selection: selection - 1,
                    kind,
                    reverse,
                    prev_sel,
                    prev_scroll,
                };
            }
        },
        Button::Down => {
            if selection < n - 1 {
                s.screen = Screen::RemoteSortModal {
                    selection: selection + 1,
                    kind,
                    reverse,
                    prev_sel,
                    prev_scroll,
                };
            }
        },
        Button::X => {
            s.screen = Screen::RemoteSortModal {
                selection,
                kind,
                reverse: !reverse,
                prev_sel,
                prev_scroll,
            };
        },
        Button::A => {
            return choose_order(s, selection, kind, reverse);
        },
        Button::B => {
            s.screen = match kind {
                SORT_TARGET_FP => Screen::FpGallery { selection: prev_sel, scroll: prev_scroll },
                SORT_TARGET_IMPORT => Screen::DistantIdle {
                    selection: prev_sel,
                    scroll_offset: prev_scroll,
                },
                _ => Screen::DistantFiles { selection: prev_sel, scroll_offset: prev_scroll },
            };
        },
        _ => {},
    }
    Effect::Nothing
}

/// Turning an order round twice leaves it as it was, and leaving the panel brings
/// back the row that it was opened from.
pub proof fn panel_restores_the_list(
    s: State,
    sel: int,
    kind: u8,
    reverse: bool,
    prev_sel: int,
    prev_scroll: int,
    once: State,
    twice: State,
    e1: Effect,
    e2: Effect,
)
    requires
        s.screen == (Screen::RemoteSortModal {
            selection: sel as usize,
            kind,
            reverse,
            prev_sel: prev_sel as usize,
            prev_scroll: prev_scroll as usize,
        }),
        remote_sort_step(s, Button::X, sel, kind, reverse, prev_sel, prev_scroll, once, e1),
        remote_sort_step(once, Button::X, sel, kind, !reverse, prev_sel, prev_scroll, twice, e2),
    ensures
        twice == s,
{
}

} // verus!
