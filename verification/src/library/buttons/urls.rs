//! The saved URLs, the imports that start from them, and imports that failed.

use crate::library::filters;
use crate::library::history;
use crate::library::history::Saves;
use crate::library::importer;
use crate::library::names;
use crate::library::screen;
use crate::library::screen::{
    clamp_scroll, distant_idle_at, wrap_down, wrap_up, Button, Effect, PendingClose, Screen,
    DISTANT_VISIBLE_ROWS, IMPORTER_VISIBLE_ROWS,
};
use crate::library::sorting;
use crate::library::state::{Download, History, Remote, State};
use crate::library::buttons::games;
use crate::loc;
use crate::loc::strings::Strings;
use crate::net;
use crate::panel;
use crate::panel::{Toast, TOAST_OK};
use crate::parts;
use crate::text;
use vstd::prelude::*;

verus! {

/// The list that a panel of orders is for.
pub const SORT_TARGET_FILES: u8 = 0;

pub const SORT_TARGET_FP: u8 = 1;

pub const SORT_TARGET_IMPORT: u8 = 2;

/// The saved URLs with the cursor on a row.
pub open spec fn idle(s: State, row: int) -> Screen {
    screen::idle_at(s.scroll.import as int, row)
}

// ── The list ───────────────────────────────────────────────────────────────

/// What a button does on the saved URLs.
pub open spec fn idle_next(s: State, b: Button, sel: int, scroll: int) -> (Screen, Effect) {
    let n = importer::view_of(s.entries@, s.history, s.sorting).len() as int;
    let at = |i: int|
        Screen::DistantIdle {
            selection: i as usize,
            scroll_offset: screen::scrolled_to(scroll, i, IMPORTER_VISIBLE_ROWS as int) as usize,
        };
    let stay = Screen::DistantIdle { selection: sel as usize, scroll_offset: scroll as usize };
    match b {
        Button::Up => (at(screen::up_in(sel, n)), Effect::Nothing),
        Button::Down => (at(screen::down_in(sel, n)), Effect::Nothing),
        Button::X => (stay, Effect::SearchFlashpoint),
        Button::Minus => (stay, Effect::SearchHistory),
        Button::A => match importer::abs_for(s, sel) {
            Some(i) => (
                stay,
                Effect::FetchUrl { url_idx: i, row: sel as usize, scroll: scroll as usize },
            ),
            None => (stay, Effect::AddUrl),
        },
        Button::Plus => match importer::abs_for(s, sel) {
            Some(i) => (Screen::DistantUrlOptions { url_idx: i, selection: 0 }, Effect::Nothing),
            None => (stay, Effect::Nothing),
        },
        Button::Y => (
            Screen::RemoteSortModal {
                selection: sorting::import_row(s.sorting) as usize,
                kind: SORT_TARGET_IMPORT,
                reverse: s.sorting.import_reverse,
                prev_sel: sel as usize,
                prev_scroll: scroll as usize,
            },
            Effect::Nothing,
        ),
        _ => (stay, Effect::Nothing),
    }
}

/// A button on the saved URLs.
pub fn handle_distant_idle_input(s: &mut State, b: Button, selection: usize, scroll: usize) -> (e:
    Effect)
    requires
        old(s).screen == (Screen::DistantIdle { selection, scroll_offset: scroll }),
    ensures
        *final(s) == (State {
            screen: idle_next(*old(s), b, selection as int, scroll as int).0,
            ..*old(s)
        }),
        e == idle_next(*old(s), b, selection as int, scroll as int).1,
{
    match b {
        Button::Up | Button::Down => {
            let v: Vec<usize> = importer::importer_view(&s.entries, &s.history, &s.sorting);
            let last: usize = v.len();
            let to: usize = match b {
                Button::Up => wrap_up(selection, last),
                _ => wrap_down(selection, last),
            };
            s.screen = Screen::DistantIdle {
                selection: to,
                scroll_offset: clamp_scroll(scroll, to, IMPORTER_VISIBLE_ROWS),
            };
        },
        Button::X => {
            return Effect::SearchFlashpoint;
        },
        Button::Minus => {
            return Effect::SearchHistory;
        },
        Button::A => {
            return match importer::importer_abs_for_row(s, selection) {
                Some(i) => Effect::FetchUrl { url_idx: i, row: selection, scroll },
                None => Effect::AddUrl,
            };
        },
        Button::Plus => {
            if let Some(i) = importer::importer_abs_for_row(s, selection) {
                s.screen = Screen::DistantUrlOptions { url_idx: i, selection: 0 };
            }
        },
        Button::Y => {
            s.screen = Screen::RemoteSortModal {
                selection: sorting::import_sort_index(&s.sorting),
                kind: SORT_TARGET_IMPORT,
                reverse: sorting::import_sort_reverse(&s.sorting),
                prev_sel: selection,
                prev_scroll: scroll,
            };
        },
        _ => {},
    }
    Effect::Nothing
}

/// The saved URLs are searched for what was typed: the cursor goes to the first
/// that is left.
pub fn import_searched(s: &mut State, typed: &str)
    ensures
        *final(s) == (State {
            history: History { filter: final(s).history.filter, ..old(s).history },
            screen: idle(
                *old(s),
                if importer::view_of(
                    final(s).entries@,
                    final(s).history,
                    final(s).sorting,
                ).len() == 0 {
                    0
                } else {
                    1
                },
            ),
            ..*old(s)
        }),
        games::typed_filter(typed@, final(s).history.filter),
{
    s.history.filter = games::filter_from(typed);
    let v: Vec<usize> = importer::importer_view(&s.entries, &s.history, &s.sorting);
    let row: usize = if v.len() == 0 {
        0
    } else {
        1
    };
    s.screen = distant_idle_at(s.scroll.import, row);
}

// ── A URL's options ────────────────────────────────────────────────────────

/// What a button does on a URL's options. `now` is the time.
pub open spec fn url_options_step(
    pre: State,
    now: u64,
    b: Button,
    url_idx: int,
    sel: int,
    post: State,
    e: Effect,
) -> bool {
    let u = url_idx as usize;
    let to = |x: Screen| post == (State { screen: x, ..pre }) && e == Effect::Nothing;
    let here = |i: int| to(Screen::DistantUrlOptions { url_idx: u, selection: i as usize });
    let stay = post == pre && e == Effect::Nothing;
    match b {
        Button::Up => here(screen::up_in(sel, 2)),
        Button::Down => here(screen::down_in(sel, 2)),
        Button::A => if sel == 0 {
            if url_idx < pre.history.urls@.len() {
                let url = pre.history.urls@[url_idx]@;
                let rows = history::rows_of(pre.history.meta@);
                let lc = loc::table_of(pre.settings.lang);
                &&& post == (State {
                    history: History { meta: post.history.meta, ..pre.history },
                    toast: post.toast,
                    screen: idle(pre, importer::row_for(post, url_idx)),
                    ..pre
                })
                &&& history::rows_of(post.history.meta@) == history::kept_rows(
                    pre.history,
                    history::with_mark_flipped(rows, url, now),
                    pre.history.urls@,
                )
                &&& panel::says(
                    post.toast,
                    if history::favored(rows, url) {
                        lc.fav_removed@
                    } else {
                        lc.fav_added@
                    },
                    TOAST_OK,
                )
                &&& e == Effect::SaveMeta
            } else {
                stay
            }
        } else if sel == 1 {
            post == pre && e == (Effect::EditUrl { url_idx: u })
        } else if sel == 2 {
            post == (State {
                history: History { index: Some(u), ..pre.history },
                screen: Screen::DistantHistoryConfirm,
                ..pre
            }) && e == Effect::Nothing
        } else {
            stay
        },
        Button::B => to(idle(pre, importer::row_for(pre, url_idx))),
        _ => stay,
    }
}

/// A button on a URL's options: favourite, edit, delete.
pub fn handle_distant_url_options_input(
    s: &mut State,
    now: u64,
    b: Button,
    url_idx: usize,
    selection: usize,
) -> (e: Effect)
    requires
        old(s).screen == (Screen::DistantUrlOptions { url_idx, selection }),
    ensures
        url_options_step(
            *old(s),
            now,
            b,
            url_idx as int,
            selection as int,
            *final(s),
            e,
        ),
{
    match b {
        Button::Up => {
            s.screen = Screen::DistantUrlOptions { url_idx, selection: wrap_up(selection, 2) };
        },
        Button::Down => {
            s.screen = Screen::DistantUrlOptions { url_idx, selection: wrap_down(selection, 2) };
        },
        Button::A => match selection {
            0 => {
                if url_idx < s.history.urls.len() {
                    let url: String = s.history.urls[url_idx].clone();
                    let (fav, _) = history::toggle_url_favorite(&mut s.history, url.as_str(), now);
                    let lc: Strings = loc::s(&s.settings);
                    let msg: &str = if fav {
                        lc.fav_added
                    } else {
                        lc.fav_removed
                    };
                    s.toast = Toast::result(msg, true);
                    let row: usize = importer::importer_row_for_abs(s, url_idx);
                    s.screen = distant_idle_at(s.scroll.import, row);
                    return Effect::SaveMeta;
                }
            },
            1 => {
                return Effect::EditUrl { url_idx };
            },
            2 => {
                s.history.index = Some(url_idx);
                s.screen = Screen::DistantHistoryConfirm;
            },
            _ => {},
        },
        Button::B => {
            let row: usize = importer::importer_row_for_abs(s, url_idx);
            s.screen = distant_idle_at(s.scroll.import, row);
        },
        _ => {},
    }
    Effect::Nothing
}

/// A saved URL was typed anew: a blank one goes. The result is the file to write.
pub fn url_edited(s: &mut State, url_idx: usize, typed: &str) -> (r: Option<String>)
    ensures
        url_idx >= old(s).history.urls@.len() ==> *final(s) == *old(s) && r is None,
        url_idx < old(s).history.urls@.len() ==> {
            &&& *final(s) == (State {
                history: History { urls: final(s).history.urls, ..old(s).history },
                screen: idle(*old(s), importer::row_for(*final(s), url_idx as int)),
                ..*old(s)
            })
            &&& text::texts(final(s).history.urls@) == edited(
                text::texts(old(s).history.urls@),
                url_idx as int,
                text::trimmed(typed@),
            )
            &&& r is Some == old(s).history.loaded
            &&& history::writes_urls(r, text::texts(final(s).history.urls@))
        },
{
    if url_idx >= s.history.urls.len() {
        return None;
    }
    let ghost before = text::texts(s.history.urls@);
    let t: String = text::trim(typed);
    if t.unicode_len() == 0 {
        s.history.urls.remove(url_idx);
        assert(text::texts(s.history.urls@) =~= before.remove(url_idx as int));
    } else {
        s.history.urls.set(url_idx, t);
        assert(text::texts(s.history.urls@) =~= before.update(url_idx as int, t@));
    }
    let file: Option<String> = history::save_history(&s.history);
    let row: usize = importer::importer_row_for_abs(s, url_idx);
    s.screen = distant_idle_at(s.scroll.import, row);
    file
}

/// The URLs with one typed anew; a blank one goes.
pub open spec fn edited(urls: Seq<Seq<char>>, i: int, t: Seq<char>) -> Seq<Seq<char>> {
    if t.len() == 0 {
        urls.remove(i)
    } else {
        urls.update(i, t)
    }
}

/// What a button does where a saved URL is to be removed.
pub open spec fn history_confirm_step(pre: State, b: Button, post: State, e: Effect) -> bool {
    let back = {
        let i = match pre.history.index {
            Some(i) => i as int,
            None => 0,
        };
        &&& post == (State {
            pending_close: Some(PendingClose::Goto(idle(pre, importer::row_for(pre, i)))),
            ..pre
        })
        &&& e == Effect::ClosePanel
    };
    match b {
        Button::A => post == (State { pending_close: Some(PendingClose::DeleteHistory), ..pre })
            && e == Effect::ClosePanel,
        Button::B => back,
        Button::Minus => back,
        _ => post == pre && e == Effect::Nothing,
    }
}

/// A button where a saved URL is to be removed.
pub fn handle_history_confirm_input(s: &mut State, b: Button) -> (e: Effect)
    ensures
        history_confirm_step(*old(s), b, *final(s), e),
{
    match b {
        Button::A => {
            s.pending_close = Some(PendingClose::DeleteHistory);
            Effect::ClosePanel
        },
        Button::B | Button::Minus => {
            let i: usize = match s.history.index {
                Some(i) => i,
                None => 0,
            };
            let row: usize = importer::importer_row_for_abs(s, i);
            s.pending_close = Some(PendingClose::Goto(distant_idle_at(s.scroll.import, row)));
            Effect::ClosePanel
        },
        _ => Effect::Nothing,
    }
}

// ── Downloads in general ───────────────────────────────────────────────────

/// Forgets the download: nothing of it can reach the next one.
pub fn clear_download_state(d: &mut Download)
    ensures
        final(d).idle(),
{
    *d = Download::new();
}

/// An import failed.
pub open spec fn failed(pre: State, msg: Seq<char>, post: State) -> bool {
    &&& post == (State {
        remote: Remote { error: post.remote.error, ..pre.remote },
        screen: Screen::DistantError,
        ..pre
    })
    &&& post.remote.error@ == msg
}

/// An import failed.
pub fn set_distant_error(s: &mut State, msg: String)
    ensures
        failed(*old(s), msg@, *final(s)),
{
    s.remote.error = msg;
    s.screen = Screen::DistantError;
}

// ── Importing a URL ────────────────────────────────────────────────────────

/// What is done to import a URL.
pub enum FetchPlan {
    /// The movie is on the card, or the URL makes no sense: nothing is fetched.
    Nothing,
    /// The movie is downloaded.
    Download { url: String, out_path: String },
    /// The files of an item are listed.
    List { item: String },
}

/// The file on the card that a URL's movie is downloaded to.
pub open spec fn movie_path(raw: Seq<char>) -> Seq<char> {
    "sdmc:/flashnx/"@ + names::url_file_name(raw)
}

/// What is planned for a URL and changed on the way: `raw` is its address of the file
/// itself, `direct` whether it is that of a movie.
pub open spec fn fetch_planned(
    pre: State,
    url: Seq<char>,
    raw: Seq<char>,
    direct: bool,
    post: State,
    r: FetchPlan,
) -> bool {
    let on = importer::on_card(pre.entries@, names::url_file_name(raw));
    &&& post == (State {
        remote: Remote {
            failed_url: post.remote.failed_url,
            error: post.remote.error,
            ..pre.remote
        },
        screen: post.screen,
        ..pre
    })
    &&& post.remote.failed_url@ == url
    &&& if direct {
        &&& post.screen == pre.screen
        &&& post.remote.error == pre.remote.error
        &&& match r {
            FetchPlan::Nothing => on,
            FetchPlan::Download { url: u, out_path } => !on && u@ == raw && out_path@ == movie_path(
                raw,
            ),
            FetchPlan::List { .. } => false,
        }
    } else {
        match net::item_id(url) {
            Some(id) => {
                &&& post.screen == pre.screen
                &&& post.remote.error == pre.remote.error
                &&& (r matches FetchPlan::List { item } && item@ == id)
            },
            None => {
                &&& post.screen == Screen::DistantError
                &&& post.remote.error@ == loc::table_of(pre.settings.lang).err_url_invalid@
                &&& r is Nothing
            },
        }
    }
}

/// Imports a URL: `raw` is its address of the file itself, `direct` whether it is
/// that of a movie. Until it proves good it counts as the one that failed.
pub fn plan_fetch(s: &mut State, url: &str, raw: &str, direct: bool) -> (r: FetchPlan)
    ensures
        fetch_planned(*old(s), url@, raw@, direct, *final(s), r),
{
    s.remote.failed_url = url.to_owned();
    if direct {
        let name: String = names::safe_name_from_url(raw);
        if importer::is_on_card(&s.entries, name.as_str()) {
            return FetchPlan::Nothing;
        }
        let out_path: String = parts::concat("sdmc:/flashnx/", name.as_str());
        return FetchPlan::Download { url: raw.to_owned(), out_path };
    }
    match net::extract_item_id(url) {
        Some(item) => FetchPlan::List { item },
        None => {
            let lc: Strings = loc::s(&s.settings);
            s.remote.error = lc.err_url_invalid.to_owned();
            s.screen = Screen::DistantError;
            FetchPlan::Nothing
        },
    }
}

/// The download of a URL's movie started (`Ok`), or why not. The URL is saved.
pub fn direct_started(s: &mut State, raw: &str, result: Result<(), String>, now: u64) -> (r: Saves)
    ensures
        match result {
            Ok(_) => {
                &&& *final(s) == (State {
                    history: final(s).history,
                    download: Download {
                        file_name: final(s).download.file_name,
                        out_path: final(s).download.out_path,
                        source_url: final(s).download.source_url,
                        resume_pos: None,
                        ..old(s).download
                    },
                    screen: Screen::DistantDownloading,
                    ..*old(s)
                })
                &&& final(s).download.file_name@ == names::url_file_name(raw@)
                &&& final(s).download.out_path@ == movie_path(raw@)
                &&& final(s).download.source_url@ == raw@
                &&& history::pushed(old(s).history, raw@, now, final(s).history, r)
            },
            Err(m) => failed(*old(s), m@, *final(s)) && r.urls is None && r.meta is None,
        },
{
    match result {
        Ok(_) => {
            let saves: Saves = history::push_history(&mut s.history, raw, now);
            let name: String = names::safe_name_from_url(raw);
            s.download.out_path = parts::concat("sdmc:/flashnx/", name.as_str());
            s.download.file_name = name;
            s.download.source_url = raw.to_owned();
            s.download.resume_pos = None;
            s.screen = Screen::DistantDownloading;
            saves
        },
        Err(m) => {
            set_distant_error(s, m);
            Saves { urls: None, meta: None }
        },
    }
}

/// The listing of an item started (`Ok`), or why not.
pub fn archive_started(s: &mut State, url: &str, result: Result<(), String>)
    ensures
        match result {
            Ok(_) => *final(s) == (State {
                remote: Remote { pending_url: final(s).remote.pending_url, ..old(s).remote },
                screen: Screen::DistantLoading,
                ..*old(s)
            }) && final(s).remote.pending_url@ == url@,
            Err(m) => failed(*old(s), m@, *final(s)),
        },
{
    match result {
        Ok(_) => {
            s.remote.pending_url = url.to_owned();
            s.screen = Screen::DistantLoading;
        },
        Err(m) => {
            set_distant_error(s, m);
        },
    }
}

// ── Imports that failed ────────────────────────────────────────────────────

/// Where the notice of a failed import leads back to: the list that the download
/// was started from, else the saved URLs.
pub open spec fn back_from_error(s: State) -> Screen {
    let n = filters::kept(filters::files_kept(s.remote.files@, s.remote.filter)).len() as int;
    match s.download.resume_pos {
        Some((sel, scroll)) => if s.download.zip_extract is Some || s.download.fp_direct {
            Screen::FpGallery { selection: sel, scroll }
        } else if s.remote.files@.len() > 0 {
            let to = if sel < n {
                sel as int
            } else if n > 0 {
                n - 1
            } else {
                0
            };
            Screen::DistantFiles {
                selection: to as usize,
                scroll_offset: screen::scrolled_to(
                    scroll as int,
                    to,
                    DISTANT_VISIBLE_ROWS as int,
                ) as usize,
            }
        } else {
            idle(s, 0)
        },
        None => idle(s, 0),
    }
}

/// What a button does on the notice of a failed import.
pub open spec fn error_step(pre: State, b: Button, post: State, e: Effect) -> bool {
    if b == Button::A || b == Button::B || b == Button::Minus {
        &&& post == (State {
            remote: Remote {
                error: post.remote.error,
                failed_url: post.remote.failed_url,
                ..pre.remote
            },
            download: post.download,
            screen: back_from_error(pre),
            ..pre
        })
        &&& post.remote.error@.len() == 0
        &&& post.remote.failed_url@.len() == 0
        &&& post.download.idle()
        &&& e == Effect::Nothing
    } else if b == Button::Y && pre.remote.failed_url@.len() > 0 {
        post == pre && e == Effect::FixUrl
    } else {
        post == pre && e == Effect::Nothing
    }
}

/// A button on the notice of a failed import.
pub fn handle_error_input(s: &mut State, b: Button) -> (e: Effect)
    ensures
        error_step(*old(s), b, *final(s), e),
{
    match b {
        Button::A | Button::B | Button::Minus => {
            let was_fp: bool = s.download.zip_extract.is_some() || s.download.fp_direct;
            let back: Screen = match s.download.resume_pos {
                Some((sel, scroll)) => if was_fp {
                    Screen::FpGallery { selection: sel, scroll }
                } else if s.remote.files.len() > 0 {
                    let shown: Vec<usize> = filters::filtered_indices(
                        &s.remote.files,
                        &s.remote.filter,
                    );
                    let n: usize = shown.len();
                    let to: usize = if sel < n {
                        sel
                    } else if n > 0 {
                        n - 1
                    } else {
                        0
                    };
                    Screen::DistantFiles {
                        selection: to,
                        scroll_offset: clamp_scroll(scroll, to, DISTANT_VISIBLE_ROWS),
                    }
                } else {
                    distant_idle_at(s.scroll.import, 0)
                },
                None => distant_idle_at(s.scroll.import, 0),
            };
            s.remote.error = String::new();
            s.remote.failed_url = String::new();
            clear_download_state(&mut s.download);
            s.screen = back;
            Effect::Nothing
        },
        Button::Y => {
            if s.remote.failed_url.unicode_len() > 0 {
                Effect::FixUrl
            } else {
                Effect::Nothing
            }
        },
        _ => Effect::Nothing,
    }
}

/// The import that is tried again, and the file to write before.
pub struct Retry {
    pub url: String,
    pub row: usize,
    pub scroll: usize,
    pub file: Option<String>,
}

/// The URL that failed was typed anew: it takes the place of the bad one and is
/// tried again. A blank one changes nothing.
pub fn url_fixed(s: &mut State, typed: &str) -> (r: Option<Retry>)
    ensures
        ({
            let t = text::trimmed(typed@);
            let urls = text::texts(old(s).history.urls@);
            match r {
                None => t.len() == 0 && *final(s) == *old(s),
                Some(x) => {
                    &&& t.len() > 0
                    &&& *final(s) == (State {
                        remote: Remote {
                            error: final(s).remote.error,
                            failed_url: final(s).remote.failed_url,
                            ..old(s).remote
                        },
                        download: final(s).download,
                        history: History { urls: final(s).history.urls, ..old(s).history },
                        ..*old(s)
                    })
                    &&& final(s).remote.error@.len() == 0
                    &&& final(s).remote.failed_url@.len() == 0
                    &&& final(s).download.idle()
                    &&& x.url@ == t
                    &&& match history::place_in(urls, old(s).remote.failed_url@, 0) {
                        Some(p) => {
                            &&& text::texts(final(s).history.urls@) == urls.update(p, t)
                            &&& x.row == importer::row_for(*final(s), p)
                            &&& x.file is Some == old(s).history.loaded
                            &&& history::writes_urls(x.file, urls.update(p, t))
                        },
                        None => final(s).history.urls == old(s).history.urls && x.row == 0
                            && x.file is None,
                    }
                    &&& x.scroll == screen::scrolled_to(
                        old(s).scroll.import as int,
                        x.row as int,
                        IMPORTER_VISIBLE_ROWS as int,
                    )
                },
            }
        }),
{
    let t: String = text::trim(typed);
    if t.unicode_len() == 0 {
        return None;
    }
    let bad: String = s.remote.failed_url.clone();
    s.remote.error = String::new();
    s.remote.failed_url = String::new();
    clear_download_state(&mut s.download);
    let ghost urls = text::texts(s.history.urls@);
    let mut file: Option<String> = None;
    let row: usize = match history::find_url(&s.history, bad.as_str()) {
        Some(p) => {
            file = history::replace_url(&mut s.history, p, t.clone());
            assert(text::texts(s.history.urls@) =~= urls.update(p as int, t@));
            importer::importer_row_for_abs(s, p)
        },
        None => 0,
    };
    let scroll: usize = clamp_scroll(s.scroll.import, row, IMPORTER_VISIBLE_ROWS);
    Some(Retry { url: t, row, scroll, file })
}

} // verus!
