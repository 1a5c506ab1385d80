//! What happens from frame to frame while nothing is pressed: requests that wait
//! for their panel, panels that open and close, and fetches that end.

use crate::library::buttons::{files, games, urls};
use crate::library::gallery;
use crate::library::history;
use crate::library::history::Saves;
use crate::library::importer;
use crate::library::screen;
use crate::library::screen::{
    clamp_scroll, distant_idle_at, modal_kind, PendingClose, PendingNet, Screen,
    IMPORTER_VISIBLE_ROWS,
};
use crate::library::state::{Candidate, Covers, History, Remote, Scroll, State};
use crate::loc;
use crate::loc::strings::Strings;
use crate::menu;
use crate::menu::Menu;
use crate::net::{ArchivePoll, RemoteFile};
use crate::text;
use vstd::prelude::*;

verus! {

// ── Requests that wait for their panel ─────────────────────────────────────

/// The first frame decides whether the card has to be tidied: not where it was
/// (`tidied`), and not where there is no game.
pub open spec fn tidying_decided(s: State, tidied: bool) -> State {
    if s.migrations_checked {
        s
    } else if tidied || s.entries@.len() == 0 {
        State { migrations_checked: true, ..s }
    } else {
        State {
            migrations_checked: true,
            optimizing: true,
            pending_net: Some((PendingNet::RunStartupMigrations, false)),
            ..s
        }
    }
}

/// What a frame makes of the request that waits: its panel is shown first, then
/// the request is made. A request other than the tidying ends its notice.
pub open spec fn pending_next(s: State) -> (State, Option<PendingNet>) {
    match s.pending_net {
        None => (s, None),
        Some((a, false)) => (State { pending_net: Some((a, true)), ..s }, None),
        Some((a, true)) => (
            State {
                pending_net: None,
                optimizing: s.optimizing && a == PendingNet::RunStartupMigrations,
                ..s
            },
            Some(a),
        ),
    }
}

/// Decides in the first frame whether the card has to be tidied.
fn maybe_arm_startup_migrations(s: &mut State, tidied: bool)
    ensures
        *final(s) == tidying_decided(*old(s), tidied),
{
    if s.migrations_checked {
        return;
    }
    s.migrations_checked = true;
    if tidied || s.entries.len() == 0 {
        return;
    }
    s.optimizing = true;
    s.pending_net = Some((PendingNet::RunStartupMigrations, false));
}

/// Called once per frame before anything is drawn: the request to make now.
/// `tidied` where the card holds both marks of a finished tidying.
pub fn drive_pending_net(s: &mut State, tidied: bool) -> (r: Option<PendingNet>)
    ensures
        (*final(s), r) == pending_next(tidying_decided(*old(s), tidied)),
{
    maybe_arm_startup_migrations(s, tidied);
    match s.pending_net {
        None => None,
        Some((a, shown)) => if shown {
            s.pending_net = None;
            match a {
                PendingNet::RunStartupMigrations => {},
                _ => {
                    s.optimizing = false;
                },
            }
            Some(a)
        } else {
            s.pending_net = Some((a, true));
            None
        },
    }
}

/// The card was tidied.
pub fn migrations_done(s: &mut State)
    ensures
        *final(s) == (State { optimizing: false, ..*old(s) }),
{
    s.optimizing = false;
}

/// A request is made in the second frame after it was put off, not before, and
/// once.
pub proof fn requests_wait_one_frame(s: State, a: PendingNet)
    requires
        s.migrations_checked,
        s.pending_net == Some((a, false)),
    ensures
        ({
            let (s1, r1) = pending_next(s);
            let (s2, r2) = pending_next(s1);
            let (s3, r3) = pending_next(s2);
            &&& r1 is None
            &&& r2 == Some(a)
            &&& r3 is None && s3 == s2
            &&& s1.screen == s.screen
        }),
{
}

/// Whether to tidy is decided once: later frames decide nothing.
pub proof fn tidying_is_decided_once(s: State, tidied: bool, later: bool)
    ensures
        tidying_decided(tidying_decided(s, tidied), later) == tidying_decided(s, tidied),
        pending_next(tidying_decided(s, tidied)).0.migrations_checked,
{
}

// ── Panels ─────────────────────────────────────────────────────────────────

/// Notes the panel of a frame, while none closes; true where it is a new one and
/// opens.
pub fn panel_shown(s: &mut State, m: &Menu, closing: bool) -> (r: bool)
    ensures
        ({
            let k = screen::panel(old(s).screen, menu::kind_of(m.screen));
            if closing {
                !r && *final(s) == *old(s)
            } else {
                &&& r == (k != 0 && k != old(s).last_modal)
                &&& *final(s) == (State { last_modal: k as u8, ..*old(s) })
            }
        }),
{
    if closing {
        return false;
    }
    let k: u8 = modal_kind(s.screen, menu::screen_kind(m));
    let opens: bool = k != 0 && k != s.last_modal;
    s.last_modal = k;
    opens
}

/// What a closed panel asks of the outside.
pub struct Closed {
    /// The list is a new one: no glide from the old place.
    pub reset_gallery: bool,
    /// The saved URLs to write.
    pub urls: Option<String>,
}

/// The game list after a game was deleted: at the game that took its row.
pub open spec fn after_delete(s: State, game_idx: int) -> State {
    if s.entries@.len() == 0 {
        State { screen: Screen::Empty, ..s }
    } else {
        let sel = if game_idx < s.entries@.len() {
            game_idx
        } else {
            s.entries@.len() - 1
        };
        State {
            local_filter: None,
            screen: Screen::List {
                selection: sel as usize,
                scroll_offset: gallery::scroll_for(
                    s.layout.cells@,
                    games::view_of(s),
                    sel,
                    s.scroll.jouer as int,
                ) as usize,
            },
            ..s
        }
    }
}

/// What the end of a panel does, short of noting which panel is shown.
pub open spec fn closed_step(pre: State, m: Menu, mid: State, m2: Menu, r: Closed) -> bool {
    let taken = State { pending_close: None, ..pre };
    match pre.pending_close {
        None => mid == taken && m2 == m && !r.reset_gallery && r.urls is None,
        Some(PendingClose::Goto(to)) => mid == (State { screen: to, ..taken }) && m2 == m
            && !r.reset_gallery && r.urls is None,
        Some(PendingClose::CloseMenuGoto(to)) => mid == (State { screen: to, ..taken }) && m2 == (
        Menu { screen: menu::Screen::Inactive, ..m }) && !r.reset_gallery && r.urls is None,
        Some(PendingClose::DeleteGame { game_idx }) => {
            &&& m2 == m
            &&& r.urls is None
            &&& exists|gone: State| #[trigger]
                games::game_deleted(taken, game_idx as int, gone) && mid == after_delete(
                    gone,
                    game_idx as int,
                ) && r.reset_gallery == (gone.entries@.len() > 0)
        },
        Some(PendingClose::DeleteHistory) => {
            let i = match pre.history.index {
                Some(i) => i as int,
                None => 0,
            };
            &&& m2 == m
            &&& !r.reset_gallery
            &&& history::removed(pre.history, mid.history, r.urls)
            &&& mid == (State {
                history: mid.history,
                screen: screen::idle_at(pre.scroll.import as int, importer::row_for(mid, i)),
                ..taken
            })
        },
    }
}

/// A panel has closed: what was put off until then happens. The files of a game
/// that is deleted are removed outside.
pub fn close_finished(s: &mut State, m: &mut Menu) -> (r: Closed)
    ensures
        closed_step(
            *old(s),
            *old(m),
            State { last_modal: old(s).last_modal, ..*final(s) },
            *final(m),
            r,
        ),
        final(s).last_modal == screen::panel(final(s).screen, menu::kind_of(final(m).screen)),
{
    let ghost pre = *s;
    let pending: Option<PendingClose> = s.pending_close;
    s.pending_close = None;
    let mut reset_gallery: bool = false;
    let mut urls: Option<String> = None;
    match pending {
        None => {},
        Some(PendingClose::Goto(to)) => {
            s.screen = to;
        },
        Some(PendingClose::CloseMenuGoto(to)) => {
            menu::close(m);
            s.screen = to;
        },
        Some(PendingClose::DeleteGame { game_idx }) => {
            games::delete_game(s, game_idx);
            let ghost gone = *s;
            let n: usize = s.entries.len();
            if n == 0 {
                s.screen = Screen::Empty;
            } else {
                s.local_filter = None;
                let sel: usize = if game_idx < n {
                    game_idx
                } else {
                    n - 1
                };
                let view: u8 = loc::home_view(&s.settings);
                let scroll: usize = gallery::gallery_scroll_for(
                    &s.layout,
                    view,
                    sel,
                    s.scroll.jouer,
                );
                s.screen = Screen::List { selection: sel, scroll_offset: scroll };
                reset_gallery = true;
            }
            assert(*s == after_delete(gone, game_idx as int));
        },
        Some(PendingClose::DeleteHistory) => {
            let i: usize = match s.history.index {
                Some(i) => i,
                None => 0,
            };
            urls = history::delete_current_history(&mut s.history);
            let row: usize = importer::importer_row_for_abs(s, i);
            s.screen = distant_idle_at(s.scroll.import, row);
        },
    }
    let ghost mid = *s;
    s.last_modal = modal_kind(s.screen, menu::screen_kind(m));
    assert(mid == (State { last_modal: pre.last_modal, ..*s }));
    Closed { reset_gallery, urls }
}

/// The cover has opened: the game is loaded behind it.
pub fn reveal_finished(s: &mut State)
    ensures
        *final(s) == (State {
            screen: match old(s).screen {
                Screen::Launching { .. } => Screen::Picked,
                other => other,
            },
            ..*old(s)
        }),
{
    if let Screen::Launching { .. } = s.screen {
        s.screen = Screen::Picked;
    }
}

/// The scrolls that the tabs go back to, once a screen was drawn.
pub open spec fn scrolls_noted(s: State) -> Scroll {
    match s.screen {
        Screen::List { scroll_offset, .. } => Scroll { jouer: scroll_offset, ..s.scroll },
        Screen::DistantIdle { scroll_offset, .. } => Scroll { import: scroll_offset, ..s.scroll },
        _ => s.scroll,
    }
}

/// A screen is drawn: its scroll is the one to come back to.
pub fn note_scroll(s: &mut State)
    ensures
        *final(s) == (State { scroll: scrolls_noted(*old(s)), ..*old(s) }),
{
    match s.screen {
        Screen::List { scroll_offset, .. } => {
            s.scroll.jouer = scroll_offset;
        },
        Screen::DistantIdle { scroll_offset, .. } => {
            s.scroll.import = scroll_offset;
        },
        _ => {},
    }
}

/// The languages are drawn; true in the first frame, in which a notice stands for
/// the list whose font is not loaded yet.
pub fn languages_drawn(s: &mut State) -> (r: bool)
    ensures
        r == (old(s).lang_font == 0),
        *final(s) == (State {
            lang_font: if old(s).lang_font == 0 {
                1
            } else {
                2
            },
            ..*old(s)
        }),
{
    let loading: bool = s.lang_font == 0;
    s.lang_font = if loading {
        1
    } else {
        2
    };
    loading
}

/// The fonts are gone with the renderer.
pub fn note_renderer_reset(s: &mut State)
    ensures
        *final(s) == (State { lang_font: 0, ..*old(s) }),
{
    s.lang_font = 0;
}

// ── Fetches that end ───────────────────────────────────────────────────────

/// A search in the catalogue ended: the games by title, or what is said in their
/// place.
pub fn fp_search_ended(s: &mut State, result: Result<Vec<Candidate>, String>)
    ensures
        *final(s) == (State {
            covers: Covers {
                candidates: final(s).covers.candidates,
                msg: final(s).covers.msg,
                loading: false,
                ..old(s).covers
            },
            ..*old(s)
        }),
        match result {
            Ok(list) => {
                &&& files::titles_sorted(list@, final(s).covers.candidates@, false)
                &&& final(s).covers.msg@ == (if list@.len() == 0 {
                    loc::table_of(old(s).settings.lang).cover_none@
                } else {
                    Seq::empty()
                })
            },
            Err(m) => final(s).covers.candidates@.len() == 0 && final(s).covers.msg@ == m@,
        },
{
    match result {
        Ok(list) => {
            let mut list: Vec<Candidate> = list;
            s.covers.msg = if list.len() == 0 {
                let lc: Strings = loc::s(&s.settings);
                lc.cover_none.to_owned()
            } else {
                let e: String = String::new();
                assert(e@ =~= Seq::empty());
                e
            };
            files::sort_titles(&mut list, false);
            s.covers.candidates = list;
        },
        Err(m) => {
            s.covers.candidates = Vec::new();
            s.covers.msg = m;
        },
    }
    s.covers.loading = false;
}

/// What an item that was listed leaves to do.
pub struct Listed {
    /// The saved URLs and their side data to write, then the side data again.
    pub saves: Saves,
    pub totals: Option<String>,
    /// The row and the scroll that the list of files closes to.
    pub row: usize,
    pub scroll: usize,
}

/// The place of a URL in the saved ones, the last where it is not among them.
pub open spec fn saved_place(h: History, url: Seq<char>) -> int {
    match history::place_in(text::texts(h.urls@), url, 0) {
        Some(i) => i,
        None => match history::last_of(h.urls@.len() as int) {
            Some(i) => i as int,
            None => 0,
        },
    }
}

/// The saved URLs once one of them was listed: it is saved, and it is known how
/// many files it holds.
pub open spec fn url_listed(
    pre: History,
    url: Seq<char>,
    total: u32,
    now: u64,
    post: History,
    saves: Saves,
    totals: Option<String>,
) -> bool {
    exists|mid: History| #[trigger]
        history::pushed(pre, url, now, mid, saves) && history::totaled(
            mid,
            url,
            total,
            now,
            post,
            totals,
        )
}

/// The files of an item are shown, its URL is saved with their number, and the
/// list will close to the row that the URL has now.
pub open spec fn item_listed(pre: State, list: Seq<RemoteFile>, now: u64, post: State, r: Listed) -> bool {
    let url = pre.remote.pending_url@;
    &&& post == (State {
        remote: Remote {
            files: post.remote.files,
            failed_url: post.remote.failed_url,
            ..pre.remote
        },
        history: post.history,
        screen: Screen::DistantFiles { selection: 0, scroll_offset: 0 },
        ..pre
    })
    &&& post.remote.files@ == list
    &&& post.remote.failed_url@.len() == 0
    &&& url_listed(
        pre.history,
        url,
        list.len() as u32,
        now,
        post.history,
        r.saves,
        r.totals,
    )
    &&& r.row == importer::row_for(post, saved_place(post.history, url))
    &&& r.scroll == screen::scrolled_to(
        pre.scroll.import as int,
        r.row as int,
        IMPORTER_VISIBLE_ROWS as int,
    )
}

/// A look at the listing of an item.
pub fn archive_polled(s: &mut State, poll: ArchivePoll, now: u64) -> (r: Option<Listed>)
    ensures
        match poll {
            ArchivePoll::Pending => r is None && *final(s) == *old(s),
            ArchivePoll::Error(m) => r is None && urls::failed(*old(s), m@, *final(s)),
            ArchivePoll::Done(list) => if list@.len() == 0 {
                r is None && urls::failed(
                    *old(s),
                    loc::table_of(old(s).settings.lang).err_no_swf@,
                    *final(s),
                )
            } else {
                r matches Some(x) && item_listed(*old(s), list@, now, *final(s), x)
            },
        },
{
    match poll {
        ArchivePoll::Pending => None,
        ArchivePoll::Error(m) => {
            urls::set_distant_error(s, m);
            None
        },
        ArchivePoll::Done(list) => {
            if list.len() == 0 {
                let lc: Strings = loc::s(&s.settings);
                urls::set_distant_error(s, lc.err_no_swf.to_owned());
                return None;
            }
            let total: u32 = list.len() as u32;
            let ghost pre = *s;
            let url: String = s.remote.pending_url.clone();
            s.remote.files = list;
            s.remote.failed_url = String::new();
            s.screen = Screen::DistantFiles { selection: 0, scroll_offset: 0 };
            let saves: Saves = history::push_history(&mut s.history, url.as_str(), now);
            let ghost mid = s.history;
            let totals: Option<String> = history::remember_url_total(
                &mut s.history,
                url.as_str(),
                total,
                now,
            );
            let abs: usize = match history::find_url(&s.history, url.as_str()) {
                Some(i) => i,
                None => if s.history.urls.len() > 0 {
                    s.history.urls.len() - 1
                } else {
                    0
                },
            };
            let row: usize = importer::importer_row_for_abs(s, abs);
            let scroll: usize = clamp_scroll(s.scroll.import, row, IMPORTER_VISIBLE_ROWS);
            let r: Listed = Listed { saves, totals, row, scroll };
            proof {
                assert(history::pushed(pre.history, url@, now, mid, saves));
                assert(url_listed(pre.history, url@, total, now, s.history, saves, totals));
                assert(item_listed(pre, list@, now, *s, r));
            }
            Some(r)
        },
    }
}

/// The list of files has closed to a row of the saved URLs.
pub fn collapse_finished(s: &mut State, row: usize)
    ensures
        ({
            let n = importer::view_of(
                old(s).entries@,
                old(s).history,
                old(s).sorting,
            ).len();
            &&& *final(s) == (State {
                remote: Remote { files: final(s).remote.files, filter: None, ..old(s).remote },
                screen: screen::idle_at(
                    old(s).scroll.import as int,
                    if row < n {
                        row as int
                    } else {
                        n as int
                    },
                ),
                ..*old(s)
            })
            &&& final(s).remote.files@.len() == 0
        }),
{
    s.remote.files = Vec::new();
    s.remote.filter = None;
    let n: usize = importer::importer_view(&s.entries, &s.history, &s.sorting).len();
    let at: usize = if row < n {
        row
    } else {
        n
    };
    s.screen = distant_idle_at(s.scroll.import, at);
}

} // verus!
