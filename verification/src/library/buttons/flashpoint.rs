//! The games found on Flashpoint, and their downloads.

use crate::library::buttons::games;
use crate::library::buttons::urls;
use crate::library::buttons::urls::SORT_TARGET_FP;
use crate::library::importer;
use crate::library::screen;
use crate::library::screen::{
    clamp_scroll, distant_idle_at, Button, Effect, Screen, FP_GALLERY_COLS, FP_GALLERY_ROWS,
};
use crate::library::state::{Candidate, Covers, Download, State};
use crate::loc;
use crate::loc::strings::Strings;
use crate::parts;
use crate::text;
use vstd::prelude::*;

verus! {

/// The gallery with the cursor on a game, scrolled so that its row is shown.
pub open spec fn gallery_at(sel: int, scroll: int) -> Screen {
    Screen::FpGallery {
        selection: sel as usize,
        scroll: screen::scrolled_to(scroll, sel / 5, FP_GALLERY_ROWS as int) as usize,
    }
}

/// What a button does on the gallery.
pub open spec fn gallery_step(pre: State, b: Button, sel: int, scroll: int, post: State, e: Effect) -> bool {
    let n = pre.covers.candidates@.len() as int;
    let stay = post == pre && e == Effect::Nothing;
    match b {
        Button::Plus => post == pre && e == (Effect::FpInfo {
            selection: sel as usize,
            scroll: scroll as usize,
        }),
        Button::X => post == pre && e == Effect::SearchFlashpoint,
        Button::BothTriggers => if pre.covers.loading || text::trimmed(pre.covers.query@).len()
            == 0 {
            stay
        } else {
            &&& post == (State {
                covers: Covers {
                    content_filter: !pre.covers.content_filter,
                    ..pre.covers
                },
                ..pre
            })
            &&& e == Effect::SearchAgain
        },
        _ => if pre.covers.loading {
            if b == Button::B || b == Button::Minus {
                &&& post == (State {
                    covers: Covers { loading: false, ..pre.covers },
                    screen: urls::idle(pre, 0),
                    ..pre
                })
                &&& e == Effect::CancelFetch
            } else {
                stay
            }
        } else {
            match b {
                Button::A => if sel < n {
                    post == pre && e == (Effect::DownloadFp {
                        selection: sel as usize,
                        scroll: scroll as usize,
                    })
                } else {
                    stay
                },
                Button::Y => post == (State {
                    screen: Screen::RemoteSortModal {
                        selection: 0,
                        kind: SORT_TARGET_FP,
                        reverse: false,
                        prev_sel: sel as usize,
                        prev_scroll: scroll as usize,
                    },
                    ..pre
                }) && e == Effect::Nothing,
                Button::B => {
                    &&& post == (State {
                        covers: Covers {
                            candidates: post.covers.candidates,
                            msg: post.covers.msg,
                            query: post.covers.query,
                            ..pre.covers
                        },
                        screen: urls::idle(pre, 0),
                        ..pre
                    })
                    &&& games::covers_cleared(post.covers)
                    &&& e == Effect::CancelThumbs
                },
                _ => post == (State {
                    screen: gallery_at(games::grid_move(b, sel, n, 5), scroll),
                    ..pre
                }) && e == Effect::Nothing,
            }
        },
    }
}

/// A button on the gallery.
pub fn handle_fp_gallery_input(s: &mut State, b: Button, selection: usize, scroll: usize) -> (e: Effect)
    requires
        old(s).screen == (Screen::FpGallery { selection, scroll }),
    ensures
        gallery_step(*old(s), b, selection as int, scroll as int, *final(s), e),
{
    match b {
        Button::Plus => {
            return Effect::FpInfo { selection, scroll };
        },
        Button::X => {
            return Effect::SearchFlashpoint;
        },
        Button::BothTriggers => {
            if s.covers.loading {
                return Effect::Nothing;
            }
            let q: String = text::trim(s.covers.query.as_str());
            if q.unicode_len() == 0 {
                return Effect::Nothing;
            }
            s.covers.content_filter = !s.covers.content_filter;
            return Effect::SearchAgain;
        },
        _ => {},
    }
    if s.covers.loading {
        return match b {
            Button::B | Button::Minus => {
                s.covers.loading = false;
                s.screen = distant_idle_at(s.scroll.import, 0);
                Effect::CancelFetch
            },
            _ => Effect::Nothing,
        };
    }
    let n: usize = s.covers.candidates.len();
    match b {
        Button::A => {
            if selection < n {
                return Effect::DownloadFp { selection, scroll };
            }
        },
        Button::Y => {
            s.screen = Screen::RemoteSortModal {
                selection: 0,
                kind: SORT_TARGET_FP,
                reverse: false,
                prev_sel: selection,
                prev_scroll: scroll,
            };
        },
        Button::B => {
            games::clear_covers(&mut s.covers);
            s.screen = distant_idle_at(s.scroll.import, 0);
            return Effect::CancelThumbs;
        },
        _ => {
            let to: usize = games::move_on_grid(b, selection, n, FP_GALLERY_COLS);
            s.screen = Screen::FpGallery {
                selection: to,
                scroll: clamp_scroll(scroll, to / FP_GALLERY_COLS, FP_GALLERY_ROWS),
            };
        },
    }
    Effect::Nothing
}

// ── Searching ──────────────────────────────────────────────────────────────

/// The gallery while a search runs (`Ok`), or with what kept it from starting.
pub open spec fn searching(pre: State, result: Result<(), String>, post: State) -> bool {
    &&& post == (State {
        covers: Covers {
            candidates: post.covers.candidates,
            msg: post.covers.msg,
            query: post.covers.query,
            loading: result is Ok,
            ..pre.covers
        },
        screen: Screen::FpGallery { selection: 0, scroll: 0 },
        ..pre
    })
    &&& post.covers.candidates@.len() == 0
    &&& post.covers.msg@ == (match result {
        Ok(_) => Seq::empty(),
        Err(m) => m@,
    })
}

/// The search for `query` started (`Ok`), or why not.
pub fn fp_search_started(s: &mut State, query: String, result: Result<(), String>)
    ensures
        searching(*old(s), result, *final(s)),
        final(s).covers.query == query,
{
    fp_search_repeated(s, result);
    s.covers.query = query;
}

/// The search for the last term started again (`Ok`), or why not.
pub fn fp_search_repeated(s: &mut State, result: Result<(), String>)
    ensures
        searching(*old(s), result, *final(s)),
        final(s).covers.query == old(s).covers.query,
{
    s.covers.candidates = Vec::new();
    match result {
        Ok(_) => {
            let e: String = String::new();
            assert(e@ =~= Seq::empty());
            s.covers.msg = e;
            s.covers.loading = true;
        },
        Err(m) => {
            s.covers.msg = m;
            s.covers.loading = false;
        },
    }
    s.screen = Screen::FpGallery { selection: 0, scroll: 0 };
}

/// The details of a game came in: its size, where it could be read, and its text.
/// They are shown while the gallery is still there.
pub fn fp_details(s: &mut State, selection: usize, scroll: usize, size: Option<u64>, desc: String)
    ensures
        match old(s).screen {
            Screen::FpGallery { .. } => *final(s) == (State {
                covers: Covers { desc, ..old(s).covers },
                screen: Screen::FpDetails {
                    selection,
                    scroll,
                    size: match size {
                        Some(n) => n,
                        None => 0,
                    },
                },
                ..*old(s)
            }),
            _ => *final(s) == *old(s),
        },
{
    match s.screen {
        Screen::FpGallery { .. } => {
            let size: u64 = match size {
                Some(n) => n,
                None => 0,
            };
            s.covers.desc = desc;
            s.screen = Screen::FpDetails { selection, scroll, size };
        },
        _ => {},
    }
}

// ── Downloading ────────────────────────────────────────────────────────────

/// What the catalogue says of a game's files.
pub struct FpFacts {
    /// The name of its movie on the card.
    pub swf_name: String,
    /// Is it launched as a movie, or as a page?
    pub is_swf: bool,
    pub is_html: bool,
    /// The address of its archive.
    pub archive_url: String,
    /// The address of its movie on the mirror.
    pub mirror_url: Option<String>,
}

/// Where a game's files come from: an archive, or the mirror.
pub open spec fn source_url(c: Candidate, f: FpFacts) -> Option<Seq<char>> {
    if c.zipped {
        Some(f.archive_url@)
    } else {
        match f.mirror_url {
            Some(u) => Some(u@),
            None => None,
        }
    }
}

/// Where a game's files come from.
pub fn fp_source(c: &Candidate, f: &FpFacts) -> (r: Option<String>)
    ensures
        match r {
            Some(u) => source_url(*c, *f) == Some(u@),
            None => source_url(*c, *f) == None::<Seq<char>>,
        },
{
    if c.zipped {
        Some(f.archive_url.clone())
    } else {
        match &f.mirror_url {
            Some(u) => Some(u.clone()),
            None => None,
        }
    }
}

/// Can the game be launched: a movie, or a page in an archive?
pub open spec fn runnable(c: Candidate, f: FpFacts) -> bool {
    f.is_swf || (c.zipped && f.is_html)
}

/// What is downloaded for a game.
pub struct FpRequest {
    pub url: String,
    pub out_path: String,
    /// The movie on the card in the end.
    pub swf_path: String,
    /// Is the download the movie itself?
    pub direct: bool,
}

/// The movie of a game on the card.
pub open spec fn swf_path(f: FpFacts) -> Seq<char> {
    "sdmc:/flashnx/"@ + f.swf_name@
}

/// What is downloaded for a game: its archive, or its movie from the mirror.
pub open spec fn requests(c: Candidate, f: FpFacts, r: FpRequest) -> bool {
    &&& source_url(c, f) == Some(r.url@)
    &&& r.swf_path@ == swf_path(f)
    &&& r.direct == !c.zipped
    &&& r.out_path@ == (if c.zipped {
        "sdmc:/flashnx/.fpdl.zip"@
    } else {
        swf_path(f)
    })
}

/// What is downloaded for the game that was chosen, or why nothing is.
pub open spec fn download_step(
    pre: State,
    selection: int,
    f: FpFacts,
    post: State,
    r: Option<FpRequest>,
) -> bool {
    let lc = loc::table_of(pre.settings.lang);
    let c = pre.covers.candidates@[selection];
    if selection >= pre.covers.candidates@.len() || importer::on_card(pre.entries@, f.swf_name@) {
        r is None && post == pre
    } else if !runnable(c, f) {
        r is None && urls::failed(pre, lc.err_fp_html_game@, post)
    } else if source_url(c, f) is None {
        r is None && urls::failed(pre, lc.err_no_swf@, post)
    } else {
        post == pre && (r matches Some(x) && requests(c, f, x))
    }
}

/// What is downloaded for the game that was chosen. A game that is on the card is
/// passed over; one that cannot be launched, or whose files are nowhere, is
/// refused.
pub fn fp_download(s: &mut State, selection: usize, f: &FpFacts) -> (r: Option<FpRequest>)
    ensures
        download_step(*old(s), selection as int, *f, *final(s), r),
{
    if selection >= s.covers.candidates.len() {
        return None;
    }
    if importer::is_on_card(&s.entries, f.swf_name.as_str()) {
        return None;
    }
    let zipped: bool = s.covers.candidates[selection].zipped;
    let lc: Strings = loc::s(&s.settings);
    if !(f.is_swf || (zipped && f.is_html)) {
        urls::set_distant_error(s, lc.err_fp_html_game.to_owned());
        return None;
    }
    let swf: String = parts::concat("sdmc:/flashnx/", f.swf_name.as_str());
    match fp_source(&s.covers.candidates[selection], f) {
        Some(url) => {
            let out_path: String = if zipped {
                "sdmc:/flashnx/.fpdl.zip".to_owned()
            } else {
                swf.clone()
            };
            Some(FpRequest { url, out_path, swf_path: swf, direct: !zipped })
        },
        None => {
            urls::set_distant_error(s, lc.err_no_swf.to_owned());
            None
        },
    }
}

/// The download of a game started (`Ok`), or why not.
pub fn fp_download_started(
    s: &mut State,
    selection: usize,
    scroll: usize,
    f: &FpFacts,
    req: FpRequest,
    result: Result<(), String>,
)
    ensures
        selection >= old(s).covers.candidates@.len() ==> *final(s) == *old(s),
        selection < old(s).covers.candidates@.len() ==> match result {
            Ok(_) => {
                let c = old(s).covers.candidates@[selection as int];
                let d = final(s).download;
                &&& *final(s) == (State {
                    download: Download {
                        file_name: d.file_name,
                        out_path: req.out_path,
                        source_url: req.url,
                        zip_extract: Some(req.swf_path),
                        fp_direct: req.direct,
                        launch_command: d.launch_command,
                        cover_url: d.cover_url,
                        title: d.title,
                        resume_pos: Some((selection, scroll)),
                        ..old(s).download
                    },
                    screen: Screen::DistantDownloading,
                    ..*old(s)
                })
                &&& d.file_name@ == f.swf_name@
                &&& d.launch_command@ == c.launch_command@
                &&& (d.cover_url matches Some(u) && u@ == c.cover_url@)
                &&& (d.title matches Some(t) && t@ == c.title@)
            },
            Err(m) => urls::failed(*old(s), m@, *final(s)),
        },
{
    if selection >= s.covers.candidates.len() {
        return;
    }
    match result {
        Ok(_) => {
            s.download.file_name = f.swf_name.clone();
            s.download.out_path = req.out_path;
            s.download.source_url = req.url;
            s.download.zip_extract = Some(req.swf_path);
            s.download.fp_direct = req.direct;
            s.download.launch_command = s.covers.candidates[selection].launch_command.clone();
            s.download.cover_url = Some(s.covers.candidates[selection].cover_url.clone());
            s.download.title = Some(s.covers.candidates[selection].title.clone());
            s.download.resume_pos = Some((selection, scroll));
            s.screen = Screen::DistantDownloading;
        },
        Err(m) => {
            urls::set_distant_error(s, m);
        },
    }
}

} // verus!
