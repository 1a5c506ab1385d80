//! What the buttons do on pictures, languages, profiles and confirmations.

use crate::laws;
use crate::laws::games;
use crate::laws::urls;
use crate::library;
use crate::library::buttons::touches;
use crate::library::history;
use crate::library::screen::{Button, Effect, PendingClose, PendingNet, Screen};
use crate::library::state::State;
use crate::library::touch;
use crate::library::{Facts, Reply};
use crate::loc::Lang;
use crate::menu::pad::Keys;
use crate::menu::Menu;
use crate::profiles;
use vstd::prelude::*;

verus! {

// ── Pictures ───────────────────────────────────────────────────────────────

/// Where a direction leads from picture `at` of `n` that stand in rows of `cols`: to
/// the one beside it in reading order, or to the one above or below; nowhere where
/// there is none.
pub open spec fn picture_beside(b: Button, at: int, n: int, cols: int) -> int {
    let to = if b == Button::Left {
        at - 1
    } else if b == Button::Right {
        at + 1
    } else if b == Button::Up {
        at - cols
    } else if b == Button::Down {
        at + cols
    } else {
        at
    };
    if 0 <= to < n {
        to
    } else {
        at
    }
}

/// The button is a direction.
pub open spec fn direction(b: Button) -> bool {
    b == Button::Left || b == Button::Right || b == Button::Up || b == Button::Down
}

/// On the covers found for a game, four in a row, a direction leads to the cover on
/// that side; A takes the cover under the cursor for that game, Y changes the source
/// of the pictures.
pub proof fn the_covers_are_walked(
    pre: State,
    m: Menu,
    keys: Keys,
    f: Facts,
    b: Button,
    post: State,
    m2: Menu,
    r: Reply,
    g: usize,
    at: usize,
)
    requires
        library::input_step(pre, m, keys, f, b, post, m2, r),
        games::reaches(m, f, b),
        pre.screen == (Screen::CoverPicker { game_idx: g, selection: at }),
        at < pre.covers.candidates@.len() <= usize::MAX,
    ensures
        direction(b) ==> post == (State { screen: post.screen, ..pre }) && r.effect
            == Effect::Nothing && (post.screen matches Screen::CoverPicker { game_idx, selection }
            && game_idx == g && selection == picture_beside(
            b,
            at as int,
            pre.covers.candidates@.len() as int,
            4,
        )),
        b == Button::A ==> post == pre && r.effect == (Effect::FetchCover {
            game_idx: g,
            selection: at,
        }),
        b == Button::Y ==> post.covers.use_shot == !pre.covers.use_shot && post.covers.candidates
            == pre.covers.candidates && post.screen == pre.screen,
        post.entries == pre.entries,
{
}

/// On the games of the catalogue, five in a row, a direction leads to the game on that
/// side, which is then among the three rows that are shown; A downloads the game under
/// the cursor, Plus shows what is known of it.
pub proof fn the_catalogue_is_walked(
    pre: State,
    m: Menu,
    keys: Keys,
    f: Facts,
    b: Button,
    post: State,
    m2: Menu,
    r: Reply,
    at: usize,
    scroll: usize,
)
    requires
        library::input_step(pre, m, keys, f, b, post, m2, r),
        games::reaches(m, f, b),
        pre.screen == (Screen::FpGallery { selection: at, scroll }),
        !pre.covers.loading,
        at < pre.covers.candidates@.len() <= usize::MAX,
    ensures
        direction(b) ==> post == (State { screen: post.screen, ..pre }) && r.effect
            == Effect::Nothing && (post.screen matches Screen::FpGallery { selection, scroll }
            && selection == picture_beside(
            b,
            at as int,
            pre.covers.candidates@.len() as int,
            5,
        ) && scroll <= selection / 5 < scroll + 3),
        b == Button::A ==> post == pre && r.effect == (Effect::DownloadFp {
            selection: at,
            scroll,
        }),
        b == Button::Plus ==> post == pre && r.effect == (Effect::FpInfo { selection: at, scroll }),
        post.entries == pre.entries,
{
}

// ── Languages ──────────────────────────────────────────────────────────────

/// The language in a cell of the picker.
pub open spec fn language_in(cell: int) -> Lang {
    seq![
        Lang::En,
        Lang::Fr,
        Lang::Es,
        Lang::Ru,
        Lang::De,
        Lang::It,
        Lang::Pt,
        Lang::Zh,
        Lang::Tr,
    ][cell]
}

/// On the languages, three in a row, Left and Right go through all nine and on round
/// the ends, Up and Down through those of a column. A takes the language in the cell;
/// Chinese needs its letters, and is English without them.
pub proof fn the_languages_are_walked(
    pre: State,
    m: Menu,
    keys: Keys,
    f: Facts,
    b: Button,
    post: State,
    m2: Menu,
    r: Reply,
    at: usize,
)
    requires
        library::input_step(pre, m, keys, f, b, post, m2, r),
        games::reaches(m, f, b),
        pre.screen == (Screen::SettingsLanguagePicker { selection: at }),
        at < 9,
    ensures
        direction(b) ==> post == (State { screen: post.screen, ..pre }) && r.effect
            == Effect::Nothing && (post.screen matches Screen::SettingsLanguagePicker { selection }
            && selection < 9 && (b == Button::Right ==> selection == (at + 1) % 9) && (b
            == Button::Left ==> at == (selection + 1) % 9) && (b == Button::Down ==> selection == (
        at + 3) % 9) && (b == Button::Up ==> at == (selection + 3) % 9)),
        b == Button::A ==> {
            &&& post.settings.lang == (if at == 7 && !f.cjk {
                Lang::En
            } else {
                language_in(at as int)
            })
            &&& r.effect == (Effect::SaveLanguage { index: at })
            &&& post.settings.home_view == pre.settings.home_view
            &&& post.settings.display_mode == pre.settings.display_mode
            &&& post.settings.screen_filter == pre.settings.screen_filter
        },
        b != Button::A ==> post.settings == pre.settings,
        post.entries == pre.entries,
{
}

// ── Profiles ───────────────────────────────────────────────────────────────

/// The profile is one that this installation shared: its id ends with a hyphen and the
/// installation's.
pub open spec fn ends_as_mine(id: Seq<char>, install: Seq<char>) -> bool {
    &&& install.len() > 0
    &&& id.len() > install.len()
    &&& id[id.len() - install.len() - 1] == '-'
    &&& id.skip(id.len() - install.len()) == install
}

/// On the profiles of a game A shows the one under the cursor; X asks to delete it,
/// where this installation shared it, and does nothing where it did not.
pub proof fn only_own_profiles_are_deleted(
    pre: State,
    m: Menu,
    keys: Keys,
    f: Facts,
    b: Button,
    post: State,
    m2: Menu,
    r: Reply,
    g: usize,
    at: usize,
)
    requires
        library::input_step(pre, m, keys, f, b, post, m2, r),
        games::reaches(m, f, b),
        pre.screen == (Screen::ProfileList { game_idx: g, selection: at }),
        at < pre.touches.matches@.len(),
        b == Button::A || b == Button::X,
    ensures
        b == Button::A ==> post == pre && r.effect == (Effect::OpenPreview {
            game_idx: g,
            profile_idx: at,
        }),
        b == Button::X ==> r.effect == Effect::Nothing && post == (State {
            screen: if ends_as_mine(
                pre.touches.matches@[at as int].profile.id@,
                f.install@,
            ) {
                Screen::ProfileDeleteConfirm { game_idx: g, profile_idx: at }
            } else {
                pre.screen
            },
            ..pre
        }),
{
    mine_is_by_ending(pre.touches.matches@[at as int].profile.id@, f.install@);
}

pub(crate) proof fn mine_is_by_ending(id: Seq<char>, install: Seq<char>)
    ensures
        profiles::shared_by(id, install) == ends_as_mine(id, install),
{
    reveal_strlit("-");
    let end = "-"@ + install;
    if id.len() > install.len() {
        let k = id.len() - install.len() - 1;
        let tail = id.subrange(k, k + end.len());
        assert(tail.skip(1) =~= id.skip(id.len() - install.len()));
        assert(end.skip(1) =~= install);
        assert(tail[0] == id[k] && end[0] == '-');
        if ends_as_mine(id, install) {
            assert(tail =~= end) by {
                assert forall|i: int| 0 <= i < end.len() implies tail[i] == end[i] by {
                    if i > 0 {
                        assert(tail.skip(1)[i - 1] == tail[i]);
                        assert(end.skip(1)[i - 1] == end[i]);
                    }
                }
            }
        }
    }
}

/// What is asked before a profile is applied, shared or deleted, or keys are
/// reverted, is done on A alone, for the game and the profile that were chosen;
/// without it nothing is requested.
pub proof fn only_what_was_confirmed_is_done(
    pre: State,
    m: Menu,
    keys: Keys,
    f: Facts,
    b: Button,
    post: State,
    m2: Menu,
    r: Reply,
    g: usize,
    p: usize,
)
    requires
        library::input_step(pre, m, keys, f, b, post, m2, r),
        games::reaches(m, f, b),
        pre.pending_net is None,
        pre.screen == (Screen::ProfilePreview { game_idx: g, profile_idx: p }) || pre.screen == (
        Screen::ProfileDeleteConfirm { game_idx: g, profile_idx: p }) || pre.screen == (
        Screen::ProfileShareConfirm { game_idx: g }) || pre.screen == (Screen::RevertPreview {
            game_idx: g,
        }),
    ensures
        b != Button::A ==> post.pending_net is None && !(r.effect is Revert),
        b == Button::A && pre.screen is ProfilePreview ==> post.pending_net == Some(
            (PendingNet::ApplyProfile { game_idx: g, profile_idx: p }, false),
        ),
        b == Button::A && pre.screen is ProfileDeleteConfirm ==> post.pending_net == Some(
            (PendingNet::DeleteProfile { game_idx: g, profile_idx: p }, false),
        ),
        b == Button::A && pre.screen is ProfileShareConfirm ==> post.pending_net == Some(
            (PendingNet::ShareProfile { game_idx: g }, false),
        ),
        b == Button::A && pre.screen is RevertPreview ==> post.pending_net is None && r.effect == (
        Effect::Revert { game_idx: g }),
        post.entries == pre.entries && post.settings == pre.settings,
{
}

/// Each speed of the cursor is faster than the one before it, from half to five times;
/// a game without one has the plain speed.
pub proof fn speeds_grow(i: i32, j: i32)
    requires
        0 <= i < j < 8,
    ensures
        touches::speed_x10(i) < touches::speed_x10(j),
        touches::speed_x10(0) == 5,
        touches::speed_x10(7) == 50,
        touches::speed_x10(-1i32) == 10,
{
}

// ── A URL's options ────────────────────────────────────────────────────────

/// The rows of a URL's options make it a favourite or no longer one, edit it, and ask
/// whether it is to be removed, each for that URL.
pub proof fn the_url_rows_are_for_the_url(
    pre: State,
    m: Menu,
    keys: Keys,
    f: Facts,
    post: State,
    m2: Menu,
    r: Reply,
    u: usize,
    row: usize,
    other: Seq<char>,
)
    requires
        library::input_step(pre, m, keys, f, Button::A, post, m2, r),
        games::reaches(m, f, Button::A),
        pre.screen == (Screen::DistantUrlOptions { url_idx: u, selection: row }),
        u < pre.history.urls@.len(),
        row < 3,
        laws::on_list(pre.history.urls@, other),
    ensures
        post.history.urls == pre.history.urls && post.entries == pre.entries,
        row == 1 ==> post == pre && r.effect == (Effect::EditUrl { url_idx: u }),
        row == 2 ==> post.screen == Screen::DistantHistoryConfirm && post.history.index == Some(u)
            && post.history.meta == pre.history.meta && r.effect == Effect::Nothing,
        row == 0 ==> r.effect == Effect::SaveMeta && urls::marked(
            history::rows_of(post.history.meta@),
            other,
        ) == (urls::marked(history::rows_of(pre.history.meta@), other) != (other
            == pre.history.urls@[u as int]@)),
{
    if row == 0 {
        let rows = history::rows_of(pre.history.meta@);
        let url = pre.history.urls@[u as int]@;
        let flipped = history::with_mark_flipped(rows, url, f.epoch);
        history::flipping_twice(rows, url, f.epoch, other);
        urls::favored_is_marked(rows, other);
        urls::favored_is_marked(flipped, other);
        urls::pruning_keeps_marks(flipped, pre.history.urls@, other);
    }
}

/// A saved URL is removed on A alone, once the panel has closed.
pub proof fn only_a_confirmed_url_is_removed(
    pre: State,
    m: Menu,
    keys: Keys,
    f: Facts,
    b: Button,
    post: State,
    m2: Menu,
    r: Reply,
)
    requires
        library::input_step(pre, m, keys, f, b, post, m2, r),
        games::reaches(m, f, b),
        pre.screen == Screen::DistantHistoryConfirm,
        pre.pending_close is None,
    ensures
        post.history == pre.history,
        (post.pending_close == Some(PendingClose::DeleteHistory)) == (b == Button::A),
{
}

// ── Fingers ────────────────────────────────────────────────────────────────

/// A tap on a tile puts the cursor on that tile, on whichever list it is, and
/// activates only where the cursor was on it. The list stays where it is scrolled.
pub proof fn a_tap_selects_the_tile(s: State, i: usize, on_cover: bool)
    ensures
        ({
            let (to, go) = touch::tap_next(s, Some(i), on_cover);
            match s.screen {
                Screen::List { selection, scroll_offset } => to == (Screen::List {
                    selection: i,
                    scroll_offset,
                }) && go == (selection == i),
                Screen::FpGallery { selection, scroll } => to == (Screen::FpGallery {
                    selection: i,
                    scroll,
                }) && go == (selection == i),
                Screen::DistantFiles { selection, scroll_offset } => to == (Screen::DistantFiles {
                    selection: i,
                    scroll_offset,
                }) && go == (selection == i),
                Screen::DistantIdle { selection, scroll_offset } => to == (Screen::DistantIdle {
                    selection: i,
                    scroll_offset,
                }) && go == (selection == i),
                _ => to == s.screen && !go,
            }
        }),
{
}

// ── Reports ────────────────────────────────────────────────────────────────

/// On the games to report A reports the game under the cursor, and no other button
/// reports one.
pub proof fn the_game_under_the_cursor_is_reported(
    pre: State,
    m: Menu,
    keys: Keys,
    f: Facts,
    b: Button,
    post: State,
    m2: Menu,
    r: Reply,
    at: usize,
    scroll: usize,
)
    requires
        library::input_step(pre, m, keys, f, b, post, m2, r),
        games::reaches(m, f, b),
        pre.screen == (Screen::BugPicker { selection: at, scroll_offset: scroll }),
        at < pre.entries@.len(),
    ensures
        post.entries == pre.entries,
        b == Button::A ==> r.effect == (Effect::ReportBug { game_idx: at }) && post == pre,
        b != Button::A ==> !(r.effect is ReportBug),
{
}

} // verus!
