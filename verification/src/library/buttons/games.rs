//! The game list, a game's options, its covers, and the orders of the list.

use crate::library::filters;
use crate::library::gallery;
use crate::library::names;
use crate::library::screen;
use crate::library::screen::{
    wrap_down, wrap_up, Button, Effect, PendingClose, Screen, COVER_PICKER_COLS, OPTIONS_ROWS,
};
use crate::library::sorting;
use crate::library::state;
use crate::library::state::{Candidate, Covers, Entry, Remote, Session, Sorting, State};
use crate::loc;
use crate::loc::strings::Strings;
use crate::panel;
use crate::panel::{Toast, TOAST_ERR};
use crate::parts;
use crate::text;
use vstd::prelude::*;

verus! {

// ── The list ───────────────────────────────────────────────────────────────

/// The layout of the home tab.
pub open spec fn view_of(s: State) -> int {
    (s.settings.home_view % 4) as int
}

/// Are all the games in one row?
pub open spec fn one_row(view: int) -> bool {
    view == 2 || view == 3
}

/// Where a direction leads in the game list. In a layout of one row up and down
/// go a few games on and back.
pub open spec fn list_move(s: State, b: Button, sel: int) -> int {
    let n = filters::shown_games(s).len() as int;
    let cells = s.layout.cells@;
    let rows = s.layout.rows as int;
    let step = gallery::page_step(view_of(s));
    match b {
        Button::Left => if n > 0 && sel > 0 {
            sel - 1
        } else {
            sel
        },
        Button::Right => if n > 0 && sel + 1 < n {
            sel + 1
        } else {
            sel
        },
        Button::Up => if one_row(view_of(s)) {
            if n == 0 {
                sel
            } else if sel + step < n - 1 {
                sel + step
            } else {
                n - 1
            }
        } else {
            match gallery::neighbor(cells, rows, sel, -1) {
                Some(i) => i,
                None => sel,
            }
        },
        Button::Down => if one_row(view_of(s)) {
            if sel > step {
                sel - step
            } else {
                0
            }
        } else {
            match gallery::neighbor(cells, rows, sel, 1) {
                Some(i) => i,
                None => sel,
            }
        },
        _ => sel,
    }
}

/// Is it a direction?
pub open spec fn is_direction(b: Button) -> bool {
    b == Button::Left || b == Button::Right || b == Button::Up || b == Button::Down
}

/// The game list at a row.
pub open spec fn list_screen(s: State, sel: int, scroll: int) -> Screen {
    Screen::List {
        selection: sel as usize,
        scroll_offset: gallery::scroll_for(s.layout.cells@, view_of(s), sel, scroll) as usize,
    }
}

/// The game is launched: it is the picked one and the one that is played.
pub open spec fn launch(pre: State, abs: int, sel: int, scroll: int, post: State) -> bool {
    let e = pre.entries@[abs];
    &&& post == (State {
        selected_path: post.selected_path,
        session: Session { last_played: post.session.last_played, ..pre.session },
        screen: Screen::Launching { selection: sel as usize, scroll_offset: scroll as usize },
        ..pre
    })
    &&& (post.selected_path matches Some(p) && p@ == e.path@)
    &&& (post.session.last_played matches Some(l) && l.0@ == e.basename@ && l.1@
        == e.display_name@)
}

/// What a button does in the game list.
pub open spec fn list_step(pre: State, b: Button, sel: int, scroll: int, post: State, e: Effect) -> bool {
    let shown = filters::shown_games(pre);
    let stay = post == pre && e == Effect::Nothing;
    let to = |x: Screen| post == (State { screen: x, ..pre }) && e == Effect::Nothing;
    if is_direction(b) {
        to(list_screen(pre, list_move(pre, b, sel), scroll))
    } else {
        match b {
            Button::A => if sel < shown.len() {
                if pre.applet_mode {
                    to(
                        Screen::AppletNotice {
                            selection: sel as usize,
                            scroll_offset: scroll as usize,
                        },
                    )
                } else {
                    launch(pre, shown[sel] as int, sel, scroll, post) && e == (Effect::Launch {
                        game_idx: shown[sel],
                    })
                }
            } else {
                stay
            },
            Button::Plus => if sel < shown.len() {
                to(Screen::OptionsModal { game_idx: shown[sel], selection: 0 })
            } else {
                stay
            },
            Button::Y => to(
                Screen::SortModal {
                    selection: pre.sorting.mode as usize,
                    prev_sel: sel as usize,
                    prev_scroll: scroll as usize,
                },
            ),
            Button::Minus => post == pre && e == Effect::SearchLocal,
            _ => stay,
        }
    }
}

fn page_up(selection: usize, n: usize) -> (r: usize)
    requires
        n > 0,
    ensures
        r == (if selection + 4 < n - 1 {
            selection + 4
        } else {
            n - 1
        }),
{
    if n > 5 && selection < n - 5 {
        selection + 4
    } else {
        n - 1
    }
}

fn move_in_list(s: &State, b: Button, selection: usize, n: usize) -> (r: usize)
    requires
        n == filters::shown_games(*s).len(),
    ensures
        r == list_move(*s, b, selection as int),
{
    let view: u8 = loc::home_view(&s.settings);
    let single: bool = view == 2 || view == 3;
    match b {
        Button::Left => if n > 0 && selection > 0 {
            selection - 1
        } else {
            selection
        },
        Button::Right => if n > 0 && selection < n - 1 {
            selection + 1
        } else {
            selection
        },
        Button::Up => if single {
            if n > 0 {
                page_up(selection, n)
            } else {
                selection
            }
        } else {
            match gallery::gallery_neighbor(&s.layout, selection, -1) {
                Some(i) => i,
                None => selection,
            }
        },
        Button::Down => if single {
            if selection > 4 {
                selection - 4
            } else {
                0
            }
        } else {
            match gallery::gallery_neighbor(&s.layout, selection, 1) {
                Some(i) => i,
                None => selection,
            }
        },
        _ => selection,
    }
}

/// A button in the game list.
pub fn handle_list_input(s: &mut State, b: Button, selection: usize, scroll: usize) -> (e: Effect)
    requires
        old(s).screen == (Screen::List { selection, scroll_offset: scroll }),
    ensures
        list_step(*old(s), b, selection as int, scroll as int, *final(s), e),
{
    let shown: Vec<usize> = filters::local_filtered_indices(&s.entries, &s.local_filter);
    let n: usize = shown.len();
    match b {
        Button::Left | Button::Right | Button::Up | Button::Down => {
            let to: usize = move_in_list(s, b, selection, n);
            let off: usize = gallery::gallery_scroll_for(
                &s.layout,
                loc::home_view(&s.settings),
                to,
                scroll,
            );
            s.screen = Screen::List { selection: to, scroll_offset: off };
        },
        Button::A => {
            if selection < n {
                if s.applet_mode {
                    s.screen = Screen::AppletNotice { selection, scroll_offset: scroll };
                    return Effect::Nothing;
                }
                let abs: usize = shown[selection];
                let path: String = s.entries[abs].path.clone();
                let base: String = s.entries[abs].basename.clone();
                let name: String = s.entries[abs].display_name.clone();
                s.selected_path = Some(path);
                sorting::note_played(&mut s.session, base.as_str(), name.as_str());
                s.screen = Screen::Launching { selection, scroll_offset: scroll };
                return Effect::Launch { game_idx: abs };
            }
        },
        Button::Plus => {
            if selection < n {
                s.screen = Screen::OptionsModal { game_idx: shown[selection], selection: 0 };
            }
        },
        Button::Y => {
            s.screen = Screen::SortModal {
                selection: sorting::sort_mode_index(&s.sorting),
                prev_sel: selection,
                prev_scroll: scroll,
            };
        },
        Button::Minus => {
            return Effect::SearchLocal;
        },
        _ => {},
    }
    Effect::Nothing
}

/// The game that was launched started at `tick`, with `companions` linked files
/// (negative where they could not be counted).
pub fn launched(s: &mut State, tick: u64, companions: i32)
    ensures
        *final(s) == (State {
            session: Session {
                launch_tick: Some(tick),
                companions: if companions > 0 {
                    companions
                } else {
                    0
                },
                ..old(s).session
            },
            ..*old(s)
        }),
{
    s.session.launch_tick = Some(tick);
    s.session.companions = if companions > 0 {
        companions
    } else {
        0
    };
}

/// The text of a search that was typed: none where it is blank.
pub open spec fn typed_filter(typed: Seq<char>, f: Option<String>) -> bool {
    match f {
        Some(t) => t@ == text::trimmed(typed) && t@.len() > 0,
        None => text::trimmed(typed).len() == 0,
    }
}

/// The text of a search that was typed.
pub fn filter_from(typed: &str) -> (r: Option<String>)
    ensures
        typed_filter(typed@, r),
{
    let t: String = text::trim(typed);
    if t.unicode_len() == 0 {
        None
    } else {
        Some(t)
    }
}

/// The games are searched for what was typed.
pub fn local_searched(s: &mut State, typed: &str)
    ensures
        *final(s) == (State {
            local_filter: final(s).local_filter,
            screen: Screen::List { selection: 0, scroll_offset: 0 },
            ..*old(s)
        }),
        typed_filter(typed@, final(s).local_filter),
{
    s.local_filter = filter_from(typed);
    s.screen = Screen::List { selection: 0, scroll_offset: 0 };
}

// ── A game's options ───────────────────────────────────────────────────────

/// The first game of that file name.
pub open spec fn game_named(list: Seq<Entry>, basename: Seq<char>, from: int) -> Option<int>
    decreases list.len() - from,
{
    if from < 0 || from >= list.len() {
        None
    } else if list[from].basename@ == basename {
        Some(from)
    } else {
        game_named(list, basename, from + 1)
    }
}

/// The first game of that file name.
pub fn find_game(list: &Vec<Entry>, basename: &str) -> (r: Option<usize>)
    ensures
        match r {
            Some(i) => i < list@.len() && game_named(list@, basename@, 0) == Some(i as int),
            None => game_named(list@, basename@, 0) == None::<int>,
        },
{
    let mut i: usize = 0;
    while i < list.len()
        invariant
            i <= list.len(),
            game_named(list@, basename@, 0) == game_named(list@, basename@, i as int),
        decreases list.len() - i,
    {
        if text::str_eq(list[i].basename.as_str(), basename) {
            return Some(i);
        }
        i = i + 1;
    }
    None
}

/// The games of `post` are those of `pre`, put in order anew.
pub open spec fn resorted(pre: State, post: State) -> bool {
    sorting::is_sorted(
        pre.entries@,
        post.entries@,
        sorting::mode_at(post.sorting.mode as int),
        post.sorting.reverse,
        post.playtime@,
        post.favorites@,
    )
}

/// Puts the games in order anew.
pub fn resort(s: &mut State)
    ensures
        *final(s) == (State { entries: final(s).entries, ..*old(s) }),
        resorted(*old(s), *final(s)),
{
    let mode: sorting::SortMode = sorting::current_sort_mode(&s.sorting);
    let reverse: bool = sorting::current_sort_reverse(&s.sorting);
    sorting::sort_entries(&mut s.entries, mode, reverse, &s.playtime, &s.favorites);
}

/// The game's mark was flipped, and nothing else of the favourites.
pub open spec fn mark_flipped(before: Seq<String>, after: Seq<String>, basename: Seq<char>) -> bool {
    &&& state::listed(after, basename) == !state::listed(before, basename)
    &&& forall|other: Seq<char>|
        other != basename ==> #[trigger] state::listed(after, other) == state::listed(
            before,
            other,
        )
}

/// What a button does on a game's options.
pub open spec fn options_step(
    pre: State,
    b: Button,
    game_idx: int,
    sel: int,
    post: State,
    e: Effect,
) -> bool {
    let g = game_idx as usize;
    let to = |x: Screen| post == (State { screen: x, ..pre }) && e == Effect::Nothing;
    let here = |i: int| to(Screen::OptionsModal { game_idx: g, selection: i as usize });
    let stay = post == pre && e == Effect::Nothing;
    let back = to(filters::list_at(pre, game_idx));
    match b {
        Button::Up => here(screen::up_in(sel, 4)),
        Button::Down => here(screen::down_in(sel, 4)),
        Button::A => if sel == 0 {
            if game_idx < pre.entries@.len() {
                let base = pre.entries@[game_idx].basename@;
                &&& post == (State {
                    favorites: post.favorites,
                    entries: post.entries,
                    screen: Screen::OptionsModal {
                        game_idx: match game_named(post.entries@, base, 0) {
                            Some(i) => i as usize,
                            None => g,
                        },
                        selection: sel as usize,
                    },
                    ..pre
                })
                &&& mark_flipped(pre.favorites@, post.favorites@, base)
                &&& resorted(pre, post)
                &&& e == Effect::SaveFavorites
            } else {
                stay
            }
        } else if sel == 1 {
            post == pre && e == (Effect::EnterTouches { game_idx: g, selection: 0 })
        } else if sel == 2 {
            post == pre && e == (Effect::Rename { game_idx: g })
        } else if sel == 3 {
            post == pre && e == (Effect::SearchCover { game_idx: g })
        } else if sel == 4 {
            to(Screen::DeleteConfirm { game_idx: g })
        } else {
            stay
        },
        Button::B => back,
        Button::Minus => back,
        _ => stay,
    }
}

/// A button on a game's options: favourite, keys, name, cover, delete.
pub fn handle_options_input(s: &mut State, b: Button, game_idx: usize, selection: usize) -> (e: Effect)
    requires
        old(s).screen == (Screen::OptionsModal { game_idx, selection }),
    ensures
        options_step(*old(s), b, game_idx as int, selection as int, *final(s), e),
{
    match b {
        Button::Up => {
            s.screen = Screen::OptionsModal {
                game_idx,
                selection: wrap_up(selection, OPTIONS_ROWS - 1),
            };
        },
        Button::Down => {
            s.screen = Screen::OptionsModal {
                game_idx,
                selection: wrap_down(selection, OPTIONS_ROWS - 1),
            };
        },
        Button::A => match selection {
            0 => {
                if game_idx < s.entries.len() {
                    let base: String = s.entries[game_idx].basename.clone();
                    state::toggle_favorite(&mut s.favorites, base.as_str());
                    resort(s);
                    let at: usize = match find_game(&s.entries, base.as_str()) {
                        Some(i) => i,
                        None => game_idx,
                    };
                    s.screen = Screen::OptionsModal { game_idx: at, selection };
                    return Effect::SaveFavorites;
                }
            },
            1 => {
                return Effect::EnterTouches { game_idx, selection: 0 };
            },
            2 => {
                return Effect::Rename { game_idx };
            },
            3 => {
                return Effect::SearchCover { game_idx };
            },
            4 => {
                s.screen = Screen::DeleteConfirm { game_idx };
            },
            _ => {},
        },
        Button::B | Button::Minus => {
            s.screen = filters::list_screen_for_abs(s, game_idx);
        },
        _ => {},
    }
    Effect::Nothing
}

/// What a new name changes: the shown name of the game, which is that of its file
/// where nothing is typed; nothing where the name could not be kept.
pub open spec fn name_changed(
    pre: State,
    game_idx: int,
    typed: Seq<char>,
    persisted: bool,
    post: State,
) -> bool {
    &&& !persisted ==> post == (State { toast: post.toast, ..pre }) && panel::says(
        post.toast,
        loc::table_of(pre.settings.lang).err_sd_write@,
        TOAST_ERR,
    )
    &&& persisted ==> post == (State { entries: post.entries, ..pre })
    &&& persisted && game_idx >= pre.entries@.len() ==> post.entries@ == pre.entries@
    &&& persisted && game_idx < pre.entries@.len() ==> {
        let e = pre.entries@[game_idx];
        &&& post.entries@ == pre.entries@.update(
            game_idx,
            Entry { display_name: post.entries@[game_idx].display_name, ..e },
        )
        &&& post.entries@[game_idx].display_name@ == (if text::trimmed(typed).len() == 0 {
            e.basename@
        } else {
            text::trimmed(typed)
        })
    }
}

/// A new name was typed for a game, and was kept or not. A blank name brings back
/// that of the file.
pub fn renamed(s: &mut State, game_idx: usize, typed: &str, persisted: bool)
    ensures
        name_changed(*old(s), game_idx as int, typed@, persisted, *final(s)),
{
    if !persisted {
        let lc: Strings = loc::s(&s.settings);
        s.toast = Toast::result(lc.err_sd_write, false);
        return;
    }
    if game_idx < s.entries.len() {
        let t: String = text::trim(typed);
        let name: String = if t.unicode_len() == 0 {
            s.entries[game_idx].basename.clone()
        } else {
            t
        };
        s.entries[game_idx].display_name = name;
    }
}

// ── Deleting ───────────────────────────────────────────────────────────────

/// What a button does where a game is to be deleted.
pub open spec fn delete_step(pre: State, b: Button, game_idx: int, post: State, e: Effect) -> bool {
    let g = game_idx as usize;
    let back = post == (State {
        screen: Screen::OptionsModal { game_idx: g, selection: 0 },
        ..pre
    }) && e == Effect::Nothing;
    match b {
        Button::A => post == (State {
            pending_close: Some(PendingClose::DeleteGame { game_idx: g }),
            ..pre
        }) && e == Effect::ClosePanel,
        Button::B => back,
        Button::Minus => back,
        _ => post == pre && e == Effect::Nothing,
    }
}

/// A button where a game is to be deleted.
pub fn handle_delete_confirm_input(s: &mut State, b: Button, game_idx: usize) -> (e: Effect)
    ensures
        delete_step(*old(s), b, game_idx as int, *final(s), e),
{
    match b {
        Button::A => {
            s.pending_close = Some(PendingClose::DeleteGame { game_idx });
            return Effect::ClosePanel;
        },
        Button::B | Button::Minus => {
            s.screen = Screen::OptionsModal { game_idx, selection: 0 };
        },
        _ => {},
    }
    Effect::Nothing
}

/// Is the line that of a save: a bare file name?
pub open spec fn is_save_line(line: Seq<char>) -> bool {
    let t = text::trimmed(line);
    t.len() > 0 && !t.contains('/') && !t.contains('\\')
}

/// The saves that a record lists.
pub open spec fn saves_in(lines: Seq<Seq<char>>) -> Seq<Seq<char>>
    decreases lines.len(),
{
    if lines.len() == 0 {
        Seq::empty()
    } else if is_save_line(lines.last()) {
        saves_in(lines.drop_last()).push("sdmc:/flashnx/"@ + text::trimmed(lines.last()))
    } else {
        saves_in(lines.drop_last())
    }
}

fn has_char(s: &str, c: char) -> (r: bool)
    ensures
        r == s@.contains(c),
{
    let v: Vec<char> = text::chars_of(s);
    let mut i: usize = 0;
    while i < v.len()
        invariant
            i <= v.len(),
            v@ == s@,
            forall|k: int| 0 <= k < i ==> v@[k] != c,
        decreases v.len() - i,
    {
        if v[i] == c {
            assert(s@[i as int] == c);
            return true;
        }
        i = i + 1;
    }
    false
}

/// The old saves that a game's record lists, one name per line; a name that is a
/// path is passed over.
pub fn recorded_legacy_saves(record: &str) -> (r: Vec<String>)
    ensures
        text::texts(r@) == saves_in(parts::pieces(record@, '\n')),
{
    let lines: Vec<String> = parts::split(record, '\n');
    let ghost all = text::texts(lines@);
    let mut r: Vec<String> = Vec::new();
    let mut i: usize = 0;
    assert(all.take(0) =~= Seq::empty());
    assert(text::texts(r@) =~= Seq::empty());
    while i < lines.len()
        invariant
            i <= lines.len(),
            all == text::texts(lines@),
            text::texts(r@) == saves_in(all.take(i as int)),
        decreases lines.len() - i,
    {
        assert(all.take(i + 1).drop_last() =~= all.take(i as int));
        assert(all.take(i + 1).last() == lines@[i as int]@);
        let t: String = text::trim(lines[i].as_str());
        let ghost before = r@;
        if t.unicode_len() > 0 && !has_char(t.as_str(), '/') && !has_char(t.as_str(), '\\') {
            let p: String = parts::concat("sdmc:/flashnx/", t.as_str());
            r.push(p);
            assert(text::texts(r@) =~= text::texts(before).push(p@));
        }
        i = i + 1;
    }
    assert(all.take(i as int) =~= all);
    r
}

/// A list without a name; the others keep their order.
pub open spec fn without_name(list: Seq<String>, name: Seq<char>) -> Seq<String>
    decreases list.len(),
{
    if list.len() == 0 {
        list
    } else {
        let head = without_name(list.drop_last(), name);
        if list.last()@ == name {
            head
        } else {
            head.push(list.last())
        }
    }
}

/// A list without a name holds all of its names but that one.
pub proof fn only_the_name_goes(list: Seq<String>, name: Seq<char>, other: Seq<char>)
    ensures
        state::listed(without_name(list, name), other) == (state::listed(list, other) && other
            != name),
    decreases list.len(),
{
    if list.len() > 0 {
        let d = list.drop_last();
        only_the_name_goes(d, name, other);
        let head = without_name(d, name);
        let all = without_name(list, name);
        if state::listed(d, other) {
            let k = choose|k: int| 0 <= k < d.len() && (#[trigger] d[k])@ == other;
            assert(list[k]@ == other);
        }
        if state::listed(list, other) && !state::listed(d, other) {
            let k = choose|k: int| 0 <= k < list.len() && (#[trigger] list[k])@ == other;
            if k < d.len() {
                assert(d[k]@ == other);
            }
            assert(list.last()@ == other);
        }
        if list.last()@ != name {
            assert(all.last() == list.last());
            if state::listed(head, other) {
                let k = choose|k: int| 0 <= k < head.len() && (#[trigger] head[k])@ == other;
                assert(all[k]@ == other);
            }
            if state::listed(all, other) && list.last()@ != other {
                let k = choose|k: int| 0 <= k < all.len() && (#[trigger] all[k])@ == other;
                assert(head[k]@ == other);
            }
            assert(list[list.len() - 1] == list.last());
            assert(all[all.len() - 1] == list.last());
        }
    }
}

/// Takes a name out of a list.
fn drop_name(list: &mut Vec<String>, name: &str)
    ensures
        final(list)@ == without_name(old(list)@, name@),
{
    let ghost before = list@;
    let ghost mut done: int = 0;
    let mut i: usize = 0;
    assert(list@ =~= without_name(before.take(0), name@) + before.skip(0));
    while i < list.len()
        invariant
            i <= list.len(),
            0 <= done <= before.len(),
            i == without_name(before.take(done), name@).len(),
            list@ == without_name(before.take(done), name@) + before.skip(done),
        decreases list.len() - i,
    {
        let ghost kept = without_name(before.take(done), name@);
        assert(done < before.len());
        assert(list@[i as int] == before[done]);
        assert(before.take(done + 1).drop_last() =~= before.take(done));
        assert(before.take(done + 1).last() == before[done]);
        if text::str_eq(list[i].as_str(), name) {
            list.remove(i);
            assert(list@ =~= kept + before.skip(done + 1));
        } else {
            i = i + 1;
            assert(list@ =~= kept.push(before[done]) + before.skip(done + 1));
        }
        proof {
            done = done + 1;
        }
    }
    assert(before.skip(done).len() == 0);
    assert(before.take(done) =~= before);
    assert(list@ =~= without_name(before, name@));
}

/// The game is gone: from the list, from the favourites, and from the files that
/// count as downloaded.
pub open spec fn game_deleted(pre: State, game_idx: int, post: State) -> bool {
    if game_idx < pre.entries@.len() {
        let base = pre.entries@[game_idx].basename@;
        &&& post == (State {
            entries: post.entries,
            favorites: post.favorites,
            remote: Remote { downloaded: post.remote.downloaded, ..pre.remote },
            ..pre
        })
        &&& post.entries@ == pre.entries@.remove(game_idx)
        &&& post.favorites@ == without_name(pre.favorites@, base)
        &&& post.remote.downloaded@ == without_name(pre.remote.downloaded@, base)
    } else {
        post == pre
    }
}

/// The files of a game were deleted.
pub fn delete_game(s: &mut State, game_idx: usize)
    ensures
        game_deleted(*old(s), game_idx as int, *final(s)),
{
    if game_idx >= s.entries.len() {
        return;
    }
    let e: Entry = s.entries.remove(game_idx);
    drop_name(&mut s.favorites, e.basename.as_str());
    drop_name(&mut s.remote.downloaded, e.basename.as_str());
}

// ── Covers ─────────────────────────────────────────────────────────────────

/// Where a direction leads on a grid of `n` pictures, `cols` in a row.
pub open spec fn grid_move(b: Button, sel: int, n: int, cols: int) -> int {
    match b {
        Button::Left => if n > 0 && sel > 0 {
            sel - 1
        } else {
            sel
        },
        Button::Right => if n > 0 && sel + 1 < n {
            sel + 1
        } else {
            sel
        },
        Button::Up => if sel >= cols {
            sel - cols
        } else {
            sel
        },
        Button::Down => if sel + cols < n {
            sel + cols
        } else {
            sel
        },
        _ => sel,
    }
}

/// Where a direction leads on a grid of pictures.
pub fn move_on_grid(b: Button, selection: usize, n: usize, cols: usize) -> (r: usize)
    ensures
        r == grid_move(b, selection as int, n as int, cols as int),
{
    match b {
        Button::Left => if n > 0 && selection > 0 {
            selection - 1
        } else {
            selection
        },
        Button::Right => if n > 0 && selection < n - 1 {
            selection + 1
        } else {
            selection
        },
        Button::Up => if selection >= cols {
            selection - cols
        } else {
            selection
        },
        Button::Down => if n > cols && selection < n - cols {
            selection + cols
        } else {
            selection
        },
        _ => selection,
    }
}

/// The cursor stays on the grid.
pub proof fn grid_keeps_the_cursor(b: Button, sel: int, n: int, cols: int)
    requires
        0 <= sel < n,
        cols > 0,
    ensures
        0 <= grid_move(b, sel, n, cols) < n,
{
}

/// The list of covers is empty.
pub open spec fn covers_cleared(c: Covers) -> bool {
    c.candidates@.len() == 0 && c.msg@.len() == 0 && c.query@.len() == 0
}

/// What a button does on the covers found for a game.
pub open spec fn cover_picker_step(
    pre: State,
    b: Button,
    game_idx: int,
    sel: int,
    post: State,
    e: Effect,
) -> bool {
    let g = game_idx as usize;
    match b {
        Button::A => post == pre && e == (Effect::FetchCover {
            game_idx: g,
            selection: sel as usize,
        }),
        Button::Minus => post == pre && e == (Effect::RefineCover { game_idx: g }),
        Button::Y => post == (State {
            covers: Covers { use_shot: !pre.covers.use_shot, ..pre.covers },
            ..pre
        }) && e == Effect::CancelThumbs,
        Button::B => {
            &&& post == (State {
                covers: Covers {
                    candidates: post.covers.candidates,
                    msg: post.covers.msg,
                    query: post.covers.query,
                    use_shot: false,
                    ..pre.covers
                },
                screen: Screen::OptionsModal { game_idx: g, selection: 3 },
                ..pre
            })
            &&& covers_cleared(post.covers)
            &&& e == Effect::CancelThumbs
        },
        _ => post == (State {
            screen: Screen::CoverPicker {
                game_idx: g,
                selection: grid_move(
                    b,
                    sel,
                    pre.covers.candidates@.len() as int,
                    COVER_PICKER_COLS as int,
                ) as usize,
            },
            ..pre
        }) && e == Effect::Nothing,
    }
}

/// Empties the list of covers.
pub fn clear_covers(c: &mut Covers)
    ensures
        covers_cleared(*final(c)),
        *final(c) == (Covers {
            candidates: final(c).candidates,
            msg: final(c).msg,
            query: final(c).query,
            ..*old(c)
        }),
{
    c.candidates = Vec::new();
    c.msg = String::new();
    c.query = String::new();
}

/// A button on the covers found for a game.
pub fn handle_cover_picker_input(s: &mut State, b: Button, game_idx: usize, selection: usize) -> (e:
    Effect)
    requires
        old(s).screen == (Screen::CoverPicker { game_idx, selection }),
    ensures
        cover_picker_step(*old(s), b, game_idx as int, selection as int, *final(s), e),
{
    match b {
        Button::A => {
            return Effect::FetchCover { game_idx, selection };
        },
        Button::Minus => {
            return Effect::RefineCover { game_idx };
        },
        Button::Y => {
            s.covers.use_shot = !s.covers.use_shot;
            return Effect::CancelThumbs;
        },
        Button::B => {
            clear_covers(&mut s.covers);
            s.covers.use_shot = false;
            s.screen = Screen::OptionsModal { game_idx, selection: 3 };
            return Effect::CancelThumbs;
        },
        _ => {},
    }
    let n: usize = s.covers.candidates.len();
    let to: usize = move_on_grid(b, selection, n, COVER_PICKER_COLS);
    s.screen = Screen::CoverPicker { game_idx, selection: to };
    Effect::Nothing
}

/// The term that a game's cover is searched by first.
pub fn cover_search_term(s: &State, game_idx: usize) -> (r: Option<String>)
    ensures
        match r {
            Some(q) => game_idx < s.entries@.len() && q@ == names::search_term(
                s.entries@[game_idx as int].display_name@,
            ),
            None => game_idx >= s.entries@.len(),
        },
{
    if game_idx < s.entries.len() {
        Some(names::cover_query_from_name(s.entries[game_idx].display_name.as_str()))
    } else {
        None
    }
}

/// The term that the keyboard shows when the search is refined: the last one, else
/// the game's.
pub fn cover_refine_term(s: &State, game_idx: usize) -> (r: String)
    ensures
        r@ == (if s.covers.query@.len() > 0 {
            s.covers.query@
        } else if game_idx < s.entries@.len() {
            names::search_term(s.entries@[game_idx as int].display_name@)
        } else {
            Seq::empty()
        }),
{
    if s.covers.query.unicode_len() > 0 {
        return s.covers.query.clone();
    }
    match cover_search_term(s, game_idx) {
        Some(q) => q,
        None => {
            let e: String = String::new();
            assert(e@ =~= Seq::empty());
            e
        },
    }
}

/// What a search of covers came to.
pub fn cover_results(
    s: &mut State,
    game_idx: usize,
    query: String,
    result: Result<Vec<Candidate>, String>,
)
    ensures
        *final(s) == (State {
            covers: Covers {
                candidates: final(s).covers.candidates,
                msg: final(s).covers.msg,
                query,
                ..old(s).covers
            },
            screen: Screen::CoverPicker { game_idx, selection: 0 },
            ..*old(s)
        }),
        match result {
            Ok(list) => final(s).covers.candidates@ == list@ && final(s).covers.msg@ == (
            if list@.len() == 0 {
                loc::table_of(old(s).settings.lang).cover_none@
            } else {
                Seq::empty()
            }),
            Err(m) => final(s).covers.candidates@.len() == 0 && final(s).covers.msg@ == m@,
        },
{
    match result {
        Ok(list) => {
            s.covers.msg = if list.len() == 0 {
                let lc: Strings = loc::s(&s.settings);
                lc.cover_none.to_owned()
            } else {
                let e: String = String::new();
                assert(e@ =~= Seq::empty());
                e
            };
            s.covers.candidates = list;
        },
        Err(m) => {
            s.covers.candidates = Vec::new();
            s.covers.msg = m;
        },
    }
    s.covers.query = query;
    s.screen = Screen::CoverPicker { game_idx, selection: 0 };
}

/// The picture to fetch, as the picker shows it, and the game that it is for.
pub fn cover_choice(s: &State, game_idx: usize, selection: usize) -> (r: Option<(String, String)>)
    ensures
        match r {
            Some((url, base)) => {
                &&& selection < s.covers.candidates@.len()
                &&& game_idx < s.entries@.len()
                &&& url@ == names::cover_address(
                    s.covers.candidates@[selection as int].cover_url@,
                    s.covers.use_shot,
                )
                &&& base@ == s.entries@[game_idx as int].basename@
            },
            None => selection >= s.covers.candidates@.len() || game_idx >= s.entries@.len(),
        },
{
    if selection >= s.covers.candidates.len() || game_idx >= s.entries.len() {
        return None;
    }
    let url: String = names::cover_url_for_source(
        s.covers.candidates[selection].cover_url.as_str(),
        s.covers.use_shot,
    );
    Some((url, s.entries[game_idx].basename.clone()))
}

/// The picture was fetched (`Ok`), or why not.
pub fn cover_fetched(s: &mut State, game_idx: usize, result: Result<(), String>)
    ensures
        match result {
            Ok(_) => *final(s) == (State {
                covers: final(s).covers,
                screen: Screen::OptionsModal { game_idx, selection: 3 },
                ..*old(s)
            }) && covers_cleared(final(s).covers) && final(s).covers == (Covers {
                candidates: final(s).covers.candidates,
                msg: final(s).covers.msg,
                query: final(s).covers.query,
                ..old(s).covers
            }),
            Err(m) => *final(s) == (State { covers: Covers { msg: m, ..old(s).covers }, ..*old(s) }),
        },
{
    match result {
        Ok(_) => {
            clear_covers(&mut s.covers);
            s.screen = Screen::OptionsModal { game_idx, selection: 3 };
        },
        Err(m) => {
            s.covers.msg = m;
        },
    }
}

// ── The orders of the list ─────────────────────────────────────────────────

/// What a button does on the orders of the game list.
pub open spec fn sort_step(
    pre: State,
    b: Button,
    sel: int,
    prev_sel: int,
    prev_scroll: int,
    post: State,
    e: Effect,
) -> bool {
    let (ps, pc) = (prev_sel as usize, prev_scroll as usize);
    let at = |i: int|
        Screen::SortModal { selection: i as usize, prev_sel: ps, prev_scroll: pc };
    let to = |x: Screen| post == (State { screen: x, ..pre }) && e == Effect::Nothing;
    match b {
        Button::Up => to(
            at(
                if sel > 0 {
                    sel - 1
                } else {
                    sel
                },
            ),
        ),
        Button::Down => to(
            at(
                if sel + 1 < 5 {
                    sel + 1
                } else {
                    sel
                },
            ),
        ),
        Button::X => {
            &&& post == (State {
                sorting: Sorting { reverse: !pre.sorting.reverse, ..pre.sorting },
                entries: post.entries,
                screen: Screen::SortModal {
                    selection: sel as usize,
                    prev_sel: 0,
                    prev_scroll: 0,
                },
                ..pre
            })
            &&& resorted(pre, post)
            &&& e == Effect::SaveSort
        },
        Button::A => {
            &&& post == (State {
                sorting: Sorting { mode: (sel % 256) as u8, ..pre.sorting },
                entries: post.entries,
                screen: Screen::List { selection: 0, scroll_offset: 0 },
                ..pre
            })
            &&& resorted(pre, post)
            &&& e == Effect::SaveSort
        },
        Button::B => to(Screen::List { selection: ps, scroll_offset: pc }),
        _ => post == pre && e == Effect::Nothing,
    }
}

/// A button on the orders of the game list.
pub fn handle_sort_modal_input(
    s: &mut State,
    b: Button,
    selection: usize,
    prev_sel: usize,
    prev_scroll: usize,
) -> (e: Effect)
    requires
        old(s).screen == (Screen::SortModal { selection, prev_sel, prev_scroll }),
    ensures
        sort_step(
            *old(s),
            b,
            selection as int,
            prev_sel as int,
            prev_scroll as int,
            *final(s),
            e,
        ),
{
    match b {
        Button::Up => {
            if selection > 0 {
                s.screen = Screen::SortModal { selection: selection - 1, prev_sel, prev_scroll };
            }
        },
        Button::Down => {
            if selection < 4 {
                s.screen = Screen::SortModal { selection: selection + 1, prev_sel, prev_scroll };
            }
        },
        Button::X => {
            s.sorting.reverse = !s.sorting.reverse;
            resort(s);
            s.screen = Screen::SortModal { selection, prev_sel: 0, prev_scroll: 0 };
            return Effect::SaveSort;
        },
        Button::A => {
            s.sorting.mode = (selection % 256) as u8;
            resort(s);
            s.screen = Screen::List { selection: 0, scroll_offset: 0 };
            return Effect::SaveSort;
        },
        Button::B => {
            s.screen = Screen::List { selection: prev_sel, scroll_offset: prev_scroll };
        },
        _ => {},
    }
    Effect::Nothing
}

} // verus!
