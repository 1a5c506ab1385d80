//! The key menu of a game, and the key profiles that players share.

use crate::library::names;
use crate::library::screen;
use crate::library::screen::{wrap_down, wrap_up, Button, Effect, PendingNet, Screen};
use crate::library::state::{State, Touches};
use crate::loc;
use crate::loc::strings::Strings;
use crate::menu;
use crate::panel;
use crate::panel::{Toast, TOAST_ERR, TOAST_INFO, TOAST_OK};
use crate::profiles::Match;
use crate::text;
use vstd::prelude::*;

verus! {

/// What is known of a game's keys.
#[derive(Clone, Copy, PartialEq, Eq, Structural, Debug)]
pub struct KeyFacts {
    pub has_backup: bool,
    pub can_revert: bool,
    pub cursor_idx: i32,
    pub show_cursor: bool,
}

/// The rows of the key menu without that of the revert: edit, apply, share, cursor
/// speed, cursor shown.
pub const TOUCHES_MENU_FIXED_ROWS: usize = 5;

/// The row of the revert.
pub const REVERT_ROW: usize = 5;

/// The cursor speeds, in tenths.
pub const CURSOR_X10: [u32; 8] = [5, 10, 15, 20, 25, 30, 40, 50];

/// The profiles that fit on the panel.
pub const MAX_PROFILE_ROWS: usize = 10;

/// The last row of the key menu.
pub open spec fn last_row(can_revert: bool) -> int {
    if can_revert {
        5
    } else {
        4
    }
}

/// What is known of a game that there is not.
pub open spec fn facts_for(s: State, game_idx: int, facts: KeyFacts) -> KeyFacts {
    if game_idx < s.entries@.len() {
        facts
    } else {
        KeyFacts { has_backup: false, can_revert: false, cursor_idx: -1i32, show_cursor: true }
    }
}

/// The library with the key menu of a game open, the cursor on `sel` or on the
/// last row.
pub open spec fn in_touches(s: State, game_idx: int, sel: int, facts: KeyFacts) -> State {
    let f = facts_for(s, game_idx, facts);
    State {
        touches: Touches {
            has_backup: f.has_backup,
            can_revert: f.can_revert,
            cursor_idx: f.cursor_idx,
            show_cursor: f.show_cursor,
            ..s.touches
        },
        screen: Screen::TouchesMenu {
            game_idx: game_idx as usize,
            selection: (if sel < last_row(f.can_revert) {
                sel
            } else {
                last_row(f.can_revert)
            }) as usize,
        },
        ..s
    }
}

/// Opens the key menu of a game. `facts` are those of the game's keys.
pub fn goto_touches_menu(s: &mut State, game_idx: usize, selection: usize, facts: KeyFacts)
    ensures
        *final(s) == in_touches(*old(s), game_idx as int, selection as int, facts),
{
    let f: KeyFacts = if game_idx < s.entries.len() {
        facts
    } else {
        KeyFacts { has_backup: false, can_revert: false, cursor_idx: -1, show_cursor: true }
    };
    s.touches.has_backup = f.has_backup;
    s.touches.can_revert = f.can_revert;
    s.touches.cursor_idx = f.cursor_idx;
    s.touches.show_cursor = f.show_cursor;
    let last: usize = if f.can_revert {
        TOUCHES_MENU_FIXED_ROWS
    } else {
        TOUCHES_MENU_FIXED_ROWS - 1
    };
    let sel: usize = if selection < last {
        selection
    } else {
        last
    };
    s.screen = Screen::TouchesMenu { game_idx, selection: sel };
}

// ── Requests that wait for their panel ─────────────────────────────────────

/// What the panel of a request says: the game's name.
pub open spec fn game_name(s: State, game_idx: int) -> Seq<char> {
    if 0 <= game_idx < s.entries@.len() {
        s.entries@[game_idx].display_name@
    } else {
        Seq::empty()
    }
}

/// The request waits and its panel is shown.
pub open spec fn deferred(pre: State, action: PendingNet, game_idx: int, post: State) -> bool {
    &&& post == (State {
        net_label: post.net_label,
        pending_net: Some((action, false)),
        screen: Screen::ProfileLoading,
        ..pre
    })
    &&& post.net_label@ == game_name(pre, game_idx)
}

/// Puts a request off until its panel has been shown.
pub fn defer_net(s: &mut State, action: PendingNet, game_idx: usize)
    ensures
        deferred(*old(s), action, game_idx as int, *final(s)),
{
    s.net_label = if game_idx < s.entries.len() {
        s.entries[game_idx].display_name.clone()
    } else {
        let e: String = String::new();
        assert(e@ =~= Seq::empty());
        e
    };
    s.pending_net = Some((action, false));
    s.screen = Screen::ProfileLoading;
}

// ── The key menu ───────────────────────────────────────────────────────────

/// The next cursor speed preset; a game without one is at the second.
pub open spec fn next_speed(idx: i32) -> i32 {
    (((if idx < 0 {
        1
    } else {
        idx as int
    }) + 1) % 8) as i32
}

/// What a button does in the key menu. `from_catalog`: do the game's keys come
/// from the catalogue unchanged?
pub open spec fn touches_step(
    pre: State,
    from_catalog: bool,
    b: Button,
    game_idx: int,
    sel: int,
    post: State,
    e: Effect,
) -> bool {
    let g = game_idx as usize;
    let to = |x: Screen| post == (State { screen: x, ..pre });
    let here = |i: int| to(Screen::TouchesMenu { game_idx: g, selection: i as usize });
    let back = to(Screen::OptionsModal { game_idx: g, selection: 1 }) && e == Effect::Nothing;
    let last = last_row(pre.touches.can_revert);
    match b {
        Button::Up => here(screen::up_in(sel, last)) && e == Effect::Nothing,
        Button::Down => here(screen::down_in(sel, last)) && e == Effect::Nothing,
        Button::A => if sel == 0 {
            to(Screen::TouchesEditor { game_idx: g }) && e == (Effect::EditKeys { game_idx: g })
        } else if sel == 1 {
            deferred(pre, PendingNet::OpenProfiles { game_idx: g }, game_idx, post) && e
                == Effect::Nothing
        } else if sel == 2 {
            if from_catalog {
                post == pre && e == (Effect::OpenShareConfirm { game_idx: g })
            } else {
                deferred(pre, PendingNet::OpenShareConfirm { game_idx: g }, game_idx, post) && e
                    == Effect::Nothing
            }
        } else if sel == 3 {
            let next = next_speed(pre.touches.cursor_idx);
            &&& post == (State { touches: Touches { cursor_idx: next, ..pre.touches }, ..pre })
            &&& e == (if game_idx < pre.entries@.len() {
                Effect::SetCursorSpeed { game_idx: g, speed: next }
            } else {
                Effect::Nothing
            })
        } else if sel == 4 {
            if game_idx < pre.entries@.len() {
                &&& post == (State {
                    touches: Touches { show_cursor: !pre.touches.show_cursor, ..pre.touches },
                    ..pre
                })
                &&& e == (Effect::ToggleShowCursor { game_idx: g })
            } else {
                post == pre && e == Effect::Nothing
            }
        } else if sel == 5 {
            post == pre && e == (Effect::OpenRevertPreview { game_idx: g })
        } else {
            post == pre && e == Effect::Nothing
        },
        Button::B => back,
        Button::Minus => back,
        _ => post == pre && e == Effect::Nothing,
    }
}

/// A button in the key menu.
pub fn handle_touches_menu_input(
    s: &mut State,
    from_catalog: bool,
    b: Button,
    game_idx: usize,
    selection: usize,
) -> (e: Effect)
    requires
        old(s).screen == (Screen::TouchesMenu { game_idx, selection }),
    ensures
        touches_step(
            *old(s),
            from_catalog,
            b,
            game_idx as int,
            selection as int,
            *final(s),
            e,
        ),
{
    let last: usize = if s.touches.can_revert {
        TOUCHES_MENU_FIXED_ROWS
    } else {
        TOUCHES_MENU_FIXED_ROWS - 1
    };
    match b {
        Button::Up => {
            s.screen = Screen::TouchesMenu { game_idx, selection: wrap_up(selection, last) };
        },
        Button::Down => {
            s.screen = Screen::TouchesMenu { game_idx, selection: wrap_down(selection, last) };
        },
        Button::A => match selection {
            0 => {
                s.screen = Screen::TouchesEditor { game_idx };
                return Effect::EditKeys { game_idx };
            },
            1 => {
                defer_net(s, PendingNet::OpenProfiles { game_idx }, game_idx);
            },
            2 => {
                if from_catalog {
                    return Effect::OpenShareConfirm { game_idx };
                }
                defer_net(s, PendingNet::OpenShareConfirm { game_idx }, game_idx);
            },
            3 => {
                let cur: i64 = if s.touches.cursor_idx < 0 {
                    1
                } else {
                    s.touches.cursor_idx as i64
                };
                let next: i32 = ((cur + 1) % 8) as i32;
                s.touches.cursor_idx = next;
                if game_idx < s.entries.len() {
                    return Effect::SetCursorSpeed { game_idx, speed: next };
                }
            },
            4 => {
                if game_idx < s.entries.len() {
                    s.touches.show_cursor = !s.touches.show_cursor;
                    return Effect::ToggleShowCursor { game_idx };
                }
            },
            5 => {
                return Effect::OpenRevertPreview { game_idx };
            },
            _ => {},
        },
        Button::B | Button::Minus => {
            s.screen = Screen::OptionsModal { game_idx, selection: 1 };
        },
        _ => {},
    }
    Effect::Nothing
}

/// The cursor speed of a preset, in tenths: that of a game without one is the
/// second, and past the end it is the last.
pub open spec fn speed_x10(idx: i32) -> u32 {
    if idx < 0 {
        10
    } else if idx < 8 {
        CURSOR_X10@[idx as int]
    } else {
        50
    }
}

/// The cursor speed of a preset, in tenths.
pub fn cursor_x10(idx: i32) -> (r: u32)
    ensures
        r == speed_x10(idx),
{
    if idx < 0 {
        return 10;
    }
    match idx {
        0 => 5,
        1 => 10,
        2 => 15,
        3 => 20,
        4 => 25,
        5 => 30,
        6 => 40,
        _ => 50,
    }
}

// ── The profiles ───────────────────────────────────────────────────────────

/// What a button does on the list of profiles.
pub open spec fn profile_list_next(
    pre: State,
    install: Seq<char>,
    b: Button,
    game_idx: int,
    sel: int,
) -> (Screen, Effect) {
    let g = game_idx as usize;
    let here = |i: int| Screen::ProfileList { game_idx: g, selection: i as usize };
    let n = pre.touches.matches@.len() as int;
    let last = if n == 0 {
        0
    } else {
        n - 1
    };
    match b {
        Button::Up => (here(screen::up_in(sel, last)), Effect::Nothing),
        Button::Down => (here(screen::down_in(sel, last)), Effect::Nothing),
        Button::A => (here(sel), Effect::OpenPreview { game_idx: g, profile_idx: sel as usize }),
        Button::X => if panel::mine_at(pre.touches.matches@, sel, install) {
            (
                Screen::ProfileDeleteConfirm { game_idx: g, profile_idx: sel as usize },
                Effect::Nothing,
            )
        } else {
            (here(sel), Effect::Nothing)
        },
        Button::B => (here(sel), Effect::EnterTouches { game_idx: g, selection: 1 }),
        Button::Minus => (here(sel), Effect::EnterTouches { game_idx: g, selection: 1 }),
        _ => (here(sel), Effect::Nothing),
    }
}

/// A button on the list of profiles.
pub fn handle_profile_list_input(
    s: &mut State,
    install: &str,
    b: Button,
    game_idx: usize,
    selection: usize,
) -> (e: Effect)
    requires
        old(s).screen == (Screen::ProfileList { game_idx, selection }),
    ensures
        *final(s) == (State {
            screen: profile_list_next(
                *old(s),
                install@,
                b,
                game_idx as int,
                selection as int,
            ).0,
            ..*old(s)
        }),
        e == profile_list_next(*old(s), install@, b, game_idx as int, selection as int).1,
{
    let n: usize = s.touches.matches.len();
    let last: usize = if n == 0 {
        0
    } else {
        n - 1
    };
    match b {
        Button::Up => {
            s.screen = Screen::ProfileList { game_idx, selection: wrap_up(selection, last) };
        },
        Button::Down => {
            s.screen = Screen::ProfileList { game_idx, selection: wrap_down(selection, last) };
        },
        Button::A => {
            return Effect::OpenPreview { game_idx, profile_idx: selection };
        },
        Button::X => {
            if panel::is_mine_at(&s.touches.matches, selection, install) {
                s.screen = Screen::ProfileDeleteConfirm { game_idx, profile_idx: selection };
            }
        },
        Button::B | Button::Minus => {
            return Effect::EnterTouches { game_idx, selection: 1 };
        },
        _ => {},
    }
    Effect::Nothing
}

/// What a button does on the preview of a profile, on that of a revert, and where
/// a profile is to be shared or deleted.
pub open spec fn confirm_step(pre: State, b: Button, post: State, e: Effect) -> bool {
    let quiet = post == pre && e == Effect::Nothing;
    let no = b == Button::B || b == Button::Minus;
    match pre.screen {
        Screen::ProfilePreview { game_idx, profile_idx } => if b == Button::A {
            deferred(
                pre,
                PendingNet::ApplyProfile { game_idx, profile_idx },
                game_idx as int,
                post,
            ) && e == Effect::Nothing
        } else if no {
            &&& post == (State {
                touches: Touches { preview: post.touches.preview, ..pre.touches },
                screen: Screen::ProfileList { game_idx, selection: profile_idx },
                ..pre
            })
            &&& post.touches.preview@.len() == 0
            &&& e == Effect::Nothing
        } else {
            quiet
        },
        Screen::ProfileDeleteConfirm { game_idx, profile_idx } => if b == Button::A {
            deferred(
                pre,
                PendingNet::DeleteProfile { game_idx, profile_idx },
                game_idx as int,
                post,
            ) && e == Effect::Nothing
        } else if no {
            post == (State {
                screen: Screen::ProfileList { game_idx, selection: profile_idx },
                ..pre
            }) && e == Effect::Nothing
        } else {
            quiet
        },
        Screen::ProfileShareConfirm { game_idx } => if b == Button::A {
            deferred(pre, PendingNet::ShareProfile { game_idx }, game_idx as int, post) && e
                == Effect::Nothing
        } else if no {
            post == pre && e == (Effect::EnterTouches { game_idx, selection: 2 })
        } else {
            quiet
        },
        Screen::RevertPreview { game_idx } => if b == Button::A {
            post == pre && e == (Effect::Revert { game_idx })
        } else if no {
            &&& post == (State {
                touches: Touches { preview: post.touches.preview, ..pre.touches },
                ..pre
            })
            &&& post.touches.preview@.len() == 0
            &&& e == (Effect::EnterTouches { game_idx, selection: REVERT_ROW })
        } else {
            quiet
        },
        _ => quiet,
    }
}

/// A button on a preview or where a profile is to be shared or deleted.
pub fn handle_confirm_input(s: &mut State, b: Button) -> (e: Effect)
    ensures
        confirm_step(*old(s), b, *final(s), e),
{
    let no: bool = match b {
        Button::B | Button::Minus => true,
        _ => false,
    };
    let yes: bool = match b {
        Button::A => true,
        _ => false,
    };
    match s.screen {
        Screen::ProfilePreview { game_idx, profile_idx } => {
            if yes {
                defer_net(s, PendingNet::ApplyProfile { game_idx, profile_idx }, game_idx);
            } else if no {
                s.touches.preview.clear();
                s.screen = Screen::ProfileList { game_idx, selection: profile_idx };
            }
        },
        Screen::ProfileDeleteConfirm { game_idx, profile_idx } => {
            if yes {
                defer_net(s, PendingNet::DeleteProfile { game_idx, profile_idx }, game_idx);
            } else if no {
                s.screen = Screen::ProfileList { game_idx, selection: profile_idx };
            }
        },
        Screen::ProfileShareConfirm { game_idx } => {
            if yes {
                defer_net(s, PendingNet::ShareProfile { game_idx }, game_idx);
            } else if no {
                return Effect::EnterTouches { game_idx, selection: 2 };
            }
        },
        Screen::RevertPreview { game_idx } => {
            if yes {
                return Effect::Revert { game_idx };
            } else if no {
                s.touches.preview.clear();
                return Effect::EnterTouches { game_idx, selection: REVERT_ROW };
            }
        },
        _ => {},
    }
    Effect::Nothing
}

// ── What came of it ────────────────────────────────────────────────────────

/// The profiles for a game came in: those that fit on the panel are shown.
pub fn profiles_found(s: &mut State, game_idx: usize, matches: Vec<Match>, active_id: String)
    ensures
        *final(s) == (State {
            touches: Touches {
                matches: final(s).touches.matches,
                active_id,
                ..old(s).touches
            },
            screen: Screen::ProfileList { game_idx, selection: 0 },
            ..*old(s)
        }),
        final(s).touches.matches@ == (if matches@.len() > MAX_PROFILE_ROWS {
            matches@.take(MAX_PROFILE_ROWS as int)
        } else {
            matches@
        }),
{
    let mut list: Vec<Match> = matches;
    if list.len() > MAX_PROFILE_ROWS {
        list.truncate(MAX_PROFILE_ROWS);
        assert(list@ =~= matches@.take(MAX_PROFILE_ROWS as int));
    }
    s.touches.matches = list;
    s.touches.active_id = active_id;
    s.screen = Screen::ProfileList { game_idx, selection: 0 };
}

/// The preview of a profile was built. One that changes nothing is not shown.
pub fn preview_built(s: &mut State, game_idx: usize, profile_idx: usize, rows: Vec<String>)
    ensures
        rows@.len() == 0 ==> *final(s) == (State {
            toast: final(s).toast,
            screen: Screen::ProfileList { game_idx, selection: profile_idx },
            ..*old(s)
        }) && panel::says(
            final(s).toast,
            loc::table_of(old(s).settings.lang).profile_preview_none@,
            TOAST_INFO,
        ),
        rows@.len() > 0 ==> *final(s) == (State {
            touches: Touches { preview: final(s).touches.preview, ..old(s).touches },
            screen: Screen::ProfilePreview { game_idx, profile_idx },
            ..*old(s)
        }) && text::texts(final(s).touches.preview@) == names::capped(text::texts(rows@)),
{
    if rows.len() == 0 {
        let lc: Strings = loc::s(&s.settings);
        s.toast = Toast::saying(lc.profile_preview_none.to_owned(), TOAST_INFO);
        s.screen = Screen::ProfileList { game_idx, selection: profile_idx };
    } else {
        s.touches.preview = names::cap_preview_rows(rows);
        s.screen = Screen::ProfilePreview { game_idx, profile_idx };
    }
}

/// What sharing would send was built. Keys that come from the catalogue unchanged
/// are not shared again.
pub fn share_preview_built(
    s: &mut State,
    game_idx: usize,
    from_catalog: bool,
    rows: Vec<String>,
    update: bool,
    facts: KeyFacts,
)
    ensures
        from_catalog ==> *final(s) == (State {
            toast: final(s).toast,
            ..in_touches(*old(s), game_idx as int, 2, facts)
        }) && panel::says(
            final(s).toast,
            loc::table_of(old(s).settings.lang).profile_share_dup@,
            TOAST_INFO,
        ),
        !from_catalog ==> *final(s) == (State {
            touches: Touches {
                preview: final(s).touches.preview,
                share_is_update: update,
                ..old(s).touches
            },
            screen: Screen::ProfileShareConfirm { game_idx },
            ..*old(s)
        }) && text::texts(final(s).touches.preview@) == names::capped(text::texts(rows@)),
{
    if from_catalog {
        let lc: Strings = loc::s(&s.settings);
        s.toast = Toast::saying(lc.profile_share_dup.to_owned(), TOAST_INFO);
        goto_touches_menu(s, game_idx, 2, facts);
        return;
    }
    s.touches.preview = names::cap_preview_rows(rows);
    s.touches.share_is_update = update;
    s.screen = Screen::ProfileShareConfirm { game_idx };
}

/// The keys were shared (`Ok`), or why not.
pub fn shared(s: &mut State, game_idx: usize, result: Result<(), String>, facts: KeyFacts)
    ensures
        *final(s) == (State {
            toast: final(s).toast,
            ..in_touches(*old(s), game_idx as int, 2, facts)
        }),
        match result {
            Ok(_) => panel::says(
                final(s).toast,
                loc::table_of(old(s).settings.lang).profile_shared_ok@,
                TOAST_OK,
            ),
            Err(m) => panel::says(final(s).toast, m@, TOAST_ERR),
        },
{
    s.toast = match result {
        Ok(_) => {
            let lc: Strings = loc::s(&s.settings);
            Toast::saying(lc.profile_shared_ok.to_owned(), TOAST_OK)
        },
        Err(m) => Toast::saying(m, TOAST_ERR),
    };
    goto_touches_menu(s, game_idx, 2, facts);
}

/// A profile was applied, or could not be.
pub fn applied(s: &mut State, game_idx: usize, ok: bool, facts: KeyFacts)
    ensures
        *final(s) == (State {
            toast: final(s).toast,
            ..in_touches(*old(s), game_idx as int, 1, facts)
        }),
        ok ==> panel::says(
            final(s).toast,
            loc::table_of(old(s).settings.lang).profile_applied_ok@,
            TOAST_OK,
        ),
        !ok ==> panel::says(
            final(s).toast,
            loc::table_of(old(s).settings.lang).bug_fail_title@,
            TOAST_ERR,
        ),
{
    let lc: Strings = loc::s(&s.settings);
    let msg: &str = if ok {
        lc.profile_applied_ok
    } else {
        lc.bug_fail_title
    };
    s.toast = Toast::result(msg, ok);
    goto_touches_menu(s, game_idx, 1, facts);
}

/// The preview of a revert was built.
pub fn revert_preview_built(s: &mut State, game_idx: usize, rows: Vec<String>)
    ensures
        *final(s) == (State {
            touches: Touches { preview: final(s).touches.preview, ..old(s).touches },
            screen: Screen::RevertPreview { game_idx },
            ..*old(s)
        }),
        text::texts(final(s).touches.preview@) == names::capped(text::texts(rows@)),
{
    s.touches.preview = names::cap_preview_rows(rows);
    s.screen = Screen::RevertPreview { game_idx };
}

/// A game's keys were reverted, or could not be.
pub fn reverted(s: &mut State, game_idx: usize, ok: bool, facts: KeyFacts)
    ensures
        *final(s) == (State {
            toast: final(s).toast,
            ..in_touches(*old(s), game_idx as int, 0, facts)
        }),
        ok ==> panel::says(
            final(s).toast,
            loc::table_of(old(s).settings.lang).profile_reverted_ok@,
            TOAST_OK,
        ),
        !ok ==> panel::says(
            final(s).toast,
            loc::table_of(old(s).settings.lang).bug_fail_title@,
            TOAST_ERR,
        ),
{
    let lc: Strings = loc::s(&s.settings);
    let msg: &str = if ok {
        lc.profile_reverted_ok
    } else {
        lc.bug_fail_title
    };
    s.toast = Toast::result(msg, ok);
    goto_touches_menu(s, game_idx, 0, facts);
}

/// A shared profile was deleted (`Ok`), or why not.
pub fn profile_deleted(s: &mut State, game_idx: usize, profile_idx: usize, result: Result<(), String>)
    ensures
        profile_idx >= old(s).touches.matches@.len() ==> *final(s) == *old(s),
        profile_idx < old(s).touches.matches@.len() ==> *final(s) == (State {
            toast: final(s).toast,
            touches: Touches { matches: final(s).touches.matches, ..old(s).touches },
            screen: Screen::ProfileList {
                game_idx,
                selection: menu::nearest_row(
                    profile_idx as int,
                    final(s).touches.matches@.len() as int,
                ) as usize,
            },
            ..*old(s)
        }),
        profile_idx < old(s).touches.matches@.len() ==> match result {
            Ok(_) => final(s).touches.matches@ == menu::without_id(
                old(s).touches.matches@,
                old(s).touches.matches@[profile_idx as int].profile.id@,
            ) && panel::says(
                final(s).toast,
                loc::table_of(old(s).settings.lang).profile_del_ok@,
                TOAST_OK,
            ),
            Err(m) => final(s).touches.matches == old(s).touches.matches && panel::says(
                final(s).toast,
                m@,
                TOAST_ERR,
            ),
        },
{
    if profile_idx >= s.touches.matches.len() {
        return;
    }
    match result {
        Ok(_) => {
            let lc: Strings = loc::s(&s.settings);
            let id: String = s.touches.matches[profile_idx].profile.id.clone();
            menu::drop_id(&mut s.touches.matches, id.as_str());
            s.toast = Toast::saying(lc.profile_del_ok.to_owned(), TOAST_OK);
        },
        Err(m) => {
            s.toast = Toast::saying(m, TOAST_ERR);
        },
    }
    let n: usize = s.touches.matches.len();
    let selection: usize = if n == 0 {
        0
    } else if profile_idx < n {
        profile_idx
    } else {
        n - 1
    };
    s.screen = Screen::ProfileList { game_idx, selection };
}

} // verus!
