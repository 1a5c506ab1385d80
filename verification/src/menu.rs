//! The key menu in a game, and the key editor.

use crate::library::names;
use crate::library::screen::{wrap_down, wrap_up, Button};
use crate::loc;
use crate::loc::strings::Strings;
use crate::loc::Settings;
use crate::panel;
use crate::panel::{Panel, Toast, TOAST_ERR, TOAST_INFO, TOAST_OK};
use crate::parts;
use crate::profiles::Match;
use crate::text;
use pad::{pad_step, unstick_cursor, Dir, Keys};
use vstd::prelude::*;

pub mod board;
pub mod pad;

verus! {

/// What the menu shows.
#[derive(Clone, Copy, PartialEq, Eq, Structural, Debug)]
pub enum Screen {
    Inactive,
    /// Edit, apply, share, cursor speed, cursor shown, revert.
    Menu { selection: usize },
    /// The pad: `selection` is one of its slots.
    List { selection: usize },
    /// The keyboard, to choose the key of a slot.
    Keyboard { button_idx: usize, key_idx: usize },
    Profiles { selection: usize },
    Preview { profile_idx: usize },
    ShareConfirm,
    RevertPreview,
    DeleteConfirm { profile_idx: usize },
    /// A request is about to be made.
    Loading,
}

/// A request that is made once its panel has been shown.
#[derive(Clone, Copy, PartialEq, Eq, Structural, Debug)]
pub enum PendingNet {
    OpenProfiles,
    OpenShareConfirm,
    Apply { profile_idx: usize },
    Share,
    Delete { profile_idx: usize },
}

/// What the outside has to do after an event.
#[derive(Clone, Copy, PartialEq, Eq, Structural, Debug)]
pub enum Effect {
    Nothing,
    /// Edit player 1 on the plain layer, then `edit_started`.
    StartEdit,
    /// Step the cursor speed.
    CycleCursorSpeed,
    /// Flip whether the cursor is shown.
    ToggleShowCursor,
    /// Edit the other player, then `settle_cursor`.
    SetPlayer { player: u8 },
    /// Show another layer, then `settle_cursor`.
    SetSubtab { index: usize },
    /// Bind a slot to a key (`None`: to nothing), then `binding_done`.
    Bind { slot: usize, key: Option<usize> },
    /// Build what sharing would send, then `share_preview_built`.
    OpenShareConfirm,
    /// Build the preview of a revert, then `revert_preview_built`.
    OpenRevertPreview,
    /// Build the preview of a profile, then `preview_built`.
    OpenPreview { profile_idx: usize },
    /// Revert the keys, then `reverted`.
    Revert,
}

/// The menu.
pub struct Menu {
    pub screen: Screen,
    /// The keys changed and the game does not know yet.
    pub dirty: bool,
    /// Was the editor entered from the menu in a game?
    pub submenu: bool,
    pub can_revert: bool,
    pub has_backup: bool,
    pub matches: Vec<Match>,
    pub active_id: String,
    pub preview: Vec<String>,
    pub share_is_update: bool,
    pub toast: Toast,
    /// A request, and whether its panel has been shown.
    pub pending: Option<(PendingNet, bool)>,
}

pub const MENU_EDIT: usize = 0;

pub const MENU_APPLY: usize = 1;

pub const MENU_SHARE: usize = 2;

pub const MENU_CURSOR: usize = 3;

pub const MENU_SHOWCURSOR: usize = 4;

pub const MENU_REVERT: usize = 5;

pub const MENU_FIXED_ROWS: usize = 5;

/// The last row of the menu.
pub open spec fn last_row(m: Menu) -> int {
    if m.can_revert {
        5
    } else {
        4
    }
}

impl Menu {
    /// The menu before it was opened.
    pub fn new() -> (r: Menu)
        ensures
            r.screen == Screen::Inactive,
            !r.dirty,
            !r.submenu,
            !r.can_revert,
            !r.has_backup,
            r.matches@.len() == 0,
            r.active_id@.len() == 0,
            r.preview@.len() == 0,
            !r.share_is_update,
            r.toast.msg@.len() == 0,
            r.toast.kind == 0,
            r.toast.frames == 0,
            r.pending is None,
    {
        Menu {
            screen: Screen::Inactive,
            dirty: false,
            submenu: false,
            can_revert: false,
            has_backup: false,
            matches: Vec::new(),
            active_id: String::new(),
            preview: Vec::new(),
            share_is_update: false,
            toast: Toast::new(),
            pending: None,
        }
    }

    /// The cursors are on what there is: a key of the board, a slot of the pad,
    /// a row of the menu.
    pub open spec fn fits(&self, keys: &Keys) -> bool {
        match self.screen {
            Screen::Keyboard { button_idx, key_idx } => key_idx < keys.board@.len() && button_idx
                < keys.slots@.len(),
            Screen::List { selection } => selection < keys.slots@.len(),
            Screen::Menu { selection } => selection <= last_row(*self),
            Screen::RevertPreview => self.can_revert,
            _ => true,
        }
    }
}

/// Is anything of the menu on the screen?
pub fn is_active(m: &Menu) -> (r: bool)
    ensures
        r == (m.screen != Screen::Inactive),
{
    !matches!(m.screen, Screen::Inactive)
}

/// The number of a screen, 0 while nothing is shown.
pub open spec fn kind_of(s: Screen) -> int {
    match s {
        Screen::Inactive => 0,
        Screen::Menu { .. } => 1,
        Screen::List { .. } => 2,
        Screen::Keyboard { .. } => 3,
        Screen::Profiles { .. } => 4,
        Screen::Preview { .. } => 5,
        Screen::ShareConfirm => 6,
        Screen::RevertPreview => 7,
        Screen::DeleteConfirm { .. } => 8,
        Screen::Loading => 9,
    }
}

/// The number of the screen, 0 while nothing is shown.
pub fn screen_kind(m: &Menu) -> (r: u8)
    ensures
        r == kind_of(m.screen),
        r <= 9,
{
    match m.screen {
        Screen::Inactive => 0,
        Screen::Menu { .. } => 1,
        Screen::List { .. } => 2,
        Screen::Keyboard { .. } => 3,
        Screen::Profiles { .. } => 4,
        Screen::Preview { .. } => 5,
        Screen::ShareConfirm => 6,
        Screen::RevertPreview => 7,
        Screen::DeleteConfirm { .. } => 8,
        Screen::Loading => 9,
    }
}

/// What a tap on `idx` leads to: the screen, and whether the cursor was there
/// already. A tap that is on nothing, or on a locked slot, changes nothing.
pub open spec fn touched(m: Menu, keys: Keys, idx: int) -> (Screen, bool) {
    match m.screen {
        Screen::Keyboard { button_idx, key_idx } => if idx < keys.board@.len() {
            (Screen::Keyboard { button_idx, key_idx: idx as usize }, key_idx == idx)
        } else {
            (m.screen, false)
        },
        Screen::List { selection } => if idx < keys.slots@.len() && !keys.slots@[idx].locked {
            (Screen::List { selection: idx as usize }, selection == idx)
        } else {
            (m.screen, false)
        },
        Screen::Menu { selection } => if idx <= last_row(m) {
            (Screen::Menu { selection: idx as usize }, selection == idx)
        } else {
            (m.screen, false)
        },
        Screen::Profiles { selection } => if idx < m.matches@.len() {
            (Screen::Profiles { selection: idx as usize }, selection == idx)
        } else {
            (m.screen, false)
        },
        _ => (m.screen, false),
    }
}

/// Puts the cursor where a finger landed; true where it was there already, which
/// activates.
pub fn touch_select(m: &mut Menu, keys: &Keys, idx: usize) -> (r: bool)
    ensures
        *final(m) == (Menu { screen: touched(*old(m), *keys, idx as int).0, ..*old(m) }),
        r == touched(*old(m), *keys, idx as int).1,
        old(m).fits(keys) ==> final(m).fits(keys),
{
    match m.screen {
        Screen::Keyboard { button_idx, key_idx } => {
            if idx >= keys.board.len() {
                return false;
            }
            if key_idx == idx {
                return true;
            }
            m.screen = Screen::Keyboard { button_idx, key_idx: idx };
            false
        },
        Screen::List { selection } => {
            if idx >= keys.slots.len() {
                return false;
            }
            if keys.slots[idx].locked {
                return false;
            }
            if selection == idx {
                return true;
            }
            m.screen = Screen::List { selection: idx };
            false
        },
        Screen::Menu { selection } => {
            let last: usize = if m.can_revert {
                MENU_FIXED_ROWS
            } else {
                MENU_FIXED_ROWS - 1
            };
            if idx > last {
                return false;
            }
            if selection == idx {
                return true;
            }
            m.screen = Screen::Menu { selection: idx };
            false
        },
        Screen::Profiles { selection } => {
            if idx >= m.matches.len() {
                return false;
            }
            if selection == idx {
                return true;
            }
            m.screen = Screen::Profiles { selection: idx };
            false
        },
        _ => false,
    }
}

/// A second tap on the same place activates, and moves nothing.
pub proof fn second_tap_activates(m: Menu, keys: Keys, idx: usize, after: Menu)
    requires
        after == (Menu { screen: touched(m, keys, idx as int).0, ..m }),
        after.screen != m.screen,
    ensures
        touched(after, keys, idx as int) == (after.screen, true),
{
}

/// Opens the editor, on the first slot that can be edited. `keys` are those of
/// player 1 on the plain layer.
pub fn open(m: &mut Menu, keys: &Keys)
    ensures
        *final(m) == (Menu {
            submenu: false,
            screen: Screen::List { selection: pad::unstuck(keys.slots@, 0) as usize },
            ..*old(m)
        }),
        keys.ready() ==> final(m).fits(keys),
{
    m.submenu = false;
    m.screen = Screen::List { selection: unstick_cursor(keys, 0) };
}

/// Opens the menu in a game.
pub fn open_submenu(m: &mut Menu, can_revert: bool, has_backup: bool)
    ensures
        *final(m) == (Menu {
            submenu: true,
            can_revert,
            has_backup,
            screen: Screen::Menu { selection: 0 },
            ..*old(m)
        }),
{
    m.submenu = true;
    m.can_revert = can_revert;
    m.has_backup = has_backup;
    m.screen = Screen::Menu { selection: 0 };
}

/// Nothing of the menu is shown any more.
pub fn close(m: &mut Menu)
    ensures
        *final(m) == (Menu { screen: Screen::Inactive, ..*old(m) }),
{
    m.screen = Screen::Inactive;
}

/// Did the keys change since the last call?
pub fn consume_dirty(m: &mut Menu) -> (r: bool)
    ensures
        r == old(m).dirty,
        *final(m) == (Menu { dirty: false, ..*old(m) }),
{
    let d: bool = m.dirty;
    m.dirty = false;
    d
}

/// The rows of a preview, cut to what fits.
pub fn cap_rows(rows: Vec<String>) -> (r: Vec<String>)
    ensures
        text::texts(r@) == names::capped(text::texts(rows@)),
        r@.len() <= names::MAX_PREVIEW_ROWS + 1,
{
    names::cap_preview_rows(rows)
}

// ── Requests that wait for their panel ─────────────────────────────────────

/// The request waits and its panel is shown.
pub open spec fn deferred(m: Menu, action: PendingNet) -> Menu {
    Menu { pending: Some((action, false)), screen: Screen::Loading, ..m }
}

fn defer_net(m: &mut Menu, action: PendingNet)
    ensures
        *final(m) == deferred(*old(m), action),
{
    m.pending = Some((action, false));
    m.screen = Screen::Loading;
}

/// Called once per frame before anything is drawn. The first call after a
/// request was put off lets its panel be drawn; the second gives the request.
pub fn drive_pending_net(m: &mut Menu) -> (r: Option<PendingNet>)
    ensures
        match old(m).pending {
            None => r is None && *final(m) == *old(m),
            Some((a, false)) => r is None && *final(m) == (Menu {
                pending: Some((a, true)),
                ..*old(m)
            }),
            Some((a, true)) => r == Some(a) && *final(m) == (Menu { pending: None, ..*old(m) }),
        },
{
    match m.pending {
        None => None,
        Some((a, armed)) => if armed {
            m.pending = None;
            Some(a)
        } else {
            m.pending = Some((a, true));
            None
        },
    }
}

// ── Buttons ────────────────────────────────────────────────────────────────

/// What a button does in the menu of a game.
pub open spec fn menu_next(m: Menu, b: Button, sel: int, from_catalog: bool) -> (Menu, Effect) {
    let at = |s: Screen| Menu { screen: s, ..m };
    let here = |i: int| Menu { screen: Screen::Menu { selection: i as usize }, ..m };
    match b {
        Button::Up => (
            here(crate::library::screen::up_in(sel, last_row(m))),
            Effect::Nothing,
        ),
        Button::Down => (
            here(crate::library::screen::down_in(sel, last_row(m))),
            Effect::Nothing,
        ),
        Button::A => if sel == 0 {
            (m, Effect::StartEdit)
        } else if sel == 1 {
            (deferred(m, PendingNet::OpenProfiles), Effect::Nothing)
        } else if sel == 2 {
            if from_catalog {
                (m, Effect::OpenShareConfirm)
            } else {
                (deferred(m, PendingNet::OpenShareConfirm), Effect::Nothing)
            }
        } else if sel == 3 {
            (here(sel), Effect::CycleCursorSpeed)
        } else if sel == 4 {
            (here(sel), Effect::ToggleShowCursor)
        } else if sel == 5 && m.can_revert {
            (m, Effect::OpenRevertPreview)
        } else {
            (here(sel), Effect::Nothing)
        },
        Button::B => (at(Screen::Inactive), Effect::Nothing),
        Button::Minus => (at(Screen::Inactive), Effect::Nothing),
        _ => (here(sel), Effect::Nothing),
    }
}

fn handle_menu_input(m: &mut Menu, b: Button, selection: usize, from_catalog: bool) -> (r: Effect)
    requires
        old(m).screen == (Screen::Menu { selection }),
    ensures
        (*final(m), r) == menu_next(*old(m), b, selection as int, from_catalog),
{
    let last: usize = if m.can_revert {
        MENU_FIXED_ROWS
    } else {
        MENU_FIXED_ROWS - 1
    };
    match b {
        Button::Up => {
            m.screen = Screen::Menu { selection: wrap_up(selection, last) };
            Effect::Nothing
        },
        Button::Down => {
            m.screen = Screen::Menu { selection: wrap_down(selection, last) };
            Effect::Nothing
        },
        Button::A => match selection {
            MENU_EDIT => Effect::StartEdit,
            MENU_APPLY => {
                defer_net(m, PendingNet::OpenProfiles);
                Effect::Nothing
            },
            MENU_SHARE => if from_catalog {
                Effect::OpenShareConfirm
            } else {
                defer_net(m, PendingNet::OpenShareConfirm);
                Effect::Nothing
            },
            MENU_CURSOR => Effect::CycleCursorSpeed,
            MENU_SHOWCURSOR => Effect::ToggleShowCursor,
            MENU_REVERT => if m.can_revert {
                Effect::OpenRevertPreview
            } else {
                Effect::Nothing
            },
            _ => Effect::Nothing,
        },
        Button::B | Button::Minus => {
            m.screen = Screen::Inactive;
            Effect::Nothing
        },
        _ => Effect::Nothing,
    }
}

/// What a button does in the profile list.
pub open spec fn profiles_next(m: Menu, b: Button, sel: int, install: Seq<char>) -> (
    Screen,
    Effect,
) {
    let last = if m.matches@.len() == 0 {
        0int
    } else {
        m.matches@.len() - 1
    };
    let here = |i: int| Screen::Profiles { selection: i as usize };
    match b {
        Button::Up => (here(crate::library::screen::up_in(sel, last)), Effect::Nothing),
        Button::Down => (here(crate::library::screen::down_in(sel, last)), Effect::Nothing),
        Button::A => if sel < m.matches@.len() {
            (here(sel), Effect::OpenPreview { profile_idx: sel as usize })
        } else {
            (here(sel), Effect::Nothing)
        },
        Button::X => if panel::mine_at(m.matches@, sel, install) {
            (Screen::DeleteConfirm { profile_idx: sel as usize }, Effect::Nothing)
        } else {
            (here(sel), Effect::Nothing)
        },
        Button::B => (Screen::Menu { selection: MENU_APPLY }, Effect::Nothing),
        Button::Minus => (Screen::Menu { selection: MENU_APPLY }, Effect::Nothing),
        _ => (here(sel), Effect::Nothing),
    }
}

fn handle_profiles_input(m: &mut Menu, b: Button, selection: usize, install: &str) -> (r: Effect)
    requires
        old(m).screen == (Screen::Profiles { selection }),
    ensures
        *final(m) == (Menu {
            screen: profiles_next(*old(m), b, selection as int, install@).0,
            ..*old(m)
        }),
        r == profiles_next(*old(m), b, selection as int, install@).1,
{
    let n: usize = m.matches.len();
    let last: usize = if n == 0 {
        0
    } else {
        n - 1
    };
    match b {
        Button::Up => {
            m.screen = Screen::Profiles { selection: wrap_up(selection, last) };
        },
        Button::Down => {
            m.screen = Screen::Profiles { selection: wrap_down(selection, last) };
        },
        Button::A => {
            if selection < n {
                return Effect::OpenPreview { profile_idx: selection };
            }
        },
        Button::X => {
            if panel::is_mine_at(&m.matches, selection, install) {
                m.screen = Screen::DeleteConfirm { profile_idx: selection };
            }
        },
        Button::B | Button::Minus => {
            m.screen = Screen::Menu { selection: MENU_APPLY };
        },
        _ => {},
    }
    Effect::Nothing
}

/// What a button does in the editor.
pub open spec fn list_effect(keys: Keys, b: Button) -> Effect {
    match b {
        Button::X => Effect::SetPlayer {
            player: if keys.player == 2 {
                1
            } else {
                2
            },
        },
        Button::L => if keys.subtab > 0 {
            Effect::SetSubtab { index: (keys.subtab - 1) as usize }
        } else {
            Effect::Nothing
        },
        Button::R => if keys.subtab + 1 < keys.subtabs {
            Effect::SetSubtab { index: (keys.subtab + 1) as usize }
        } else if keys.subtabs >= 1 && keys.subtab > keys.subtabs - 1 {
            Effect::SetSubtab { index: (keys.subtabs - 1) as usize }
        } else {
            Effect::Nothing
        },
        _ => Effect::Nothing,
    }
}

/// Where a button moves the editor.
pub open spec fn list_screen(m: Menu, keys: Keys, b: Button, sel: int) -> Screen {
    let here = |i: int| Screen::List { selection: i as usize };
    match b {
        Button::Up => here(pad::target(keys.slots@, sel, Dir::Up)),
        Button::Down => here(pad::target(keys.slots@, sel, Dir::Down)),
        Button::Left => here(pad::target(keys.slots@, sel, Dir::Left)),
        Button::Right => here(pad::target(keys.slots@, sel, Dir::Right)),
        Button::A => if sel < keys.slots@.len() && !keys.slots@[sel].locked {
            Screen::Keyboard {
                button_idx: sel as usize,
                key_idx: board::start_key(keys.board@, keys.slots@[sel]) as usize,
            }
        } else {
            here(sel)
        },
        Button::B => if m.submenu {
            Screen::Menu { selection: MENU_EDIT }
        } else {
            Screen::Inactive
        },
        Button::Minus => if m.submenu {
            Screen::Menu { selection: MENU_EDIT }
        } else {
            Screen::Inactive
        },
        _ => here(sel),
    }
}

/// The toast after a button in the editor: a locked slot says that it is one.
pub open spec fn list_toast(pre: Toast, keys: Keys, b: Button, sel: int, post: Toast) -> bool {
    if b == Button::A && sel < keys.slots@.len() && keys.slots@[sel].locked {
        panel::says(post, keys.slots@[sel].name@ + " : "@ + keys.modifier_word@, TOAST_INFO)
    } else {
        post == pre
    }
}

fn handle_list_input(m: &mut Menu, keys: &Keys, b: Button, selection: usize) -> (r:
    Effect)
    requires
        old(m).screen == (Screen::List { selection }),
        keys.ready(),
    ensures
        *final(m) == (Menu {
            screen: list_screen(*old(m), *keys, b, selection as int),
            toast: final(m).toast,
            ..*old(m)
        }),
        list_toast(old(m).toast, *keys, b, selection as int, final(m).toast),
        r == list_effect(*keys, b),
        selection < keys.slots@.len() ==> final(m).fits(keys),
{
    match b {
        Button::Up => {
            m.screen = Screen::List { selection: pad_step(keys, selection, Dir::Up) };
        },
        Button::Down => {
            m.screen = Screen::List { selection: pad_step(keys, selection, Dir::Down) };
        },
        Button::Left => {
            m.screen = Screen::List { selection: pad_step(keys, selection, Dir::Left) };
        },
        Button::Right => {
            m.screen = Screen::List { selection: pad_step(keys, selection, Dir::Right) };
        },
        Button::X => {
            return Effect::SetPlayer {
                player: if keys.player == 2 {
                    1
                } else {
                    2
                },
            };
        },
        Button::L => {
            if keys.subtab > 0 {
                return Effect::SetSubtab { index: keys.subtab - 1 };
            }
        },
        Button::R => {
            if keys.subtabs >= 1 {
                if keys.subtab < keys.subtabs - 1 {
                    return Effect::SetSubtab { index: keys.subtab + 1 };
                }
                if keys.subtab > keys.subtabs - 1 {
                    return Effect::SetSubtab { index: keys.subtabs - 1 };
                }
            }
        },
        Button::A => {
            if selection < keys.slots.len() {
                if keys.slots[selection].locked {
                    let msg: String = parts::concat3(
                        keys.slots[selection].name.as_str(),
                        " : ",
                        keys.modifier_word.as_str(),
                    );
                    m.toast = Toast::saying(msg, TOAST_INFO);
                } else {
                    let key_idx: usize = board::key_to_start(keys, selection);
                    m.screen = Screen::Keyboard { button_idx: selection, key_idx };
                }
            }
        },
        Button::B | Button::Minus => {
            m.screen = if m.submenu {
                Screen::Menu { selection: MENU_EDIT }
            } else {
                Screen::Inactive
            };
        },
        _ => {},
    }
    Effect::Nothing
}

/// What a button does on the keyboard.
pub open spec fn keyboard_next(keys: Keys, b: Button, slot: int, key: int) -> (Screen, Effect) {
    let here = |k: int| Screen::Keyboard { button_idx: slot as usize, key_idx: k as usize };
    let back = Screen::List { selection: pad::unstuck(keys.slots@, slot) as usize };
    match b {
        Button::Left => (here(board::left_of(keys.board@, key)), Effect::Nothing),
        Button::Right => (here(board::right_of(keys.board@, key)), Effect::Nothing),
        Button::Up => (here(board::above(keys.board@, keys.rows as int, key)), Effect::Nothing),
        Button::Down => (here(board::below(keys.board@, keys.rows as int, key)), Effect::Nothing),
        Button::A => if slot < keys.slots@.len() {
            (
                here(key),
                Effect::Bind {
                    slot: slot as usize,
                    key: if keys.board@[key].name@ == "(none)"@ {
                        None
                    } else {
                        Some(key as usize)
                    },
                },
            )
        } else {
            (here(key), Effect::Nothing)
        },
        Button::B => (back, Effect::Nothing),
        Button::Minus => (back, Effect::Nothing),
        _ => (here(key), Effect::Nothing),
    }
}

fn handle_keyboard_input(m: &mut Menu, keys: &Keys, b: Button, button_idx: usize, key_idx: usize) -> (r:
    Effect)
    requires
        old(m).screen == (Screen::Keyboard { button_idx, key_idx }),
        keys.ready(),
        key_idx < keys.board@.len(),
    ensures
        *final(m) == (Menu {
            screen: keyboard_next(*keys, b, button_idx as int, key_idx as int).0,
            ..*old(m)
        }),
        r == keyboard_next(*keys, b, button_idx as int, key_idx as int).1,
        button_idx < keys.slots@.len() ==> final(m).fits(keys),
{
    match b {
        Button::Left => {
            m.screen = Screen::Keyboard { button_idx, key_idx: board::key_left(keys, key_idx) };
        },
        Button::Right => {
            m.screen = Screen::Keyboard { button_idx, key_idx: board::key_right(keys, key_idx) };
        },
        Button::Up => {
            m.screen = Screen::Keyboard { button_idx, key_idx: board::key_up(keys, key_idx) };
        },
        Button::Down => {
            m.screen = Screen::Keyboard { button_idx, key_idx: board::key_down(keys, key_idx) };
        },
        Button::A => {
            if button_idx < keys.slots.len() {
                let key: Option<usize> = if text::str_eq(
                    keys.board[key_idx].name.as_str(),
                    "(none)",
                ) {
                    None
                } else {
                    Some(key_idx)
                };
                return Effect::Bind { slot: button_idx, key };
            }
        },
        Button::B | Button::Minus => {
            m.screen = Screen::List { selection: unstick_cursor(keys, button_idx) };
        },
        _ => {},
    }
    Effect::Nothing
}

/// What stays behind a confirmed or dismissed panel: `a` on A, `b` on B or Minus
/// without the preview.
pub open spec fn confirm_next(pre: Menu, b: Button, yes: PendingNet, back: Screen, post: Menu) -> bool {
    match b {
        Button::A => post == deferred(pre, yes),
        Button::B => post == (Menu { screen: back, preview: post.preview, ..pre })
            && post.preview@.len() == 0,
        Button::Minus => post == (Menu { screen: back, preview: post.preview, ..pre })
            && post.preview@.len() == 0,
        _ => post == pre,
    }
}

/// What a button does: the menu after it, whether the button was taken, and what
/// is left to do.
pub open spec fn input_step(
    pre: Menu,
    keys: Keys,
    install: Seq<char>,
    from_catalog: bool,
    b: Button,
    post: Menu,
    consumed: bool,
    e: Effect,
) -> bool {
    &&& consumed == (pre.screen != Screen::Inactive)
    &&& match pre.screen {
        Screen::Inactive => post == pre && e == Effect::Nothing,
        Screen::Menu { selection } => (post, e) == menu_next(
            pre,
            b,
            selection as int,
            from_catalog,
        ),
        Screen::List { selection } => {
            &&& post == (Menu {
                screen: list_screen(pre, keys, b, selection as int),
                toast: post.toast,
                ..pre
            })
            &&& list_toast(pre.toast, keys, b, selection as int, post.toast)
            &&& e == list_effect(keys, b)
        },
        Screen::Keyboard { button_idx, key_idx } => {
            &&& post == (Menu {
                screen: keyboard_next(keys, b, button_idx as int, key_idx as int).0,
                ..pre
            })
            &&& e == keyboard_next(keys, b, button_idx as int, key_idx as int).1
        },
        Screen::Profiles { selection } => {
            &&& post == (Menu {
                screen: profiles_next(pre, b, selection as int, install).0,
                ..pre
            })
            &&& e == profiles_next(pre, b, selection as int, install).1
        },
        Screen::DeleteConfirm { profile_idx } => e == Effect::Nothing && match b {
            Button::A => post == deferred(pre, PendingNet::Delete { profile_idx }),
            Button::B => post == (Menu {
                screen: Screen::Profiles { selection: profile_idx },
                ..pre
            }),
            Button::Minus => post == (Menu {
                screen: Screen::Profiles { selection: profile_idx },
                ..pre
            }),
            _ => post == pre,
        },
        Screen::Preview { profile_idx } => e == Effect::Nothing && confirm_next(
            pre,
            b,
            PendingNet::Apply { profile_idx },
            Screen::Profiles { selection: profile_idx },
            post,
        ),
        Screen::ShareConfirm => e == Effect::Nothing && confirm_next(
            pre,
            b,
            PendingNet::Share,
            Screen::Menu { selection: MENU_SHARE },
            post,
        ),
        Screen::RevertPreview => match b {
            Button::A => post == pre && e == Effect::Revert,
            Button::B => e == Effect::Nothing && post == (Menu {
                screen: Screen::Menu { selection: MENU_REVERT },
                preview: post.preview,
                ..pre
            }) && post.preview@.len() == 0,
            Button::Minus => e == Effect::Nothing && post == (Menu {
                screen: Screen::Menu { selection: MENU_REVERT },
                preview: post.preview,
                ..pre
            }) && post.preview@.len() == 0,
            _ => post == pre && e == Effect::Nothing,
        },
        Screen::Loading => post == pre && e == Effect::Nothing,
    }
}

/// A button went down. `keys` is what the editor edits, `install` this
/// installation's id, `from_catalog` whether the running game's keys come from
/// the catalogue unchanged.
pub fn input(
    m: &mut Menu,
    keys: &Keys,
    install: &str,
    from_catalog: bool,
    button: Button,
) -> (r: (bool, Effect))
    requires
        keys.ready(),
        old(m).fits(keys),
    ensures
        input_step(
            *old(m),
            *keys,
            install@,
            from_catalog,
            button,
            *final(m),
            r.0,
            r.1,
        ),
        final(m).fits(keys),
{
    match m.screen {
        Screen::Inactive => (false, Effect::Nothing),
        Screen::Menu { selection } => {
            let e: Effect = handle_menu_input(m, button, selection, from_catalog);
            (true, e)
        },
        Screen::List { selection } => {
            let e: Effect = handle_list_input(m, keys, button, selection);
            (true, e)
        },
        Screen::Keyboard { button_idx, key_idx } => {
            let e: Effect = handle_keyboard_input(m, keys, button, button_idx, key_idx);
            (true, e)
        },
        Screen::Profiles { selection } => {
            let e: Effect = handle_profiles_input(m, button, selection, install);
            (true, e)
        },
        Screen::DeleteConfirm { profile_idx } => {
            match button {
                Button::A => {
                    defer_net(m, PendingNet::Delete { profile_idx });
                },
                Button::B | Button::Minus => {
                    m.screen = Screen::Profiles { selection: profile_idx };
                },
                _ => {},
            }
            (true, Effect::Nothing)
        },
        Screen::Preview { profile_idx } => {
            match button {
                Button::A => {
                    defer_net(m, PendingNet::Apply { profile_idx });
                },
                Button::B | Button::Minus => {
                    m.preview.clear();
                    m.screen = Screen::Profiles { selection: profile_idx };
                },
                _ => {},
            }
            (true, Effect::Nothing)
        },
        Screen::ShareConfirm => {
            match button {
                Button::A => {
                    defer_net(m, PendingNet::Share);
                },
                Button::B | Button::Minus => {
                    m.preview.clear();
                    m.screen = Screen::Menu { selection: MENU_SHARE };
                },
                _ => {},
            }
            (true, Effect::Nothing)
        },
        Screen::RevertPreview => match button {
            Button::A => (true, Effect::Revert),
            Button::B | Button::Minus => {
                m.preview.clear();
                m.screen = Screen::Menu { selection: MENU_REVERT };
                (true, Effect::Nothing)
            },
            _ => (true, Effect::Nothing),
        },
        Screen::Loading => (true, Effect::Nothing),
    }
}

// ── What came of it ────────────────────────────────────────────────────────

/// The editor is entered from the menu in a game.
pub fn edit_started(m: &mut Menu, keys: &Keys)
    ensures
        *final(m) == (Menu {
            screen: Screen::List { selection: pad::unstuck(keys.slots@, 0) as usize },
            ..*old(m)
        }),
        keys.ready() ==> final(m).fits(keys),
{
    m.screen = Screen::List { selection: unstick_cursor(keys, 0) };
}

/// Another player or layer is edited: the cursor leaves a slot that is locked in it.
pub fn settle_cursor(m: &mut Menu, keys: &Keys)
    ensures
        *final(m) == (Menu {
            screen: match old(m).screen {
                Screen::List { selection } => Screen::List {
                    selection: pad::unstuck(keys.slots@, selection as int) as usize,
                },
                other => other,
            },
            ..*old(m)
        }),
        keys.ready() && old(m).fits(keys) ==> final(m).fits(keys),
{
    if let Screen::List { selection } = m.screen {
        m.screen = Screen::List { selection: unstick_cursor(keys, selection) };
    }
}

/// A slot was bound, or the card refused it.
pub fn binding_done(m: &mut Menu, keys: &Keys, st: &Settings, slot: usize, ok: bool)
    ensures
        *final(m) == (Menu {
            screen: Screen::List { selection: pad::unstuck(keys.slots@, slot as int) as usize },
            dirty: ok || old(m).dirty,
            toast: final(m).toast,
            ..*old(m)
        }),
        ok ==> final(m).toast == old(m).toast,
        !ok ==> panel::says(final(m).toast, loc::table_of(st.lang).err_sd_write@, TOAST_ERR),
        keys.ready() && slot < keys.slots@.len() ==> final(m).fits(keys),
{
    if ok {
        m.dirty = true;
    } else {
        let lc: Strings = loc::s(st);
        m.toast = Toast::result(lc.err_sd_write, false);
    }
    m.screen = Screen::List { selection: unstick_cursor(keys, slot) };
}

/// The profiles for the running game came in.
pub fn profiles_found(m: &mut Menu, matches: Vec<Match>, active_id: String)
    ensures
        *final(m) == (Menu {
            matches,
            active_id,
            screen: Screen::Profiles { selection: 0 },
            ..*old(m)
        }),
{
    m.matches = matches;
    m.active_id = active_id;
    m.screen = Screen::Profiles { selection: 0 };
}

/// The preview of a profile was built. One that changes nothing is not shown.
pub fn preview_built(m: &mut Menu, st: &Settings, profile_idx: usize, rows: Vec<String>)
    ensures
        rows@.len() == 0 ==> *final(m) == (Menu {
            toast: final(m).toast,
            screen: Screen::Profiles { selection: profile_idx },
            ..*old(m)
        }) && panel::says(
            final(m).toast,
            loc::table_of(st.lang).profile_preview_none@,
            TOAST_INFO,
        ),
        rows@.len() > 0 ==> *final(m) == (Menu {
            preview: final(m).preview,
            screen: Screen::Preview { profile_idx },
            ..*old(m)
        }) && text::texts(final(m).preview@) == names::capped(text::texts(rows@)),
{
    if rows.len() == 0 {
        let lc: Strings = loc::s(st);
        m.toast = Toast::saying(lc.profile_preview_none.to_owned(), TOAST_INFO);
        m.screen = Screen::Profiles { selection: profile_idx };
    } else {
        m.preview = cap_rows(rows);
        m.screen = Screen::Preview { profile_idx };
    }
}

/// What is known of the running game's keys.
#[derive(Clone, Copy, PartialEq, Eq, Structural, Debug)]
pub struct Facts {
    pub can_revert: bool,
    pub has_backup: bool,
}

/// A profile was applied, or could not be. A refresh of the keys that was asked for
/// before stays asked for.
pub fn applied(m: &mut Menu, st: &Settings, ok: bool, facts: Facts)
    ensures
        *final(m) == (Menu {
            dirty: ok || old(m).dirty,
            can_revert: facts.can_revert,
            has_backup: facts.has_backup,
            toast: final(m).toast,
            screen: Screen::Menu { selection: MENU_APPLY },
            ..*old(m)
        }),
        ok ==> panel::says(final(m).toast, loc::table_of(st.lang).profile_applied_ok@, TOAST_OK),
        !ok ==> panel::says(final(m).toast, loc::table_of(st.lang).bug_fail_title@, TOAST_ERR),
{
    let lc: Strings = loc::s(st);
    m.dirty = ok || m.dirty;
    m.can_revert = facts.can_revert;
    m.has_backup = facts.has_backup;
    let msg: &str = if ok {
        lc.profile_applied_ok
    } else {
        lc.bug_fail_title
    };
    m.toast = Toast::result(msg, ok);
    m.screen = Screen::Menu { selection: MENU_APPLY };
}

/// What sharing would send was built: `rows` are the changes against the profile
/// that is shared already (`update`) or against the defaults. Keys that come from
/// the catalogue unchanged are not shared again.
pub fn share_preview_built(
    m: &mut Menu,
    st: &Settings,
    from_catalog: bool,
    rows: Vec<String>,
    update: bool,
)
    ensures
        from_catalog ==> *final(m) == (Menu {
            toast: final(m).toast,
            screen: Screen::Menu { selection: MENU_SHARE },
            ..*old(m)
        }) && panel::says(final(m).toast, loc::table_of(st.lang).profile_share_dup@, TOAST_INFO),
        !from_catalog ==> *final(m) == (Menu {
            preview: final(m).preview,
            share_is_update: update,
            screen: Screen::ShareConfirm,
            ..*old(m)
        }) && text::texts(final(m).preview@) == names::capped(text::texts(rows@)),
{
    if from_catalog {
        let lc: Strings = loc::s(st);
        m.toast = Toast::saying(lc.profile_share_dup.to_owned(), TOAST_INFO);
        m.screen = Screen::Menu { selection: MENU_SHARE };
        return;
    }
    m.preview = cap_rows(rows);
    m.share_is_update = update;
    m.screen = Screen::ShareConfirm;
}

/// The keys were shared (`Ok`), or why not.
pub fn shared(m: &mut Menu, st: &Settings, result: Result<(), String>, facts: Facts)
    ensures
        *final(m) == (Menu {
            can_revert: facts.can_revert,
            has_backup: facts.has_backup,
            toast: final(m).toast,
            screen: Screen::Menu { selection: MENU_SHARE },
            ..*old(m)
        }),
        match result {
            Ok(_) => panel::says(
                final(m).toast,
                loc::table_of(st.lang).profile_shared_ok@,
                TOAST_OK,
            ),
            Err(e) => panel::says(final(m).toast, e@, TOAST_ERR),
        },
{
    m.can_revert = facts.can_revert;
    m.has_backup = facts.has_backup;
    m.toast = match result {
        Ok(_) => {
            let lc: Strings = loc::s(st);
            Toast::saying(lc.profile_shared_ok.to_owned(), TOAST_OK)
        },
        Err(e) => Toast::saying(e, TOAST_ERR),
    };
    m.screen = Screen::Menu { selection: MENU_SHARE };
}

/// The matches whose id is not `id`.
pub open spec fn without_id(list: Seq<Match>, id: Seq<char>) -> Seq<Match>
    decreases list.len(),
{
    if list.len() == 0 {
        Seq::empty()
    } else if list.last().profile.id@ != id {
        without_id(list.drop_last(), id).push(list.last())
    } else {
        without_id(list.drop_last(), id)
    }
}

/// Takes the matches of an id out of a list.
pub fn drop_id(list: &mut Vec<Match>, id: &str)
    ensures
        final(list)@ == without_id(old(list)@, id@),
{
    let ghost all = list@;
    let mut kept: Vec<Match> = Vec::new();
    let n: usize = list.len();
    let mut back: Vec<Match> = Vec::new();
    while list.len() > 0
        invariant
            n == all.len(),
            list@.len() + back@.len() == n,
            list@ == all.take(list@.len() as int),
            forall|k: int| 0 <= k < back@.len() ==> #[trigger] back@[k] == all[n - 1 - k],
        decreases list.len(),
    {
        if let Some(x) = list.pop() {
            back.push(x);
        }
        assert(list@ =~= all.take(list@.len() as int));
    }
    assert(all.take(0) =~= Seq::empty());
    while back.len() > 0
        invariant
            n == all.len(),
            back@.len() <= n,
            forall|k: int| 0 <= k < back@.len() ==> #[trigger] back@[k] == all[n - 1 - k],
            kept@ == without_id(all.take(n - back@.len()), id@),
        decreases back.len(),
    {
        let ghost i = n - back@.len();
        assert(all.take(i + 1).drop_last() =~= all.take(i));
        if let Some(x) = back.pop() {
            assert(all.take(i + 1).last() == x);
            if !text::str_eq(x.profile.id.as_str(), id) {
                kept.push(x);
            }
        }
    }
    assert(all.take(n as int) =~= all);
    *list = kept;
}

/// The row nearest to `i` in a list of `n`.
pub open spec fn nearest_row(i: int, n: int) -> int {
    if n == 0 {
        0
    } else if i < n {
        i
    } else {
        n - 1
    }
}

/// A shared profile was deleted (`Ok`), or why not.
pub fn deleted(m: &mut Menu, st: &Settings, profile_idx: usize, result: Result<(), String>)
    ensures
        profile_idx >= old(m).matches@.len() ==> *final(m) == *old(m),
        profile_idx < old(m).matches@.len() ==> *final(m) == (Menu {
            matches: final(m).matches,
            toast: final(m).toast,
            screen: Screen::Profiles {
                selection: nearest_row(
                    profile_idx as int,
                    final(m).matches@.len() as int,
                ) as usize,
            },
            ..*old(m)
        }),
        profile_idx < old(m).matches@.len() ==> match result {
            Ok(_) => final(m).matches@ == without_id(
                old(m).matches@,
                old(m).matches@[profile_idx as int].profile.id@,
            ) && panel::says(final(m).toast, loc::table_of(st.lang).profile_del_ok@, TOAST_OK),
            Err(e) => final(m).matches == old(m).matches && panel::says(
                final(m).toast,
                e@,
                TOAST_ERR,
            ),
        },
{
    if profile_idx >= m.matches.len() {
        return;
    }
    match result {
        Ok(_) => {
            let lc: Strings = loc::s(st);
            let id: String = m.matches[profile_idx].profile.id.clone();
            drop_id(&mut m.matches, id.as_str());
            m.toast = Toast::saying(lc.profile_del_ok.to_owned(), TOAST_OK);
        },
        Err(e) => {
            m.toast = Toast::saying(e, TOAST_ERR);
        },
    }
    let n: usize = m.matches.len();
    let selection: usize = if n == 0 {
        0
    } else if profile_idx < n {
        profile_idx
    } else {
        n - 1
    };
    m.screen = Screen::Profiles { selection };
}

/// The preview of a revert was built.
pub fn revert_preview_built(m: &mut Menu, rows: Vec<String>)
    ensures
        *final(m) == (Menu {
            preview: final(m).preview,
            screen: Screen::RevertPreview,
            ..*old(m)
        }),
        text::texts(final(m).preview@) == names::capped(text::texts(rows@)),
{
    m.preview = cap_rows(rows);
    m.screen = Screen::RevertPreview;
}

/// The keys were reverted, or could not be. A refresh of the keys that was asked for
/// before stays asked for.
pub fn reverted(m: &mut Menu, st: &Settings, ok: bool, facts: Facts)
    ensures
        *final(m) == (Menu {
            dirty: ok || old(m).dirty,
            can_revert: facts.can_revert,
            has_backup: facts.has_backup,
            toast: final(m).toast,
            screen: Screen::Menu { selection: MENU_EDIT },
            ..*old(m)
        }),
        ok ==> panel::says(final(m).toast, loc::table_of(st.lang).profile_reverted_ok@, TOAST_OK),
        !ok ==> panel::says(final(m).toast, loc::table_of(st.lang).bug_fail_title@, TOAST_ERR),
{
    let lc: Strings = loc::s(st);
    m.dirty = ok || m.dirty;
    m.can_revert = facts.can_revert;
    m.has_backup = facts.has_backup;
    let msg: &str = if ok {
        lc.profile_reverted_ok
    } else {
        lc.bug_fail_title
    };
    m.toast = Toast::result(msg, ok);
    m.screen = Screen::Menu { selection: MENU_EDIT };
}

// ── What is drawn ──────────────────────────────────────────────────────────

/// What the menu draws.
pub enum Picture {
    Nothing,
    /// A panel with a spinner, under the game's name.
    Loading,
    Rows(Panel),
    /// The pad with the cursor on a slot.
    Pad { selection: usize },
    /// The keyboard for a button, with the cursor on a key.
    Keyboard { label: String, key_idx: usize },
}

/// What is known of the running game when the menu is drawn.
pub struct Scene {
    pub game: String,
    pub speed_x10: u32,
    pub show_cursor: bool,
    pub install: String,
    /// The modifier of the layer that is edited; none on the plain layer.
    pub modifier: String,
    /// Could the catalogue not be read?
    pub unavailable: bool,
}

/// The name of what a key is chosen for: the button, or modifier and button.
pub open spec fn chord(modifier: Seq<char>, button: Seq<char>) -> Seq<char> {
    if modifier.len() == 0 {
        button
    } else {
        modifier + "+"@ + button
    }
}

/// What the menu draws on its screen.
pub open spec fn drawn(m: Menu, keys: Keys, lc: Strings, sc: Scene, v: Picture) -> bool {
    match m.screen {
        Screen::Inactive => v is Nothing,
        Screen::Loading => v is Loading,
        Screen::Menu { selection } => v matches Picture::Rows(p) && panel::shows(
            p,
            lc.opt_keys@,
            sc.game@,
            Some(selection),
            panel::touches_rows(
                lc,
                sc.speed_x10 as int,
                sc.show_cursor,
                m.can_revert,
                m.has_backup,
            ),
            lc.touches_footer@,
            false,
        ),
        Screen::List { selection } => v matches Picture::Pad { selection: s } && s == selection,
        Screen::Keyboard { button_idx, key_idx } => v matches Picture::Keyboard {
            label,
            key_idx: k,
        } && k == key_idx && label@ == chord(
            sc.modifier@,
            if button_idx < keys.slots@.len() {
                keys.slots@[button_idx as int].name@
            } else {
                Seq::empty()
            },
        ),
        Screen::Profiles { selection } => v matches Picture::Rows(p) && panel::shows(
            p,
            lc.profile_title@,
            sc.game@,
            Some(selection),
            panel::profile_rows(lc, m.matches@, m.active_id@, sc.unavailable),
            panel::profile_footer(
                lc,
                panel::mine_at(m.matches@, selection as int, sc.install@),
            ),
            true,
        ),
        Screen::DeleteConfirm { profile_idx } => v matches Picture::Rows(p) && panel::shows(
            p,
            lc.profile_del_confirm@,
            Seq::empty(),
            None,
            seq![
                if profile_idx < m.matches@.len() {
                    panel::profile_name(m.matches@[profile_idx as int].profile)
                } else {
                    Seq::empty()
                },
            ],
            lc.del_footer@,
            true,
        ),
        Screen::Preview { .. } => v matches Picture::Rows(p) && panel::shows(
            p,
            lc.profile_preview_title@,
            ""@,
            None,
            panel::preview_lines(lc, text::texts(m.preview@)),
            lc.profile_preview_footer@,
            true,
        ),
        Screen::ShareConfirm => v matches Picture::Rows(p) && panel::shows(
            p,
            lc.opt_share@,
            panel::share_subtitle(lc, m.share_is_update),
            None,
            panel::preview_lines(lc, text::texts(m.preview@)),
            lc.lang_footer@,
            true,
        ),
        Screen::RevertPreview => v matches Picture::Rows(p) && panel::shows(
            p,
            lc.revert_preview_title@,
            ""@,
            None,
            panel::preview_lines(lc, text::texts(m.preview@)),
            lc.revert_preview_footer@,
            true,
        ),
    }
}

/// One frame: what the menu draws, and the toast over it. Nothing while the menu is
/// closed.
pub fn draw(m: &mut Menu, keys: &Keys, st: &Settings, sc: &Scene) -> (r: (
    Picture,
    Option<(String, u8)>,
))
    ensures
        drawn(*old(m), *keys, loc::table_of(st.lang), *sc, r.0),
        *final(m) == (Menu { toast: final(m).toast, ..*old(m) }),
        final(m).toast.msg == old(m).toast.msg,
        final(m).toast.kind == old(m).toast.kind,
        old(m).screen == Screen::Inactive ==> *final(m) == *old(m) && r.0 is Nothing && r.1 is None,
        old(m).screen != Screen::Inactive && old(m).toast.frames == 0 ==> r.1 is None
            && final(m).toast.frames == 0,
        old(m).screen != Screen::Inactive && old(m).toast.frames > 0 ==> final(m).toast.frames
            == old(m).toast.frames - 1 && (r.1 matches Some(t) && t.0@ == old(m).toast.msg@ && t.1
            == old(m).toast.kind),
{
    if !is_active(m) {
        return (Picture::Nothing, None);
    }
    let toast: Option<(String, u8)> = m.toast.tick();
    let lc: Strings = loc::s(st);
    let view: Picture = match m.screen {
        Screen::Inactive => Picture::Nothing,
        Screen::Loading => Picture::Loading,
        Screen::Menu { selection } => Picture::Rows(
            panel::touches_panel(
                &lc,
                sc.game.as_str(),
                selection,
                sc.speed_x10,
                sc.show_cursor,
                m.can_revert,
                m.has_backup,
            ),
        ),
        Screen::List { selection } => Picture::Pad { selection },
        Screen::Keyboard { button_idx, key_idx } => {
            let button: String = if button_idx < keys.slots.len() {
                keys.slots[button_idx].name.clone()
            } else {
                let e: String = String::new();
                assert(e@ =~= Seq::empty());
                e
            };
            let label: String = if sc.modifier.unicode_len() == 0 {
                button
            } else {
                parts::concat3(sc.modifier.as_str(), "+", button.as_str())
            };
            Picture::Keyboard { label, key_idx }
        },
        Screen::Profiles { selection } => Picture::Rows(
            panel::profiles_panel(
                &lc,
                sc.game.as_str(),
                selection,
                &m.matches,
                m.active_id.as_str(),
                sc.unavailable,
                sc.install.as_str(),
            ),
        ),
        Screen::DeleteConfirm { profile_idx } => Picture::Rows(
            panel::delete_profile_panel(&lc, &m.matches, profile_idx),
        ),
        Screen::Preview { .. } => Picture::Rows(
            panel::preview_panel(
                &lc,
                lc.profile_preview_title,
                "",
                &m.preview,
                lc.profile_preview_footer,
            ),
        ),
        Screen::ShareConfirm => Picture::Rows(
            panel::share_panel(&lc, m.share_is_update, &m.preview),
        ),
        Screen::RevertPreview => Picture::Rows(
            panel::preview_panel(
                &lc,
                lc.revert_preview_title,
                "",
                &m.preview,
                lc.revert_preview_footer,
            ),
        ),
    };
    (view, toast)
}

} // verus!
