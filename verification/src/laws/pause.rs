//! The menu in a running game.

use crate::laws::panels;
use crate::library::screen::Button;
use crate::menu;
use crate::menu::pad::Keys;
use crate::menu::{Effect, Menu, PendingNet, Screen};
use vstd::prelude::*;

verus! {

/// In the menu Down goes one row down and Up one row up, round the ends; there are six
/// rows where the keys can be reverted, and five where they cannot.
pub proof fn the_menu_goes_round(
    m: Menu,
    keys: Keys,
    install: Seq<char>,
    from_catalog: bool,
    down: bool,
    m2: Menu,
    consumed: bool,
    e: Effect,
    row: usize,
)
    requires
        menu::input_step(
            m,
            keys,
            install,
            from_catalog,
            if down {
                Button::Down
            } else {
                Button::Up
            },
            m2,
            consumed,
            e,
        ),
        m.screen == (Screen::Menu { selection: row }),
        row < 5 || (row == 5 && m.can_revert),
    ensures
        consumed && e == Effect::Nothing,
        m2 == (Menu { screen: m2.screen, ..m }),
        ({
            let n: int = if m.can_revert {
                6
            } else {
                5
            };
            m2.screen matches Screen::Menu { selection } && selection < n && (if down {
                selection == (row + 1) % n
            } else {
                row == (selection + 1) % n
            })
        }),
{
}

/// The rows of the menu edit the keys, look for profiles, share, change the cursor's
/// speed, show or hide it, and offer to revert; B leaves the menu.
pub proof fn the_menu_rows(
    m: Menu,
    keys: Keys,
    install: Seq<char>,
    from_catalog: bool,
    b: Button,
    m2: Menu,
    consumed: bool,
    e: Effect,
    row: usize,
)
    requires
        menu::input_step(m, keys, install, from_catalog, b, m2, consumed, e),
        m.screen == (Screen::Menu { selection: row }),
        row < 5 || (row == 5 && m.can_revert),
    ensures
        consumed,
        b == Button::B || b == Button::Minus ==> m2 == (Menu { screen: Screen::Inactive, ..m }) && e
            == Effect::Nothing,
        b == Button::A && row == 0 ==> m2 == m && e == Effect::StartEdit,
        b == Button::A && row == 1 ==> m2.pending == Some((PendingNet::OpenProfiles, false)),
        b == Button::A && row == 2 && from_catalog ==> m2 == m && e == Effect::OpenShareConfirm,
        b == Button::A && row == 2 && !from_catalog ==> m2.pending == Some(
            (PendingNet::OpenShareConfirm, false),
        ),
        b == Button::A && row == 3 ==> m2 == m && e == Effect::CycleCursorSpeed,
        b == Button::A && row == 4 ==> m2 == m && e == Effect::ToggleShowCursor,
        b == Button::A && row == 5 ==> m2 == m && e == Effect::OpenRevertPreview,
        b != Button::A ==> m2.pending == m.pending && e == Effect::Nothing,
{
}

/// Among the profiles A shows the one under the cursor; X asks to delete it where this
/// installation shared it, and does nothing where it did not.
pub proof fn only_own_profiles_are_deleted(
    m: Menu,
    keys: Keys,
    install: Seq<char>,
    from_catalog: bool,
    b: Button,
    m2: Menu,
    consumed: bool,
    e: Effect,
    at: usize,
)
    requires
        menu::input_step(m, keys, install, from_catalog, b, m2, consumed, e),
        m.screen == (Screen::Profiles { selection: at }),
        at < m.matches@.len(),
        b == Button::A || b == Button::X,
    ensures
        b == Button::A ==> m2 == m && e == (Effect::OpenPreview { profile_idx: at }),
        b == Button::X ==> e == Effect::Nothing && m2 == (Menu {
            screen: if panels::ends_as_mine(m.matches@[at as int].profile.id@, install) {
                Screen::DeleteConfirm { profile_idx: at }
            } else {
                m.screen
            },
            ..m
        }),
{
    panels::mine_is_by_ending(m.matches@[at as int].profile.id@, install);
}

/// A profile is applied, shared or deleted, and keys are reverted, on A alone; without
/// it nothing is requested.
pub proof fn only_what_was_confirmed_is_done(
    m: Menu,
    keys: Keys,
    install: Seq<char>,
    from_catalog: bool,
    b: Button,
    m2: Menu,
    consumed: bool,
    e: Effect,
    p: usize,
)
    requires
        menu::input_step(m, keys, install, from_catalog, b, m2, consumed, e),
        m.pending is None,
        m.screen == (Screen::Preview { profile_idx: p }) || m.screen == (Screen::DeleteConfirm {
            profile_idx: p,
        }) || m.screen == Screen::ShareConfirm || m.screen == Screen::RevertPreview,
    ensures
        b != Button::A ==> m2.pending is None && e == Effect::Nothing,
        b == Button::A && m.screen is Preview ==> m2.pending == Some(
            (PendingNet::Apply { profile_idx: p }, false),
        ),
        b == Button::A && m.screen is DeleteConfirm ==> m2.pending == Some(
            (PendingNet::Delete { profile_idx: p }, false),
        ),
        b == Button::A && m.screen is ShareConfirm ==> m2.pending == Some(
            (PendingNet::Share, false),
        ),
        b == Button::A && m.screen is RevertPreview ==> m2.pending is None && e == Effect::Revert,
        b == Button::B ==> match m.screen {
            Screen::Preview { .. } => m2.screen == (Screen::Profiles { selection: p }),
            Screen::DeleteConfirm { .. } => m2.screen == (Screen::Profiles { selection: p }),
            Screen::ShareConfirm => m2.screen == (Screen::Menu { selection: 2 }),
            _ => m2.screen == (Screen::Menu { selection: 5 }),
        },
{
}

/// In the editor X changes to the other player, and L and R to the layer before and
/// behind; the keys under the cursor stay.
pub proof fn players_and_layers_are_changed(
    m: Menu,
    keys: Keys,
    install: Seq<char>,
    from_catalog: bool,
    b: Button,
    m2: Menu,
    consumed: bool,
    e: Effect,
    at: usize,
)
    requires
        menu::input_step(m, keys, install, from_catalog, b, m2, consumed, e),
        m.screen == (Screen::List { selection: at }),
        keys.player == 1 || keys.player == 2,
        keys.subtab < keys.subtabs,
    ensures
        b == Button::X ==> m2 == m && e == (Effect::SetPlayer { player: (3 - keys.player) as u8 }),
        b == Button::L ==> m2 == m && e == (if keys.subtab > 0 {
            Effect::SetSubtab { index: (keys.subtab - 1) as usize }
        } else {
            Effect::Nothing
        }),
        b == Button::R ==> m2 == m && e == (if keys.subtab + 1 < keys.subtabs {
            Effect::SetSubtab { index: (keys.subtab + 1) as usize }
        } else {
            Effect::Nothing
        }),
{
}

/// A tap puts the cursor on what was tapped, a key, a slot, a row or a profile, and
/// activates where the cursor was on it; a tap beside them, or on a locked slot, does
/// nothing.
pub proof fn a_tap_selects(m: Menu, keys: Keys, i: usize)
    ensures
        ({
            let (to, go) = menu::touched(m, keys, i as int);
            match m.screen {
                Screen::Keyboard { button_idx, key_idx } => if i < keys.board@.len() {
                    to == (Screen::Keyboard { button_idx, key_idx: i }) && go == (key_idx == i)
                } else {
                    to == m.screen && !go
                },
                Screen::List { selection } => if i < keys.slots@.len()
                    && !keys.slots@[i as int].locked {
                    to == (Screen::List { selection: i }) && go == (selection == i)
                } else {
                    to == m.screen && !go
                },
                Screen::Menu { selection } => if i < 5 || (i == 5 && m.can_revert) {
                    to == (Screen::Menu { selection: i }) && go == (selection == i)
                } else {
                    to == m.screen && !go
                },
                Screen::Profiles { selection } => if i < m.matches@.len() {
                    to == (Screen::Profiles { selection: i }) && go == (selection == i)
                } else {
                    to == m.screen && !go
                },
                _ => to == m.screen && !go,
            }
        }),
{
}

} // verus!
