//! Fingers on the lists: a drag scrolls, a tap selects, a second tap activates.

use crate::library::screen::Screen;
use crate::library::state::State;
use vstd::prelude::*;

verus! {

/// What the finger does.
#[derive(Clone, Copy, PartialEq, Eq, Structural, Debug)]
pub struct Gesture {
    pub down: bool,
    pub dragging: bool,
}

/// What is seen of the finger in one frame.
#[derive(Clone, Copy, PartialEq, Eq, Structural, Debug)]
pub struct Contact {
    pub pressed: bool,
    /// Is it on the list?
    pub inside: bool,
    /// Did it move far enough for a drag?
    pub moved: bool,
}

/// What the outside has to do.
#[derive(Clone, Copy, PartialEq, Eq, Structural, Debug)]
pub enum Action {
    Nothing,
    /// Keep where the finger went down and where the list stood.
    Begin,
    /// The list follows the finger.
    Follow,
    /// The list is let go.
    Release,
    /// The drag ended: the list snaps, `snap_rows` or `snap_strip`, and is let go.
    Snap,
    /// The finger tapped: `tapped`.
    Tap,
}

/// Does the screen answer to fingers?
pub open spec fn touchable(s: Screen) -> bool {
    match s {
        Screen::List { .. } => true,
        Screen::FpGallery { .. } => true,
        Screen::DistantFiles { .. } => true,
        Screen::DistantIdle { .. } => true,
        _ => false,
    }
}

/// What a frame makes of a gesture.
pub open spec fn gesture_next(g: Gesture, on_list: bool, c: Contact) -> (Gesture, Action) {
    if !on_list {
        (
            Gesture { down: false, dragging: false },
            if g.down {
                Action::Release
            } else {
                Action::Nothing
            },
        )
    } else if c.pressed && !g.down {
        if c.inside {
            (Gesture { down: true, dragging: false }, Action::Begin)
        } else {
            (g, Action::Nothing)
        }
    } else if c.pressed {
        let dragging = g.dragging || c.moved;
        (
            Gesture { dragging, ..g },
            if dragging {
                Action::Follow
            } else {
                Action::Nothing
            },
        )
    } else if g.down {
        if g.dragging {
            (Gesture { down: false, dragging: false }, Action::Snap)
        } else {
            (Gesture { down: false, ..g }, Action::Tap)
        }
    } else {
        (g, Action::Nothing)
    }
}

/// One frame of a gesture.
pub fn touch(s: &State, g: &mut Gesture, c: Contact) -> (r: Action)
    ensures
        (*final(g), r) == gesture_next(*old(g), touchable(s.screen), c),
{
    let on_list: bool = match s.screen {
        Screen::List { .. } => true,
        Screen::FpGallery { .. } => true,
        Screen::DistantFiles { .. } => true,
        Screen::DistantIdle { .. } => true,
        _ => false,
    };
    if !on_list {
        let was_down: bool = g.down;
        g.down = false;
        g.dragging = false;
        return if was_down {
            Action::Release
        } else {
            Action::Nothing
        };
    }
    if c.pressed && !g.down {
        if c.inside {
            g.down = true;
            g.dragging = false;
            return Action::Begin;
        }
        return Action::Nothing;
    }
    if c.pressed {
        if c.moved {
            g.dragging = true;
        }
        return if g.dragging {
            Action::Follow
        } else {
            Action::Nothing
        };
    }
    if g.down {
        g.down = false;
        if g.dragging {
            g.dragging = false;
            return Action::Snap;
        }
        return Action::Tap;
    }
    Action::Nothing
}

/// A tap comes only of a finger that did not drag, and a drag never ends in a tap:
/// once it drags, a gesture goes on dragging until the finger lifts and the list
/// snaps.
pub proof fn a_drag_is_no_tap(g: Gesture, on_list: bool, c: Contact)
    ensures
        g.dragging ==> gesture_next(g, on_list, c).1 != Action::Tap,
        g.down && g.dragging && on_list && c.pressed ==> gesture_next(g, on_list, c) == (
            g,
            Action::Follow,
        ),
        g.down && g.dragging && on_list && !c.pressed ==> gesture_next(g, on_list, c).1
            == Action::Snap,
        g.down && !g.dragging && on_list && !c.pressed ==> gesture_next(g, on_list, c).1
            == Action::Tap,
{
}

/// The smaller of two.
pub open spec fn at_most(a: int, b: int) -> int {
    if a < b {
        a
    } else {
        b
    }
}

/// The screen with its list scrolled to a row.
pub open spec fn scrolled(s: Screen, off: int) -> Screen {
    match s {
        Screen::List { selection, .. } => Screen::List { selection, scroll_offset: off as usize },
        Screen::FpGallery { selection, .. } => Screen::FpGallery {
            selection,
            scroll: off as usize,
        },
        Screen::DistantFiles { selection, .. } => Screen::DistantFiles {
            selection,
            scroll_offset: off as usize,
        },
        Screen::DistantIdle { selection, .. } => Screen::DistantIdle {
            selection,
            scroll_offset: off as usize,
        },
        other => other,
    }
}

/// The list snaps to the row that the drag left at its top; `total` rows there are,
/// of which `visible` are shown.
pub fn snap_rows(s: &mut State, row: usize, total: usize, visible: usize)
    ensures
        *final(s) == (State {
            screen: scrolled(
                old(s).screen,
                at_most(
                    row as int,
                    if total > visible {
                        total - visible
                    } else {
                        0
                    },
                ),
            ),
            ..*old(s)
        }),
{
    let max: usize = if total > visible {
        total - visible
    } else {
        0
    };
    let off: usize = if row < max {
        row
    } else {
        max
    };
    match s.screen {
        Screen::List { selection, .. } => {
            s.screen = Screen::List { selection, scroll_offset: off };
        },
        Screen::FpGallery { selection, .. } => {
            s.screen = Screen::FpGallery { selection, scroll: off };
        },
        Screen::DistantFiles { selection, .. } => {
            s.screen = Screen::DistantFiles { selection, scroll_offset: off };
        },
        Screen::DistantIdle { selection, .. } => {
            s.screen = Screen::DistantIdle { selection, scroll_offset: off };
        },
        _ => {},
    }
}

/// In a layout of one row the drag leaves a game in the middle: it is selected.
pub fn snap_strip(s: &mut State, game: usize, total: usize)
    ensures
        *final(s) == (State {
            screen: match old(s).screen {
                Screen::List { scroll_offset, .. } => Screen::List {
                    selection: at_most(
                        game as int,
                        if total > 0 {
                            total - 1
                        } else {
                            0
                        },
                    ) as usize,
                    scroll_offset,
                },
                other => other,
            },
            ..*old(s)
        }),
{
    let max: usize = if total > 0 {
        total - 1
    } else {
        0
    };
    let sel: usize = if game < max {
        game
    } else {
        max
    };
    if let Screen::List { scroll_offset, .. } = s.screen {
        s.screen = Screen::List { selection: sel, scroll_offset };
    }
}

/// What a tap leads to: the screen, and whether it activates.
pub open spec fn tap_next(s: State, hit: Option<usize>, on_cover: bool) -> (Screen, bool) {
    match hit {
        None => (s.screen, on_cover && !s.applet_mode && s.entries@.len() > 0),
        Some(i) => match s.screen {
            Screen::List { selection, scroll_offset } => (
                Screen::List { selection: i, scroll_offset },
                i == selection,
            ),
            Screen::FpGallery { selection, scroll } => (
                Screen::FpGallery { selection: i, scroll },
                i == selection,
            ),
            Screen::DistantFiles { selection, scroll_offset } => (
                Screen::DistantFiles { selection: i, scroll_offset },
                i == selection,
            ),
            Screen::DistantIdle { selection, scroll_offset } => (
                Screen::DistantIdle { selection: i, scroll_offset },
                i == selection,
            ),
            other => (other, false),
        },
    }
}

/// A tap on tile `hit`; `on_cover` where it missed the tiles of a one-row layout
/// but is on the large cover. True where it activates, as the button A does.
pub fn tapped(s: &mut State, hit: Option<usize>, on_cover: bool) -> (r: bool)
    ensures
        *final(s) == (State { screen: tap_next(*old(s), hit, on_cover).0, ..*old(s) }),
        r == tap_next(*old(s), hit, on_cover).1,
{
    match hit {
        None => on_cover && !s.applet_mode && s.entries.len() > 0,
        Some(i) => match s.screen {
            Screen::List { selection, scroll_offset } => {
                s.screen = Screen::List { selection: i, scroll_offset };
                i == selection
            },
            Screen::FpGallery { selection, scroll } => {
                s.screen = Screen::FpGallery { selection: i, scroll };
                i == selection
            },
            Screen::DistantFiles { selection, scroll_offset } => {
                s.screen = Screen::DistantFiles { selection: i, scroll_offset };
                i == selection
            },
            Screen::DistantIdle { selection, scroll_offset } => {
                s.screen = Screen::DistantIdle { selection: i, scroll_offset };
                i == selection
            },
            _ => false,
        },
    }
}

/// A second tap on the same tile activates, and moves nothing.
pub proof fn second_tap_activates(s: State, i: usize, after: State)
    requires
        touchable(s.screen),
        after == (State { screen: tap_next(s, Some(i), false).0, ..s }),
    ensures
        tap_next(after, Some(i), false) == (after.screen, true),
{
}

} // verus!
