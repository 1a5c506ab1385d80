//! Editing the keys: how the cursor goes over the keyboard and over the pad.

use crate::laws;
use crate::library::screen::Button;
use crate::menu;
use crate::menu::board;
use crate::menu::board::BoardKey;
use crate::menu::pad;
use crate::menu::pad::{Dir, Keys, Slot};
use crate::menu::{Effect, Menu, Screen};
use vstd::prelude::*;

verus! {

/// How far apart, in thousandths of a unit, two keys of a row are at least.
pub const APART: i64 = 10;

/// Some key of the row of `k` has its middle clearly left of that of `k`.
pub open spec fn has_left(b: Seq<BoardKey>, k: int) -> bool {
    exists|i: int| 0 <= i < b.len() && (#[trigger] b[i]).row == b[k].row && b[i].cx < b[k].cx - APART
}

/// Some key of the row of `k` has its middle clearly right of that of `k`.
pub open spec fn has_right(b: Seq<BoardKey>, k: int) -> bool {
    exists|i: int| 0 <= i < b.len() && (#[trigger] b[i]).row == b[k].row && b[i].cx > b[k].cx + APART
}

proof fn rightmost_exists(b: Seq<BoardKey>, row: u8, limit: int, k: int) -> (i: int)
    requires
        0 <= k < b.len(),
        b[k].row == row,
        b[k].cx < limit,
    ensures
        board::rightmost(b, row, limit, i),
    decreases b.len(),
{
    let n = b.len() - 1;
    let d = b.drop_last();
    if exists|j: int| 0 <= j < n && (#[trigger] d[j]).row == row && d[j].cx < limit {
        let j = choose|j: int| 0 <= j < n && (#[trigger] d[j]).row == row && d[j].cx < limit;
        let i = rightmost_exists(d, row, limit, j);
        let r = if b[n].row == row && b[n].cx < limit && b[n].cx >= b[i].cx {
            n
        } else {
            i
        };
        assert forall|x: int| 0 <= x < b.len() && (#[trigger] b[x]).row == row && b[x].cx
            < limit implies {
            &&& b[x].cx <= b[r].cx
            &&& x > r ==> b[x].cx < b[r].cx
        } by {
            if x < n {
                assert(d[x].row == row);
            }
        }
        r
    } else {
        assert forall|x: int| 0 <= x < b.len() && (#[trigger] b[x]).row == row && b[x].cx
            < limit implies x == n by {
            if x < n {
                assert(d[x].row == row);
            }
        }
        n
    }
}

proof fn leftmost_exists(b: Seq<BoardKey>, row: u8, limit: int, k: int) -> (i: int)
    requires
        0 <= k < b.len(),
        b[k].row == row,
        b[k].cx > limit,
    ensures
        board::leftmost(b, row, limit, i),
{
    let p = |j: int| 0 <= j < b.len() && b[j].row == row && b[j].cx > limit;
    let far = |j: int| b[j].cx as int;
    let i = laws::nearest_exists(b.len() as int, p, far, k);
    assert forall|x: int| 0 <= x < b.len() && (#[trigger] b[x]).row == row && b[x].cx > limit implies {
        &&& b[i].cx <= b[x].cx
        &&& x < i ==> b[i].cx < b[x].cx
    } by {
        assert(p(x));
    }
    i
}

proof fn nearest_key_exists(b: Seq<BoardKey>, row: int, cx: int, k: int) -> (i: int)
    requires
        0 <= k < b.len(),
        b[k].row == row,
    ensures
        board::nearest(b, row, cx, i),
{
    let p = |j: int| 0 <= j < b.len() && b[j].row == row;
    let far = |j: int| board::off(b, j, cx);
    let i = laws::nearest_exists(b.len() as int, p, far, k);
    assert forall|x: int| 0 <= x < b.len() && (#[trigger] b[x]).row == row implies {
        &&& board::off(b, i, cx) <= board::off(b, x, cx)
        &&& x < i ==> board::off(b, i, cx) < board::off(b, x, cx)
    } by {
        assert(p(x));
    }
    i
}

/// On the keyboard Left goes to the next key to the left in the row, and from the
/// first one to the last; Right the other way. The slot that is bound stays, and
/// nothing is bound yet.
pub proof fn the_keyboard_is_walked_along_its_rows(
    m: Menu,
    keys: Keys,
    install: Seq<char>,
    from_catalog: bool,
    right: bool,
    m2: Menu,
    consumed: bool,
    e: Effect,
    slot: usize,
    key: usize,
)
    requires
        menu::input_step(
            m,
            keys,
            install,
            from_catalog,
            if right {
                Button::Right
            } else {
                Button::Left
            },
            m2,
            consumed,
            e,
        ),
        m.screen == (Screen::Keyboard { button_idx: slot, key_idx: key }),
        key < keys.board@.len() <= usize::MAX,
    ensures
        consumed && e == Effect::Nothing,
        ({
            let b = keys.board@;
            &&& m2.screen matches Screen::Keyboard { button_idx, key_idx }
            &&& button_idx == slot
            &&& key_idx < b.len()
            &&& b[key_idx as int].row == b[key as int].row
            &&& if right {
                if has_right(b, key as int) {
                    &&& b[key as int].cx < b[key_idx as int].cx
                    &&& forall|k: int|
                        0 <= k < b.len() && (#[trigger] b[k]).row == b[key as int].row && b[k].cx
                            > b[key as int].cx + APART ==> b[k].cx >= b[key_idx as int].cx
                } else {
                    forall|k: int|
                        0 <= k < b.len() && (#[trigger] b[k]).row == b[key as int].row ==> b[k].cx
                            >= b[key_idx as int].cx
                }
            } else {
                if has_left(b, key as int) {
                    &&& b[key_idx as int].cx < b[key as int].cx
                    &&& forall|k: int|
                        0 <= k < b.len() && (#[trigger] b[k]).row == b[key as int].row && b[k].cx
                            < b[key as int].cx - APART ==> b[k].cx <= b[key_idx as int].cx
                } else {
                    forall|k: int|
                        0 <= k < b.len() && (#[trigger] b[k]).row == b[key as int].row ==> b[k].cx
                            <= b[key_idx as int].cx
                }
            }
        }),
{
    let b = keys.board@;
    let row = b[key as int].row;
    if right {
        if has_right(b, key as int) {
            let i = choose|i: int|
                0 <= i < b.len() && (#[trigger] b[i]).row == b[key as int].row && b[i].cx
                    > b[key as int].cx + APART;
            let r = leftmost_exists(b, row, b[key as int].cx + 10, i);
            assert(board::leftmost(b, row, b[key as int].cx + 10, r));
        } else {
            let limit = b[key as int].cx + 10;
            assert forall|c: int| !#[trigger] board::leftmost(b, row, limit, c) by {}
            let r = leftmost_exists(b, row, -board::beyond(), key as int);
            assert(board::leftmost(b, row, -board::beyond(), r));
        }
    } else {
        if has_left(b, key as int) {
            let i = choose|i: int|
                0 <= i < b.len() && (#[trigger] b[i]).row == b[key as int].row && b[i].cx
                    < b[key as int].cx - APART;
            let r = rightmost_exists(b, row, b[key as int].cx - 10, i);
            assert(board::rightmost(b, row, b[key as int].cx - 10, r));
        } else {
            let limit = b[key as int].cx - 10;
            assert forall|c: int| !#[trigger] board::rightmost(b, row, limit, c) by {}
            let r = rightmost_exists(b, row, board::beyond(), key as int);
            assert(board::rightmost(b, row, board::beyond(), r));
        }
    }
}

/// The distance of two middles.
pub open spec fn gap(x: int, y: int) -> int {
    if x < y {
        y - x
    } else {
        x - y
    }
}

/// On the keyboard Up goes to the row above, and from the first row to the last, Down
/// to the row below, and from the last row to the first: in that row to the key whose
/// middle is nearest. Where the row has no key the cursor stays.
pub proof fn the_keyboard_is_walked_from_row_to_row(
    m: Menu,
    keys: Keys,
    install: Seq<char>,
    from_catalog: bool,
    down: bool,
    m2: Menu,
    consumed: bool,
    e: Effect,
    slot: usize,
    key: usize,
)
    requires
        menu::input_step(
            m,
            keys,
            install,
            from_catalog,
            if down {
                Button::Down
            } else {
                Button::Up
            },
            m2,
            consumed,
            e,
        ),
        m.screen == (Screen::Keyboard { button_idx: slot, key_idx: key }),
        key < keys.board@.len() <= usize::MAX,
        keys.board@[key as int].row < keys.rows,
    ensures
        consumed && e == Effect::Nothing,
        ({
            let b = keys.board@;
            let from = b[key as int];
            let want = if down {
                (from.row + 1) % (keys.rows as int)
            } else {
                (from.row + keys.rows - 1) % (keys.rows as int)
            };
            &&& m2.screen matches Screen::Keyboard { button_idx, key_idx }
            &&& button_idx == slot
            &&& key_idx < b.len()
            &&& if exists|k: int| 0 <= k < b.len() && (#[trigger] b[k]).row == want {
                &&& b[key_idx as int].row == want
                &&& forall|k: int|
                    0 <= k < b.len() && (#[trigger] b[k]).row == want ==> gap(
                        b[key_idx as int].cx as int,
                        from.cx as int,
                    ) <= gap(b[k].cx as int, from.cx as int)
            } else {
                key_idx == key
            }
        }),
{
    let b = keys.board@;
    let from = b[key as int];
    let n = keys.rows as int;
    let want = if down {
        (from.row + 1) % n
    } else {
        (from.row + n - 1) % n
    };
    let row = if down {
        if from.row + 1 >= n {
            0
        } else {
            from.row + 1
        }
    } else {
        if from.row == 0 {
            n - 1
        } else {
            from.row - 1
        }
    };
    assert(row == want) by (nonlinear_arith)
        requires
            0 <= from.row < n,
            want == (if down {
                (from.row + 1) % n
            } else {
                (from.row + n - 1) % n
            }),
            row == (if down {
                if from.row + 1 >= n {
                    0
                } else {
                    from.row + 1
                }
            } else {
                if from.row == 0 {
                    n - 1
                } else {
                    from.row - 1
                }
            }),
    ;
    if exists|k: int| 0 <= k < b.len() && (#[trigger] b[k]).row == want {
        let k = choose|k: int| 0 <= k < b.len() && (#[trigger] b[k]).row == want;
        let i = nearest_key_exists(b, row, from.cx as int, k);
        assert(board::nearest(b, row, from.cx as int, i));
    } else {
        let cx = from.cx as int;
        assert forall|c: int| !#[trigger] board::nearest(b, row, cx, c) by {}
    }
}

/// On the keyboard A binds the key under the cursor to the slot, and the key that
/// stands for none takes the binding away. B goes back to the pad.
pub proof fn the_key_under_the_cursor_is_bound(
    m: Menu,
    keys: Keys,
    install: Seq<char>,
    from_catalog: bool,
    m2: Menu,
    consumed: bool,
    e: Effect,
    slot: usize,
    key: usize,
)
    requires
        menu::input_step(m, keys, install, from_catalog, Button::A, m2, consumed, e),
        m.screen == (Screen::Keyboard { button_idx: slot, key_idx: key }),
        slot < keys.slots@.len(),
        key < keys.board@.len(),
    ensures
        m2 == m,
        e matches Effect::Bind { slot: s, key: k } && s == slot && match k {
            Some(i) => i == key && keys.board@[i as int].name@ != "(none)"@,
            None => keys.board@[key as int].name@ == "(none)"@,
        },
{
}

// ── The pad ────────────────────────────────────────────────────────────────

/// How far apart, in thousandths of a unit, two columns of the pad are at least.
pub const COLUMN: i64 = 500;

/// The slot can be bound, and lies where the button leads: above or below in the
/// column, or in a column to the left or to the right.
pub open spec fn is_that_way(slots: Seq<Slot>, cur: int, b: Button, i: int) -> bool {
    let (from, to) = (slots[cur], slots[i]);
    &&& 0 <= i < slots.len()
    &&& !to.locked
    &&& match b {
        Button::Up => gap(to.cx as int, from.cx as int) < COLUMN && to.cy < from.cy - APART,
        Button::Down => gap(to.cx as int, from.cx as int) < COLUMN && to.cy > from.cy + APART,
        Button::Left => to.cx < from.cx - COLUMN,
        Button::Right => to.cx > from.cx + COLUMN,
        _ => false,
    }
}

proof fn best_exists(slots: Seq<Slot>, cur: int, dir: Dir, k: int) -> (i: int)
    requires
        pad::candidate(slots, cur, dir, k),
    ensures
        pad::best(slots, cur, dir, i),
{
    let p = |j: int| pad::candidate(slots, cur, dir, j);
    let far = |j: int| pad::cost(slots, cur, dir, j);
    let i = laws::nearest_exists(slots.len() as int, p, far, k);
    assert forall|x: int| #[trigger] pad::candidate(slots, cur, dir, x) implies {
        &&& pad::cost(slots, cur, dir, i) <= pad::cost(slots, cur, dir, x)
        &&& x < i ==> pad::cost(slots, cur, dir, i) < pad::cost(slots, cur, dir, x)
    } by {
        assert(p(x));
    }
    i
}

proof fn far_end_exists(slots: Seq<Slot>, cur: int, dir: Dir, k: int) -> (i: int)
    requires
        pad::behind(slots, cur, dir, k),
    ensures
        pad::far_end(slots, cur, dir, i),
{
    let p = |j: int| pad::behind(slots, cur, dir, j);
    let far = |j: int|
        if dir == Dir::Up {
            -pad::mid_y(slots, j)
        } else {
            pad::mid_y(slots, j)
        };
    let i = laws::nearest_exists(slots.len() as int, p, far, k);
    assert forall|x: int| #[trigger] pad::behind(slots, cur, dir, x) implies far(i) <= far(x) && (x < i
        ==> far(i) < far(x)) by {
        assert(p(x));
    }
    i
}

proof fn target_exists(slots: Seq<Slot>, cur: int, dir: Dir) -> (r: int)
    ensures
        pad::leads_to(slots, cur, dir, r),
        pad::target(slots, cur, dir) == r,
{
    let r = if pad::any(slots, cur, dir) {
        let k = choose|k: int| pad::candidate(slots, cur, dir, k);
        best_exists(slots, cur, dir, k)
    } else if exists|i: int| pad::behind(slots, cur, dir, i) {
        let k = choose|k: int| pad::behind(slots, cur, dir, k);
        far_end_exists(slots, cur, dir, k)
    } else {
        cur
    };
    pad::target_is(slots, cur, dir, r);
    r
}

/// On the pad a direction goes to a slot that lies that way and can be bound, where
/// there is one: up and down to the next of the column; left and right to the nearest
/// in height, and of two in one height to the nearer. Where there is none left and
/// right stay.
pub proof fn the_pad_is_walked(
    m: Menu,
    keys: Keys,
    install: Seq<char>,
    from_catalog: bool,
    b: Button,
    m2: Menu,
    consumed: bool,
    e: Effect,
    cur: usize,
)
    requires
        menu::input_step(m, keys, install, from_catalog, b, m2, consumed, e),
        b == Button::Up || b == Button::Down || b == Button::Left || b == Button::Right,
        m.screen == (Screen::List { selection: cur }),
        cur < keys.slots@.len() <= usize::MAX,
    ensures
        consumed && e == Effect::Nothing,
        ({
            let s = keys.slots@;
            let from = s[cur as int];
            &&& m2.screen matches Screen::List { selection }
            &&& selection < s.len()
            &&& selection == cur || !s[selection as int].locked
            &&& if exists|i: int| is_that_way(s, cur as int, b, i) {
                let to = s[selection as int];
                &&& is_that_way(s, cur as int, b, selection as int)
                &&& forall|k: int| #[trigger]
                    is_that_way(s, cur as int, b, k) ==> if b == Button::Up || b == Button::Down {
                        gap(to.cy as int, from.cy as int) <= gap(s[k].cy as int, from.cy as int)
                    } else {
                        gap(to.cy as int, from.cy as int) == gap(s[k].cy as int, from.cy as int)
                            ==> gap(to.cx as int, from.cx as int) <= gap(
                            s[k].cx as int,
                            from.cx as int,
                        )
                    }
            } else {
                b == Button::Left || b == Button::Right ==> selection == cur
            }
        }),
{
    let s = keys.slots@;
    let dir = match b {
        Button::Up => Dir::Up,
        Button::Down => Dir::Down,
        Button::Left => Dir::Left,
        _ => Dir::Right,
    };
    let r = target_exists(s, cur as int, dir);
    assert forall|i: int| pad::candidate(s, cur as int, dir, i) == #[trigger] is_that_way(
        s,
        cur as int,
        b,
        i,
    ) by {}
    if exists|i: int| is_that_way(s, cur as int, b, i) {
        let i = choose|i: int| is_that_way(s, cur as int, b, i);
        assert(pad::candidate(s, cur as int, dir, i));
        assert(pad::any(s, cur as int, dir));
        assert(is_that_way(s, cur as int, b, r));
        assert forall|k: int| #[trigger] is_that_way(s, cur as int, b, k) implies pad::cost(
            s,
            cur as int,
            dir,
            r,
        ) <= pad::cost(s, cur as int, dir, k) by {
            assert(pad::candidate(s, cur as int, dir, k));
        }
    } else {
        assert forall|i: int| !#[trigger] pad::candidate(s, cur as int, dir, i) by {
            assert(!is_that_way(s, cur as int, b, i));
        }
    }
}

/// A on the pad opens the keyboard for the slot under the cursor, on the key that the
/// slot is bound to; a slot that cannot be bound opens nothing.
pub proof fn the_slot_under_the_cursor_is_edited(
    m: Menu,
    keys: Keys,
    install: Seq<char>,
    from_catalog: bool,
    m2: Menu,
    consumed: bool,
    e: Effect,
    cur: usize,
)
    requires
        menu::input_step(m, keys, install, from_catalog, Button::A, m2, consumed, e),
        m.screen == (Screen::List { selection: cur }),
        cur < keys.slots@.len(),
        keys.board@.len() <= usize::MAX,
    ensures
        e == Effect::Nothing,
        keys.slots@[cur as int].locked ==> m2.screen == m.screen,
        !keys.slots@[cur as int].locked ==> {
            &&& m2.screen matches Screen::Keyboard { button_idx, key_idx }
            &&& button_idx == cur
            &&& forall|name: String|
                keys.slots@[cur as int].bound == Some(name) && (exists|i: int|
                    0 <= i < keys.board@.len() && (#[trigger] keys.board@[i]).name@ == name@)
                    ==> key_idx < keys.board@.len() && keys.board@[key_idx as int].name@
                    == #[trigger] name@
        },
{
    if let Some(n) = keys.slots@[cur as int].bound {
        named_is(keys.board@, n@, 0);
    }
}

proof fn named_is(b: Seq<BoardKey>, name: Seq<char>, from: int)
    requires
        0 <= from <= b.len(),
    ensures
        match board::named(b, name, from) {
            Some(i) => from <= i < b.len() && b[i].name@ == name,
            None => forall|k: int| from <= k < b.len() ==> (#[trigger] b[k]).name@ != name,
        },
    decreases b.len() - from,
{
    if from < b.len() && b[from].name@ != name {
        named_is(b, name, from + 1);
    }
}

} // verus!
