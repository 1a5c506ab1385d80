//! Moving over the buttons of the pad, by where they are drawn.

use crate::menu::board::BoardKey;
use vstd::prelude::*;

verus! {

/// A button of the pad: where the middle of its field is, in thousandths of a
/// pad unit, whether it is a modifier in the layer that is edited (and so cannot
/// be bound), and the key that it is bound to.
pub struct Slot {
    pub name: String,
    pub cx: i64,
    pub cy: i64,
    pub locked: bool,
    pub bound: Option<String>,
}

/// What the editor edits.
pub struct Keys {
    pub slots: Vec<Slot>,
    pub board: Vec<BoardKey>,
    /// The rows of the board.
    pub rows: u8,
    pub player: u8,
    /// The layer that is shown, and how many there are.
    pub subtab: usize,
    pub subtabs: usize,
    /// What is said of a slot that is a modifier.
    pub modifier_word: String,
}

impl Keys {
    /// There is a pad and a board.
    pub open spec fn ready(&self) -> bool {
        self.slots@.len() > 0 && self.board@.len() > 0 && self.rows >= 1
    }
}

/// A direction on the pad.
#[derive(Clone, Copy, PartialEq, Eq, Structural, Debug)]
pub enum Dir {
    Up,
    Down,
    Left,
    Right,
}

/// The middle of a slot, across; 0 for a slot that there is not.
pub open spec fn mid_x(slots: Seq<Slot>, i: int) -> int {
    if 0 <= i < slots.len() {
        slots[i].cx as int
    } else {
        0
    }
}

/// The middle of a slot, down.
pub open spec fn mid_y(slots: Seq<Slot>, i: int) -> int {
    if 0 <= i < slots.len() {
        slots[i].cy as int
    } else {
        0
    }
}

pub open spec fn abs(x: int) -> int {
    if x < 0 {
        -x
    } else {
        x
    }
}

/// Are the two slots in one column?
pub open spec fn same_column(slots: Seq<Slot>, i: int, cur: int) -> bool {
    abs(mid_x(slots, i) - mid_x(slots, cur)) < 500
}

/// Does slot `i` lie in direction `dir` of `cur`: above or below it in its
/// column, or in a column to the left or right?
pub open spec fn lies(slots: Seq<Slot>, cur: int, dir: Dir, i: int) -> bool {
    let (cx, cy) = (mid_x(slots, cur), mid_y(slots, cur));
    let (x, y) = (mid_x(slots, i), mid_y(slots, i));
    match dir {
        Dir::Up => same_column(slots, i, cur) && y < cy - 10,
        Dir::Down => same_column(slots, i, cur) && y > cy + 10,
        Dir::Left => x < cx - 500,
        Dir::Right => x > cx + 500,
    }
}

/// May the cursor go from `cur` to `i` in direction `dir`?
pub open spec fn candidate(slots: Seq<Slot>, cur: int, dir: Dir, i: int) -> bool {
    0 <= i < slots.len() && i != cur && !slots[i].locked && lies(slots, cur, dir, i)
}

/// How far it is: down or up the column; across, the height first.
pub open spec fn cost(slots: Seq<Slot>, cur: int, dir: Dir, i: int) -> int {
    let (cx, cy) = (mid_x(slots, cur), mid_y(slots, cur));
    let (x, y) = (mid_x(slots, i), mid_y(slots, i));
    match dir {
        Dir::Up => cy - y,
        Dir::Down => y - cy,
        Dir::Left => abs(y - cy) * 100 + (cx - x),
        Dir::Right => abs(y - cy) * 100 + (x - cx),
    }
}

/// `i` is the nearest slot in that direction; of two as near, the first.
pub open spec fn best(slots: Seq<Slot>, cur: int, dir: Dir, i: int) -> bool {
    &&& candidate(slots, cur, dir, i)
    &&& forall|k: int| #[trigger]
        candidate(slots, cur, dir, k) ==> {
            &&& cost(slots, cur, dir, i) <= cost(slots, cur, dir, k)
            &&& k < i ==> cost(slots, cur, dir, i) < cost(slots, cur, dir, k)
        }
}

/// There is a slot in that direction.
pub open spec fn any(slots: Seq<Slot>, cur: int, dir: Dir) -> bool {
    exists|i: int| candidate(slots, cur, dir, i)
}

/// A free slot of the column, beyond `cur` against the direction.
pub open spec fn behind(slots: Seq<Slot>, cur: int, dir: Dir, i: int) -> bool {
    &&& 0 <= i < slots.len()
    &&& !slots[i].locked
    &&& same_column(slots, i, cur)
    &&& match dir {
        Dir::Up => mid_y(slots, i) > mid_y(slots, cur),
        Dir::Down => mid_y(slots, i) < mid_y(slots, cur),
        _ => false,
    }
}

/// `i` is the far end of the column; of two as far, the first.
pub open spec fn far_end(slots: Seq<Slot>, cur: int, dir: Dir, i: int) -> bool {
    &&& behind(slots, cur, dir, i)
    &&& forall|k: int| #[trigger]
        behind(slots, cur, dir, k) ==> match dir {
            Dir::Up => mid_y(slots, k) <= mid_y(slots, i) && (k < i ==> mid_y(slots, k) < mid_y(
                slots,
                i,
            )),
            _ => mid_y(slots, k) >= mid_y(slots, i) && (k < i ==> mid_y(slots, k) > mid_y(slots, i)),
        }
}

/// Where a step leads: to the nearest slot; where there is none, up and down to
/// the other end of the column, left and right nowhere.
pub open spec fn leads_to(slots: Seq<Slot>, cur: int, dir: Dir, r: int) -> bool {
    if any(slots, cur, dir) {
        best(slots, cur, dir, r)
    } else if exists|i: int| behind(slots, cur, dir, i) {
        far_end(slots, cur, dir, r)
    } else {
        r == cur
    }
}

/// The slot that a step leads to.
pub open spec fn target(slots: Seq<Slot>, cur: int, dir: Dir) -> int {
    choose|r: int| leads_to(slots, cur, dir, r)
}

/// A step leads to one slot.
pub proof fn target_is(slots: Seq<Slot>, cur: int, dir: Dir, r: int)
    requires
        leads_to(slots, cur, dir, r),
    ensures
        target(slots, cur, dir) == r,
{
    let t = target(slots, cur, dir);
    assert(leads_to(slots, cur, dir, t));
    if any(slots, cur, dir) {
        assert(candidate(slots, cur, dir, r) && candidate(slots, cur, dir, t));
    } else if exists|i: int| behind(slots, cur, dir, i) {
        assert(behind(slots, cur, dir, r) && behind(slots, cur, dir, t));
    }
}

/// A step never leads to a locked slot, and never off the pad: it leads to a free
/// slot of the pad, or stays.
pub proof fn step_lands_free(slots: Seq<Slot>, cur: int, dir: Dir, r: int)
    requires
        leads_to(slots, cur, dir, r),
    ensures
        r == cur || (0 <= r < slots.len() && !slots[r].locked),
{
}

/// A step sideways keeps the height as well as it can: no free slot in the other
/// column is nearer in height.
pub proof fn sideways_keeps_height(slots: Seq<Slot>, cur: int, dir: Dir, r: int, k: int)
    requires
        dir == Dir::Left || dir == Dir::Right,
        best(slots, cur, dir, r),
        candidate(slots, cur, dir, k),
        mid_x(slots, k) == mid_x(slots, r),
    ensures
        abs(mid_y(slots, r) - mid_y(slots, cur)) <= abs(mid_y(slots, k) - mid_y(slots, cur)),
{
}

fn magnitude(x: i128) -> (r: i128)
    requires
        -0x2_0000_0000_0000_0000 <= x <= 0x2_0000_0000_0000_0000,
    ensures
        r == abs(x as int),
{
    if x < 0 {
        -x
    } else {
        x
    }
}

fn middle(keys: &Keys, i: usize) -> (r: (i128, i128))
    ensures
        r.0 == mid_x(keys.slots@, i as int),
        r.1 == mid_y(keys.slots@, i as int),
        i64::MIN <= r.0 <= i64::MAX,
        i64::MIN <= r.1 <= i64::MAX,
{
    if i < keys.slots.len() {
        (keys.slots[i].cx as i128, keys.slots[i].cy as i128)
    } else {
        (0, 0)
    }
}

/// The cost of a step to slot `i`, where it may be taken.
fn step_cost(keys: &Keys, cur: usize, dir: Dir, i: usize) -> (r: Option<i128>)
    requires
        i < keys.slots@.len(),
    ensures
        match r {
            Some(c) => candidate(keys.slots@, cur as int, dir, i as int) && c == cost(
                keys.slots@,
                cur as int,
                dir,
                i as int,
            ),
            None => !candidate(keys.slots@, cur as int, dir, i as int),
        },
{
    if i == cur || keys.slots[i].locked {
        return None;
    }
    let (cx, cy) = middle(keys, cur);
    let (x, y) = middle(keys, i);
    let column: bool = magnitude(x - cx) < 500;
    match dir {
        Dir::Up => if column && y < cy - 10 {
            Some(cy - y)
        } else {
            None
        },
        Dir::Down => if column && y > cy + 10 {
            Some(y - cy)
        } else {
            None
        },
        Dir::Left => if x < cx - 500 {
            Some(magnitude(y - cy) * 100 + (cx - x))
        } else {
            None
        },
        Dir::Right => if x > cx + 500 {
            Some(magnitude(y - cy) * 100 + (x - cx))
        } else {
            None
        },
    }
}

/// One step over the pad.
pub fn pad_step(keys: &Keys, cur: usize, dir: Dir) -> (r: usize)
    ensures
        leads_to(keys.slots@, cur as int, dir, r as int),
        r == target(keys.slots@, cur as int, dir),
        r == cur || (r < keys.slots@.len() && !keys.slots@[r as int].locked),
{
    let ghost slots = keys.slots@;
    let n: usize = keys.slots.len();
    let mut found: Option<(usize, i128)> = None;
    let mut i: usize = 0;
    while i < n
        invariant
            i <= n,
            n == slots.len(),
            slots == keys.slots@,
            match found {
                Some((b, c)) => b < i && candidate(slots, cur as int, dir, b as int) && c == cost(
                    slots,
                    cur as int,
                    dir,
                    b as int,
                ) && forall|k: int|
                    k < i && #[trigger] candidate(slots, cur as int, dir, k) ==> {
                        &&& c <= cost(slots, cur as int, dir, k)
                        &&& k < b ==> c < cost(slots, cur as int, dir, k)
                    },
                None => forall|k: int| k < i ==> !#[trigger] candidate(slots, cur as int, dir, k),
            },
        decreases n - i,
    {
        if let Some(c) = step_cost(keys, cur, dir, i) {
            let nearer: bool = match found {
                Some((_, old_cost)) => c < old_cost,
                None => true,
            };
            if nearer {
                found = Some((i, c));
            }
        }
        i = i + 1;
    }
    if let Some((b, _)) = found {
        assert(best(slots, cur as int, dir, b as int));
        proof {
            target_is(slots, cur as int, dir, b as int);
        }
        return b;
    }
    assert(!any(slots, cur as int, dir));
    let up: bool = match dir {
        Dir::Up => true,
        Dir::Down => false,
        _ => {
            proof {
                target_is(slots, cur as int, dir, cur as int);
            }
            return cur;
        },
    };
    let (cx, cy) = middle(keys, cur);
    let mut wrap: Option<usize> = None;
    let mut edge: i128 = cy;
    let mut j: usize = 0;
    while j < n
        invariant
            j <= n,
            n == slots.len(),
            slots == keys.slots@,
            dir == (if up {
                Dir::Up
            } else {
                Dir::Down
            }),
            cx == mid_x(slots, cur as int),
            cy == mid_y(slots, cur as int),
            i64::MIN <= cx <= i64::MAX,
            match wrap {
                Some(w) => w < j && behind(slots, cur as int, dir, w as int) && edge == mid_y(
                    slots,
                    w as int,
                ) && forall|k: int|
                    k < j && #[trigger] behind(slots, cur as int, dir, k) ==> if up {
                        mid_y(slots, k) <= edge && (k < w ==> mid_y(slots, k) < edge)
                    } else {
                        mid_y(slots, k) >= edge && (k < w ==> mid_y(slots, k) > edge)
                    },
                None => edge == cy && forall|k: int|
                    k < j ==> !#[trigger] behind(slots, cur as int, dir, k),
            },
        decreases n - j,
    {
        let (x, y) = middle(keys, j);
        if !keys.slots[j].locked && magnitude(x - cx) < 500 && ((up && y > edge) || (!up && y
            < edge)) {
            wrap = Some(j);
            edge = y;
        }
        j = j + 1;
    }
    let r: usize = match wrap {
        Some(w) => {
            assert(far_end(slots, cur as int, dir, w as int));
            w
        },
        None => cur,
    };
    proof {
        target_is(slots, cur as int, dir, r as int);
    }
    r
}

/// Slot `i` is locked.
pub open spec fn is_locked(slots: Seq<Slot>, i: int) -> bool {
    0 <= i < slots.len() && slots[i].locked
}

/// The first free slot from `from` on; `otherwise` where there is none.
pub open spec fn first_free(slots: Seq<Slot>, from: int, otherwise: int) -> int
    decreases slots.len() - from,
{
    if from < 0 || from >= slots.len() {
        otherwise
    } else if !slots[from].locked {
        from
    } else {
        first_free(slots, from + 1, otherwise)
    }
}

/// A slot that can be edited: `sel` itself, or the next one down, or the first.
pub open spec fn unstuck(slots: Seq<Slot>, sel: int) -> int {
    if !is_locked(slots, sel) {
        sel
    } else if target(slots, sel, Dir::Down) != sel {
        target(slots, sel, Dir::Down)
    } else {
        first_free(slots, 0, sel)
    }
}

/// The first free slot from `from` on is free, where any is.
proof fn first_free_is(slots: Seq<Slot>, from: int, otherwise: int)
    requires
        0 <= from,
    ensures
        first_free(slots, from, otherwise) == otherwise || (0 <= first_free(
            slots,
            from,
            otherwise,
        ) < slots.len() && !slots[first_free(slots, from, otherwise)].locked),
        (exists|i: int| from <= i < slots.len() && !(#[trigger] slots[i]).locked) ==> !is_locked(
            slots,
            first_free(slots, from, otherwise),
        ),
    decreases slots.len() - from,
{
    if from < slots.len() && slots[from].locked {
        first_free_is(slots, from + 1, otherwise);
    }
}

/// The cursor is on a slot that can be edited wherever there is one.
pub proof fn unstuck_is_free(slots: Seq<Slot>, sel: int, r: int)
    requires
        0 <= sel < slots.len(),
        exists|i: int| 0 <= i < slots.len() && !(#[trigger] slots[i]).locked,
        leads_to(slots, sel, Dir::Down, r),
    ensures
        0 <= unstuck(slots, sel) < slots.len(),
        !slots[unstuck(slots, sel)].locked,
{
    target_is(slots, sel, Dir::Down, r);
    step_lands_free(slots, sel, Dir::Down, r);
    first_free_is(slots, 0, sel);
}

/// Puts the cursor on a slot that can be edited.
pub fn unstick_cursor(keys: &Keys, selection: usize) -> (r: usize)
    ensures
        r == unstuck(keys.slots@, selection as int),
        selection < keys.slots@.len() ==> r < keys.slots@.len(),
{
    if selection >= keys.slots.len() || !keys.slots[selection].locked {
        return selection;
    }
    let next: usize = pad_step(keys, selection, Dir::Down);
    if next != selection {
        return next;
    }
    let mut i: usize = 0;
    while i < keys.slots.len()
        invariant
            i <= keys.slots.len(),
            selection < keys.slots@.len(),
            unstuck(keys.slots@, selection as int) == first_free(
                keys.slots@,
                i as int,
                selection as int,
            ),
        decreases keys.slots.len() - i,
    {
        if !keys.slots[i].locked {
            return i;
        }
        i = i + 1;
    }
    selection
}

} // verus!
