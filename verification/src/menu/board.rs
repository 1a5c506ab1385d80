//! Moving over the keys of the keyboard, by where they are drawn.

use crate::menu::pad::{Keys, Slot};
use crate::text;
use vstd::prelude::*;

verus! {

/// A key of the keyboard: its name, its row, and where its middle is, in
/// thousandths of a unit.
pub struct BoardKey {
    pub name: String,
    pub row: u8,
    pub cx: i64,
}

/// The first key of that name, where there is one.
pub open spec fn named(board: Seq<BoardKey>, name: Seq<char>, from: int) -> Option<int>
    decreases board.len() - from,
{
    if from < 0 || from >= board.len() {
        None
    } else if board[from].name@ == name {
        Some(from)
    } else {
        named(board, name, from + 1)
    }
}

/// The key that stands for no key; the first where there is none.
pub open spec fn none_key(board: Seq<BoardKey>) -> int {
    match named(board, "(none)"@, 0) {
        Some(i) => i,
        None => 0,
    }
}

/// Where the cursor starts for a slot: on the key that it is bound to.
pub open spec fn start_key(board: Seq<BoardKey>, slot: Slot) -> int {
    match slot.bound {
        Some(b) => match named(board, b@, 0) {
            Some(i) => i,
            None => none_key(board),
        },
        None => none_key(board),
    }
}

fn find_key(keys: &Keys, name: &str) -> (r: Option<usize>)
    ensures
        match r {
            Some(i) => named(keys.board@, name@, 0) == Some(i as int) && i < keys.board@.len(),
            None => named(keys.board@, name@, 0) == None::<int>,
        },
{
    let mut i: usize = 0;
    while i < keys.board.len()
        invariant
            i <= keys.board.len(),
            named(keys.board@, name@, 0) == named(keys.board@, name@, i as int),
        decreases keys.board.len() - i,
    {
        if text::str_eq(keys.board[i].name.as_str(), name) {
            return Some(i);
        }
        i = i + 1;
    }
    None
}

fn no_key(keys: &Keys) -> (r: usize)
    requires
        keys.board@.len() > 0,
    ensures
        r == none_key(keys.board@),
        r < keys.board@.len(),
{
    match find_key(keys, "(none)") {
        Some(i) => i,
        None => 0,
    }
}

/// Where the cursor starts for a slot.
pub fn key_to_start(keys: &Keys, slot: usize) -> (r: usize)
    requires
        slot < keys.slots@.len(),
        keys.board@.len() > 0,
    ensures
        r == start_key(keys.board@, keys.slots@[slot as int]),
        r < keys.board@.len(),
{
    match &keys.slots[slot].bound {
        Some(b) => match find_key(keys, b.as_str()) {
            Some(i) => i,
            None => no_key(keys),
        },
        None => no_key(keys),
    }
}

// ── Along a row ────────────────────────────────────────────────────────────

/// `i` is the rightmost key of `row` left of `limit`; of two alike, the last.
pub open spec fn rightmost(board: Seq<BoardKey>, row: u8, limit: int, i: int) -> bool {
    &&& 0 <= i < board.len()
    &&& board[i].row == row
    &&& board[i].cx < limit
    &&& forall|k: int|
        0 <= k < board.len() && (#[trigger] board[k]).row == row && board[k].cx < limit ==> {
            &&& board[k].cx <= board[i].cx
            &&& k > i ==> board[k].cx < board[i].cx
        }
}

/// `i` is the leftmost key of `row` right of `limit`; of two alike, the first.
pub open spec fn leftmost(board: Seq<BoardKey>, row: u8, limit: int, i: int) -> bool {
    &&& 0 <= i < board.len()
    &&& board[i].row == row
    &&& board[i].cx > limit
    &&& forall|k: int|
        0 <= k < board.len() && (#[trigger] board[k]).row == row && board[k].cx > limit ==> {
            &&& board[i].cx <= board[k].cx
            &&& k < i ==> board[i].cx < board[k].cx
        }
}

/// Beyond every key, to the right and to the left.
pub open spec fn beyond() -> int {
    0x1_0000_0000_0000_0000
}

/// The rightmost key of `row` left of `limit`; `otherwise` where there is none.
pub open spec fn rightmost_or(board: Seq<BoardKey>, row: u8, limit: int, otherwise: int) -> int {
    if exists|i: int| rightmost(board, row, limit, i) {
        choose|i: int| rightmost(board, row, limit, i)
    } else {
        otherwise
    }
}

/// The leftmost key of `row` right of `limit`; `otherwise` where there is none.
pub open spec fn leftmost_or(board: Seq<BoardKey>, row: u8, limit: int, otherwise: int) -> int {
    if exists|i: int| leftmost(board, row, limit, i) {
        choose|i: int| leftmost(board, row, limit, i)
    } else {
        otherwise
    }
}

/// The key to the left in the row, or its rightmost.
pub open spec fn left_of(board: Seq<BoardKey>, key: int) -> int {
    let row = board[key].row;
    rightmost_or(board, row, board[key].cx - 10, rightmost_or(board, row, beyond(), key))
}

/// The key to the right in the row, or its leftmost.
pub open spec fn right_of(board: Seq<BoardKey>, key: int) -> int {
    let row = board[key].row;
    leftmost_or(board, row, board[key].cx + 10, leftmost_or(board, row, -beyond(), key))
}

proof fn rightmost_is(board: Seq<BoardKey>, row: u8, limit: int, i: int, otherwise: int)
    requires
        rightmost(board, row, limit, i),
    ensures
        rightmost_or(board, row, limit, otherwise) == i,
{
    let j = choose|j: int| rightmost(board, row, limit, j);
    assert(board[i].row == row && board[j].row == row);
}

proof fn leftmost_is(board: Seq<BoardKey>, row: u8, limit: int, i: int, otherwise: int)
    requires
        leftmost(board, row, limit, i),
    ensures
        leftmost_or(board, row, limit, otherwise) == i,
{
    let j = choose|j: int| leftmost(board, row, limit, j);
    assert(board[i].row == row && board[j].row == row);
}

fn find_rightmost(keys: &Keys, row: u8, limit: i128) -> (r: Option<usize>)
    ensures
        match r {
            Some(i) => rightmost(keys.board@, row, limit as int, i as int),
            None => forall|k: int|
                0 <= k < keys.board@.len() ==> !((#[trigger] keys.board@[k]).row == row
                    && keys.board@[k].cx < limit),
        },
{
    let mut best: Option<usize> = None;
    let mut i: usize = 0;
    while i < keys.board.len()
        invariant
            i <= keys.board.len(),
            match best {
                Some(b) => b < i && keys.board@[b as int].row == row && keys.board@[b as int].cx
                    < limit && forall|k: int|
                    0 <= k < i && (#[trigger] keys.board@[k]).row == row && keys.board@[k].cx
                        < limit ==> {
                        &&& keys.board@[k].cx <= keys.board@[b as int].cx
                        &&& k > b ==> keys.board@[k].cx < keys.board@[b as int].cx
                    },
                None => forall|k: int|
                    0 <= k < i ==> !((#[trigger] keys.board@[k]).row == row && keys.board@[k].cx
                        < limit),
            },
        decreases keys.board.len() - i,
    {
        let k: &BoardKey = &keys.board[i];
        if k.row == row && (k.cx as i128) < limit {
            let take: bool = match best {
                Some(b) => k.cx >= keys.board[b].cx,
                None => true,
            };
            if take {
                best = Some(i);
            }
        }
        i = i + 1;
    }
    best
}

fn find_leftmost(keys: &Keys, row: u8, limit: i128) -> (r: Option<usize>)
    ensures
        match r {
            Some(i) => leftmost(keys.board@, row, limit as int, i as int),
            None => forall|k: int|
                0 <= k < keys.board@.len() ==> !((#[trigger] keys.board@[k]).row == row
                    && keys.board@[k].cx > limit),
        },
{
    let mut best: Option<usize> = None;
    let mut i: usize = 0;
    while i < keys.board.len()
        invariant
            i <= keys.board.len(),
            match best {
                Some(b) => b < i && keys.board@[b as int].row == row && keys.board@[b as int].cx
                    > limit && forall|k: int|
                    0 <= k < i && (#[trigger] keys.board@[k]).row == row && keys.board@[k].cx
                        > limit ==> {
                        &&& keys.board@[b as int].cx <= keys.board@[k].cx
                        &&& k < b ==> keys.board@[b as int].cx < keys.board@[k].cx
                    },
                None => forall|k: int|
                    0 <= k < i ==> !((#[trigger] keys.board@[k]).row == row && keys.board@[k].cx
                        > limit),
            },
        decreases keys.board.len() - i,
    {
        let k: &BoardKey = &keys.board[i];
        if k.row == row && (k.cx as i128) > limit {
            let take: bool = match best {
                Some(b) => k.cx < keys.board[b].cx,
                None => true,
            };
            if take {
                best = Some(i);
            }
        }
        i = i + 1;
    }
    best
}

/// The key to the left in the row, or its rightmost.
pub fn key_left(keys: &Keys, key: usize) -> (r: usize)
    requires
        key < keys.board@.len(),
    ensures
        r == left_of(keys.board@, key as int),
        r < keys.board@.len(),
        keys.board@[r as int].row == keys.board@[key as int].row,
{
    let ghost board = keys.board@;
    let row: u8 = keys.board[key].row;
    let limit: i128 = keys.board[key].cx as i128 - 10;
    match find_rightmost(keys, row, limit) {
        Some(i) => {
            proof {
                rightmost_is(
                    board,
                    row,
                    limit as int,
                    i as int,
                    rightmost_or(board, row, beyond(), key as int),
                );
            }
            i
        },
        None => match find_rightmost(keys, row, 0x1_0000_0000_0000_0000) {
            Some(i) => {
                proof {
                    let l = limit as int;
                    assert(!exists|c: int| rightmost(board, row, l, c));
                    rightmost_is(board, row, beyond(), i as int, key as int);
                }
                i
            },
            None => {
                assert(board[key as int].row == row);
                assert(false);
                key
            },
        },
    }
}

/// The key to the right in the row, or its leftmost.
pub fn key_right(keys: &Keys, key: usize) -> (r: usize)
    requires
        key < keys.board@.len(),
    ensures
        r == right_of(keys.board@, key as int),
        r < keys.board@.len(),
        keys.board@[r as int].row == keys.board@[key as int].row,
{
    let ghost board = keys.board@;
    let row: u8 = keys.board[key].row;
    let limit: i128 = keys.board[key].cx as i128 + 10;
    match find_leftmost(keys, row, limit) {
        Some(i) => {
            proof {
                leftmost_is(
                    board,
                    row,
                    limit as int,
                    i as int,
                    leftmost_or(board, row, -beyond(), key as int),
                );
            }
            i
        },
        None => match find_leftmost(keys, row, -0x1_0000_0000_0000_0000) {
            Some(i) => {
                proof {
                    let l = limit as int;
                    assert(!exists|c: int| leftmost(board, row, l, c));
                    leftmost_is(board, row, -beyond(), i as int, key as int);
                }
                i
            },
            None => {
                assert(board[key as int].row == row);
                assert(false);
                key
            },
        },
    }
}

// ── Between rows ───────────────────────────────────────────────────────────

/// How far key `i` is from `cx`, across.
pub open spec fn off(board: Seq<BoardKey>, i: int, cx: int) -> int {
    crate::menu::pad::abs(board[i].cx - cx)
}

/// `i` is the key of `row` nearest to `cx`; of two as near, the first.
pub open spec fn nearest(board: Seq<BoardKey>, row: int, cx: int, i: int) -> bool {
    &&& 0 <= i < board.len()
    &&& board[i].row == row
    &&& forall|k: int|
        0 <= k < board.len() && (#[trigger] board[k]).row == row ==> {
            &&& off(board, i, cx) <= off(board, k, cx)
            &&& k < i ==> off(board, i, cx) < off(board, k, cx)
        }
}

/// The key of `row` nearest to `key`; the key itself where the row is empty.
pub open spec fn across(board: Seq<BoardKey>, row: int, key: int) -> int {
    if exists|i: int| nearest(board, row, board[key].cx as int, i) {
        choose|i: int| nearest(board, row, board[key].cx as int, i)
    } else {
        key
    }
}

/// The key above, from the first row to the last.
pub open spec fn above(board: Seq<BoardKey>, rows: int, key: int) -> int {
    let row = board[key].row;
    across(
        board,
        if row == 0 {
            rows - 1
        } else {
            row - 1
        },
        key,
    )
}

/// The key below, from the last row to the first.
pub open spec fn below(board: Seq<BoardKey>, rows: int, key: int) -> int {
    let row = board[key].row;
    across(
        board,
        if row + 1 >= rows {
            0
        } else {
            row + 1
        },
        key,
    )
}

fn distance(a: i64, b: i64) -> (r: u64)
    ensures
        r == crate::menu::pad::abs(a - b),
{
    if a >= b {
        ((a as i128) - (b as i128)) as u64
    } else {
        ((b as i128) - (a as i128)) as u64
    }
}

fn key_across(keys: &Keys, row: u8, key: usize) -> (r: usize)
    requires
        key < keys.board@.len(),
    ensures
        r == across(keys.board@, row as int, key as int),
        r < keys.board@.len(),
{
    let ghost board = keys.board@;
    let cx: i64 = keys.board[key].cx;
    let mut best: Option<usize> = None;
    let mut i: usize = 0;
    while i < keys.board.len()
        invariant
            i <= keys.board.len(),
            board == keys.board@,
            match best {
                Some(b) => b < i && board[b as int].row == row && forall|k: int|
                    0 <= k < i && (#[trigger] board[k]).row == row ==> {
                        &&& off(board, b as int, cx as int) <= off(board, k, cx as int)
                        &&& k < b ==> off(board, b as int, cx as int) < off(board, k, cx as int)
                    },
                None => forall|k: int| 0 <= k < i ==> (#[trigger] board[k]).row != row,
            },
        decreases keys.board.len() - i,
    {
        if keys.board[i].row == row {
            let d: u64 = distance(keys.board[i].cx, cx);
            let take: bool = match best {
                Some(b) => d < distance(keys.board[b].cx, cx),
                None => true,
            };
            if take {
                best = Some(i);
            }
        }
        i = i + 1;
    }
    match best {
        Some(b) => {
            proof {
                assert(nearest(board, row as int, cx as int, b as int));
                let c = choose|c: int| nearest(board, row as int, cx as int, c);
                assert(board[b as int].row == row && board[c].row == row);
            }
            b
        },
        None => {
            assert(!exists|c: int| nearest(board, row as int, cx as int, c));
            key
        },
    }
}

/// The key above.
pub fn key_up(keys: &Keys, key: usize) -> (r: usize)
    requires
        key < keys.board@.len(),
        keys.rows >= 1,
    ensures
        r == above(keys.board@, keys.rows as int, key as int),
        r < keys.board@.len(),
{
    let row: u8 = keys.board[key].row;
    let want: u8 = if row == 0 {
        keys.rows - 1
    } else {
        row - 1
    };
    key_across(keys, want, key)
}

/// The key below.
pub fn key_down(keys: &Keys, key: usize) -> (r: usize)
    requires
        key < keys.board@.len(),
        keys.rows >= 1,
    ensures
        r == below(keys.board@, keys.rows as int, key as int),
        r < keys.board@.len(),
{
    let row: u8 = keys.board[key].row;
    let want: u8 = if row >= keys.rows - 1 {
        0
    } else {
        row + 1
    };
    key_across(keys, want, key)
}

/// Left and right stay in the row, and from the end of the row go to its other
/// end.
pub proof fn rows_wrap(board: Seq<BoardKey>, key: int, i: int)
    requires
        0 <= key < board.len(),
        rightmost(board, board[key].row, beyond(), i),
        forall|k: int|
            0 <= k < board.len() && (#[trigger] board[k]).row == board[key].row ==> board[k].cx
                >= board[key].cx - 10,
    ensures
        left_of(board, key) == i,
{
    let row = board[key].row;
    let limit = board[key].cx - 10;
    assert(!exists|c: int| rightmost(board, row, limit, c));
    rightmost_is(board, row, beyond(), i, key);
}

} // verus!
