//! The layout of the cover gallery, as it was last drawn.

use vstd::prelude::*;

verus! {

/// One tile: the row that it stands in, and where its middle is, in thousandths
/// of a pixel.
#[derive(Clone, Copy, PartialEq, Eq, Structural, Debug)]
pub struct Cell {
    pub row: u32,
    pub cx: i64,
}

/// The tiles in their order, and the number of rows.
pub struct Layout {
    pub cells: Vec<Cell>,
    pub rows: u32,
}

/// The rows of covers that are shown.
pub const GALLERY_ROWS_VISIBLE: usize = 3;

/// The rows of the home tab that are shown, per layout.
pub open spec fn rows_shown(view: int) -> int {
    if view == 1 {
        13
    } else if view == 2 || view == 3 {
        1
    } else {
        3
    }
}

/// The games of one page step, per layout.
pub open spec fn page_step(view: int) -> int {
    if view == 1 {
        13
    } else if view == 2 || view == 3 {
        4
    } else {
        15
    }
}

/// The distance between two middles.
pub open spec fn apart(a: Cell, b: Cell) -> int {
    if a.cx >= b.cx {
        a.cx - b.cx
    } else {
        b.cx - a.cx
    }
}

/// `i` is the tile of `row` nearest to `from`; of two as near, the first.
pub open spec fn is_nearest(cells: Seq<Cell>, row: int, from: Cell, i: int) -> bool {
    &&& 0 <= i < cells.len()
    &&& cells[i].row == row
    &&& forall|k: int|
        0 <= k < cells.len() && (#[trigger] cells[k]).row == row ==> {
            &&& apart(cells[i], from) <= apart(cells[k], from)
            &&& k < i ==> apart(cells[i], from) < apart(cells[k], from)
        }
}

/// Some tile stands in `row`.
pub open spec fn row_filled(cells: Seq<Cell>, row: int) -> bool {
    exists|k: int| 0 <= k < cells.len() && (#[trigger] cells[k]).row == row
}

/// The tile nearest to `sel` in the row `dir` rows below, where that row is one
/// of the layout and holds a tile.
pub open spec fn neighbor(cells: Seq<Cell>, rows: int, sel: int, dir: int) -> Option<int> {
    let row = cells[sel].row + dir;
    if 0 <= sel < cells.len() && 0 <= row < rows && row_filled(cells, row) {
        Some(choose|i: int| is_nearest(cells, row, cells[sel], i))
    } else {
        None
    }
}

/// There is one nearest tile at most.
pub proof fn nearest_is_unique(cells: Seq<Cell>, row: int, from: Cell, i: int, j: int)
    requires
        is_nearest(cells, row, from, i),
        is_nearest(cells, row, from, j),
    ensures
        i == j,
{
    assert(cells[i].row == row && cells[j].row == row);
}

fn distance(a: i64, b: i64) -> (r: u64)
    ensures
        r == (if a >= b {
            a - b
        } else {
            b - a
        }),
{
    if a >= b {
        ((a as i128) - (b as i128)) as u64
    } else {
        ((b as i128) - (a as i128)) as u64
    }
}

/// The nearest tile in the row above (`dir` is -1) or below (`dir` is 1).
pub fn gallery_neighbor(layout: &Layout, selection: usize, dir: i32) -> (r: Option<usize>)
    requires
        dir == 1 || dir == -1,
    ensures
        match r {
            Some(i) => neighbor(
                layout.cells@,
                layout.rows as int,
                selection as int,
                dir as int,
            ) == Some(i as int) && is_nearest(
                layout.cells@,
                layout.cells@[selection as int].row + dir,
                layout.cells@[selection as int],
                i as int,
            ) && i < layout.cells@.len(),
            None => neighbor(layout.cells@, layout.rows as int, selection as int, dir as int)
                == None::<int>,
        },
{
    let cells: &Vec<Cell> = &layout.cells;
    if selection >= cells.len() {
        return None;
    }
    let cur: Cell = cells[selection];
    let wanted: i64 = cur.row as i64 + dir as i64;
    if wanted < 0 || wanted >= layout.rows as i64 {
        return None;
    }
    let mut best: Option<usize> = None;
    let mut i: usize = 0;
    while i < cells.len()
        invariant
            i <= cells.len(),
            match best {
                Some(b) => b < i && cells@[b as int].row == wanted && forall|k: int|
                    0 <= k < i && (#[trigger] cells@[k]).row == wanted ==> {
                        &&& apart(cells@[b as int], cur) <= apart(cells@[k], cur)
                        &&& k < b ==> apart(cells@[b as int], cur) < apart(cells@[k], cur)
                    },
                None => forall|k: int| 0 <= k < i ==> (#[trigger] cells@[k]).row != wanted,
            },
        decreases cells.len() - i,
    {
        let c: Cell = cells[i];
        if c.row as i64 == wanted {
            let d: u64 = distance(c.cx, cur.cx);
            let nearer: bool = match best {
                Some(b) => d < distance(cells[b].cx, cur.cx),
                None => true,
            };
            if nearer {
                best = Some(i);
            }
        }
        i = i + 1;
    }
    proof {
        if let Some(b) = best {
            assert(is_nearest(cells@, wanted as int, cur, b as int));
            let c = choose|c: int| is_nearest(cells@, wanted as int, cur, c);
            nearest_is_unique(cells@, wanted as int, cur, b as int, c);
            assert(row_filled(cells@, wanted as int)) by {
                assert(cells@[b as int].row == wanted);
            }
        }
    }
    best
}

/// The scroll that shows the row of tile `sel`, nearest to `scroll`; a tile that
/// is not laid out moves nothing.
pub open spec fn scroll_for(cells: Seq<Cell>, view: int, sel: int, scroll: int) -> int {
    if sel >= cells.len() {
        scroll
    } else {
        crate::library::screen::scrolled_to(scroll, cells[sel].row as int, rows_shown(view))
    }
}

fn visible(view: u8) -> (r: usize)
    ensures
        r == rows_shown(view as int),
        r >= 1,
{
    match view {
        1 => 13,
        2 | 3 => 1,
        _ => GALLERY_ROWS_VISIBLE,
    }
}

/// The scroll that shows the row of the selected tile.
pub fn gallery_scroll_for(layout: &Layout, view: u8, selection: usize, scroll: usize) -> (r: usize)
    ensures
        r == scroll_for(layout.cells@, view as int, selection as int, scroll as int),
{
    if selection >= layout.cells.len() {
        return scroll;
    }
    let row: usize = layout.cells[selection].row as usize;
    crate::library::screen::clamp_scroll(scroll, row, visible(view))
}

/// A laid-out tile is on the screen after the scroll was set for it.
pub proof fn selected_row_is_shown(cells: Seq<Cell>, view: int, sel: int, scroll: int)
    requires
        0 <= sel < cells.len(),
        scroll >= 0,
    ensures
        scroll_for(cells, view, sel, scroll) <= cells[sel].row < scroll_for(
            cells,
            view,
            sel,
            scroll,
        ) + rows_shown(view),
{
    crate::library::screen::scrolled_shows(scroll, cells[sel].row as int, rows_shown(view));
}

} // verus!
