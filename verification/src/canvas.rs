//! Drag-painted square pixel grid with pointer hit-testing.
//!
//! The grid is a fixed `GRID_SIDE` by `GRID_SIDE` boolean matrix stored
//! row-major, with a pointer-down latch: dragging paints only while the
//! pointer is held down. A screen point is mapped to a cell by subtracting
//! the widget origin and a one-cell border and integer-dividing by the cell
//! size; points outside the drawn bounds hit no cell.

use vstd::prelude::*;
use crate::rat::lemma_div_below;

verus! {

/// Side length of the square grid, in cells.
pub const GRID_SIDE: usize = 28;

/// Where and how large the grid is drawn on screen: the top-left corner of
/// the widget (whose first row and column are a border) and the size of one
/// cell in terminal cells.
#[derive(Clone, Copy, Debug, PartialEq, Eq, Structural)]
pub struct CanvasGeometry {
    pub origin_x: u16,
    pub origin_y: u16,
    pub cell_w: u16,
    pub cell_h: u16,
}

impl CanvasGeometry {
    /// Well formed: cells have positive extent.
    pub open spec fn wf(self) -> bool {
        self.cell_w > 0 && self.cell_h > 0
    }
}

/// A screen-space rectangle, used for the dedicated reset control drawn
/// beside the grid.
#[derive(Clone, Copy, Debug, PartialEq, Eq, Structural)]
pub struct ScreenRect {
    pub x: u16,
    pub y: u16,
    pub w: u16,
    pub h: u16,
}

/// Whether `(x, y)` lies inside the rectangle.
pub open spec fn rect_contains(r: ScreenRect, x: int, y: int) -> bool {
    &&& r.x <= x < r.x + r.w
    &&& r.y <= y < r.y + r.h
}

/// Tests whether a screen point lies inside a rectangle.
pub fn in_rect(r: &ScreenRect, x: u16, y: u16) -> (b: bool)
    ensures
        b == rect_contains(*r, x as int, y as int),
{
    x >= r.x && (x as u32) < (r.x as u32) + (r.w as u32) && y >= r.y && (y as u32) < (r.y as u32)
        + (r.h as u32)
}

/// Column hit by screen coordinate `x`, before the range check.
pub open spec fn hit_col(g: CanvasGeometry, x: int) -> int {
    (x - (g.origin_x + 1)) / (g.cell_w as int)
}

/// Row hit by screen coordinate `y`, before the range check.
pub open spec fn hit_row(g: CanvasGeometry, y: int) -> int {
    (y - (g.origin_y + 1)) / (g.cell_h as int)
}

/// Whether `(x, y)` lies within the grid's drawn bounds: past the border
/// and within `GRID_SIDE` cells on each axis.
pub open spec fn within_drawn_bounds(g: CanvasGeometry, x: int, y: int) -> bool {
    &&& g.origin_x + 1 <= x < g.origin_x + 1 + GRID_SIDE * g.cell_w
    &&& g.origin_y + 1 <= y < g.origin_y + 1 + GRID_SIDE * g.cell_h
}

/// Maps a screen point to the grid cell it lies in, or `None` when it is
/// outside the drawn bounds. Every in-bounds point hits exactly one cell,
/// the `(row, col)` given by `hit_row` and `hit_col`.
pub fn hit_test(g: &CanvasGeometry, x: u16, y: u16) -> (r: Option<(usize, usize)>)
    requires
        g.wf(),
    ensures
        r is Some <==> within_drawn_bounds(*g, x as int, y as int),
        r is Some ==> {
            &&& (r->0).0 == hit_row(*g, y as int)
            &&& (r->0).1 == hit_col(*g, x as int)
            &&& (r->0).0 < GRID_SIDE
            &&& (r->0).1 < GRID_SIDE
        },
{
    let ox1: usize = g.origin_x as usize + 1;
    let oy1: usize = g.origin_y as usize + 1;
    let xu: usize = x as usize;
    let yu: usize = y as usize;
    if xu < ox1 || yu < oy1 {
        return None;
    }
    let col: usize = (xu - ox1) / (g.cell_w as usize);
    let row: usize = (yu - oy1) / (g.cell_h as usize);
    proof {
        lemma_div_below(xu - ox1, g.cell_w as int, GRID_SIDE as int);
        lemma_div_below(yu - oy1, g.cell_h as int, GRID_SIDE as int);
    }
    if col < GRID_SIDE && row < GRID_SIDE {
        Some((row, col))
    } else {
        None
    }
}

/// An all-false row-major grid of `GRID_SIDE * GRID_SIDE` cells.
fn blank_grid() -> (v: Vec<bool>)
    ensures
        v@.len() == GRID_SIDE * GRID_SIDE,
        forall|i: int| 0 <= i < v@.len() ==> !v@[i],
{
    let mut v: Vec<bool> = Vec::new();
    let mut i: usize = 0;
    while i < GRID_SIDE * GRID_SIDE
        invariant
            i <= GRID_SIDE * GRID_SIDE,
            v@.len() == i,
            forall|j: int| 0 <= j < i ==> !v@[j],
        decreases GRID_SIDE * GRID_SIDE - i,
    {
        v.push(false);
        i = i + 1;
    }
    v
}

/// The editable pixel grid with its pointer-down latch.
pub struct PixelCanvas {
    cells: Vec<bool>,
    drawing: bool,
}

impl Default for PixelCanvas {
    /// A fresh canvas: all cells clear, pointer up.
    fn default() -> (c: Self)
        ensures
            c.wf(),
            !c.is_drawing(),
            forall|i: int| 0 <= i < c.grid().len() ==> !c.grid()[i],
    {
        PixelCanvas::new()
    }
}

impl PixelCanvas {
    /// The grid contents, row-major: cell `(row, col)` is at
    /// `row * GRID_SIDE + col`.
    pub closed spec fn grid(self) -> Seq<bool> {
        self.cells@
    }

    /// Whether the pointer is currently held down (drag events paint).
    pub closed spec fn is_drawing(self) -> bool {
        self.drawing
    }

    /// Well formed: exactly `GRID_SIDE * GRID_SIDE` cells.
    pub open spec fn wf(self) -> bool {
        self.grid().len() == GRID_SIDE * GRID_SIDE
    }

    /// The cell at `(row, col)`.
    pub open spec fn cell(self, row: int, col: int) -> bool {
        self.grid()[row * GRID_SIDE + col]
    }

    /// A fresh canvas: all cells clear, pointer up.
    pub fn new() -> (c: PixelCanvas)
        ensures
            c.wf(),
            !c.is_drawing(),
            forall|i: int| 0 <= i < c.grid().len() ==> !c.grid()[i],
    {
        PixelCanvas { cells: blank_grid(), drawing: false }
    }

    /// Reads the cell at `(row, col)`.
    pub fn get(&self, row: usize, col: usize) -> (b: bool)
        requires
            self.wf(),
            row < GRID_SIDE,
            col < GRID_SIDE,
        ensures
            b == self.cell(row as int, col as int),
    {
        self.cells[row * GRID_SIDE + col]
    }

    /// Pointer pressed on a cell: latch drawing and paint that cell.
    pub fn pointer_down(&mut self, row: usize, col: usize)
        requires
            old(self).wf(),
            row < GRID_SIDE,
            col < GRID_SIDE,
        ensures
            final(self).wf(),
            final(self).is_drawing(),
            final(self).grid() == old(self).grid().update(row * GRID_SIDE + col, true),
    {
        self.drawing = true;
        self.cells[row * GRID_SIDE + col] = true;
        proof {
            assert(self.cells@ =~= old(self).cells@.update(row * GRID_SIDE + col, true));
        }
    }

    /// Pointer dragged over a cell: paints it only while drawing is
    /// latched; otherwise nothing changes.
    pub fn pointer_drag(&mut self, row: usize, col: usize)
        requires
            old(self).wf(),
            row < GRID_SIDE,
            col < GRID_SIDE,
        ensures
            final(self).wf(),
            final(self).is_drawing() == old(self).is_drawing(),
            old(self).is_drawing() ==> final(self).grid() == old(self).grid().update(
                row * GRID_SIDE + col,
                true,
            ),
            !old(self).is_drawing() ==> final(self).grid() == old(self).grid(),
    {
        if self.drawing {
            self.cells[row * GRID_SIDE + col] = true;
            proof {
                assert(self.cells@ =~= old(self).cells@.update(row * GRID_SIDE + col, true));
            }
        }
    }

    /// Pointer released: clears the latch, leaves the grid untouched.
    pub fn pointer_up(&mut self)
        requires
            old(self).wf(),
        ensures
            final(self).wf(),
            !final(self).is_drawing(),
            final(self).grid() == old(self).grid(),
    {
        self.drawing = false;
    }

    /// Clears every cell and the latch.
    pub fn reset(&mut self)
        ensures
            final(self).wf(),
            !final(self).is_drawing(),
            forall|i: int| 0 <= i < final(self).grid().len() ==> !final(self).grid()[i],
    {
        self.cells = blank_grid();
        self.drawing = false;
    }

    /// The grid flattened row-major into a numeric vector, `1` for a
    /// painted cell and `0` for a clear one: the inference input handed to
    /// the downstream computation on every frame.
    pub fn to_input_vector(&self) -> (v: Vec<u8>)
        requires
            self.wf(),
        ensures
            v@.len() == GRID_SIDE * GRID_SIDE,
            forall|i: int|
                0 <= i < v@.len() ==> v@[i] == (if self.grid()[i] {
                    1u8
                } else {
                    0u8
                }),
    {
        let mut v: Vec<u8> = Vec::new();
        let mut i: usize = 0;
        while i < GRID_SIDE * GRID_SIDE
            invariant
                self.wf(),
                i <= GRID_SIDE * GRID_SIDE,
                v@.len() == i,
                forall|j: int|
                    0 <= j < i ==> v@[j] == (if self.grid()[j] {
                        1u8
                    } else {
                        0u8
                    }),
            decreases GRID_SIDE * GRID_SIDE - i,
        {
            if self.cells[i] {
                v.push(1u8);
            } else {
                v.push(0u8);
            }
            i = i + 1;
        }
        v
    }
}

} // verus!
