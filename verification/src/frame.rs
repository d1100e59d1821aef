//! Pure frame-building helpers: the per-cell rectangles of the pixel grid
//! and the pick of the most likely prediction.
//!
//! The renderer collaborator takes positioned rectangles; this module
//! computes them from the canvas state and geometry, one rectangle per
//! cell, so the drawing code only has to emit them. The prediction pick is
//! the first index holding the maximum score, computed over integer-scaled
//! scores.

use vstd::prelude::*;
use crate::canvas::{PixelCanvas, CanvasGeometry, GRID_SIDE};
use crate::rat::lemma_mul_le;

verus! {

/// One grid cell as a positioned screen rectangle with its on/off state.
#[derive(Clone, Copy, Debug, PartialEq, Eq, Structural)]
pub struct CellRect {
    pub x: u16,
    pub y: u16,
    pub w: u16,
    pub h: u16,
    pub on: bool,
}

/// The rectangle of cell `(row, col)`: one cell-size step per index, past
/// the one-cell border at the widget origin.
pub open spec fn cell_rect_matches(
    cr: CellRect,
    g: CanvasGeometry,
    row: int,
    col: int,
    on: bool,
) -> bool {
    &&& cr.x == g.origin_x + 1 + col * g.cell_w
    &&& cr.y == g.origin_y + 1 + row * g.cell_h
    &&& cr.w == g.cell_w
    &&& cr.h == g.cell_h
    &&& cr.on == on
}

/// Builds the row-major list of cell rectangles for one frame: cell
/// `(row, col)` is at index `row * GRID_SIDE + col` with its formula
/// position and the cell's current state.
pub fn canvas_cell_rects(c: &PixelCanvas, g: &CanvasGeometry) -> (r: Vec<CellRect>)
    requires
        c.wf(),
        g.wf(),
        g.origin_x + 1 + GRID_SIDE * g.cell_w <= u16::MAX,
        g.origin_y + 1 + GRID_SIDE * g.cell_h <= u16::MAX,
    ensures
        r@.len() == GRID_SIDE * GRID_SIDE,
        forall|row: int, col: int|
            0 <= row < GRID_SIDE && 0 <= col < GRID_SIDE ==> cell_rect_matches(
                #[trigger] r@[row * GRID_SIDE + col],
                *g,
                row,
                col,
                c.cell(row, col),
            ),
{
    let mut r: Vec<CellRect> = Vec::new();
    let mut row: usize = 0;
    while row < GRID_SIDE
        invariant
            c.wf(),
            g.wf(),
            g.origin_x + 1 + GRID_SIDE * g.cell_w <= u16::MAX,
            g.origin_y + 1 + GRID_SIDE * g.cell_h <= u16::MAX,
            row <= GRID_SIDE,
            r@.len() == row * GRID_SIDE,
            forall|a: int, b: int|
                0 <= a < row && 0 <= b < GRID_SIDE ==> cell_rect_matches(
                    #[trigger] r@[a * GRID_SIDE + b],
                    *g,
                    a,
                    b,
                    c.cell(a, b),
                ),
        decreases GRID_SIDE - row,
    {
        let mut col: usize = 0;
        while col < GRID_SIDE
            invariant
                c.wf(),
                g.wf(),
                g.origin_x + 1 + GRID_SIDE * g.cell_w <= u16::MAX,
                g.origin_y + 1 + GRID_SIDE * g.cell_h <= u16::MAX,
                row < GRID_SIDE,
                col <= GRID_SIDE,
                r@.len() == row * GRID_SIDE + col,
                forall|a: int, b: int|
                    (0 <= a < row && 0 <= b < GRID_SIDE) || (a == row && 0 <= b < col)
                        ==> cell_rect_matches(
                        #[trigger] r@[a * GRID_SIDE + b],
                        *g,
                        a,
                        b,
                        c.cell(a, b),
                    ),
            decreases GRID_SIDE - col,
        {
            let on = c.get(row, col);
            proof {
                lemma_mul_le(col as int, g.cell_w as int, GRID_SIDE as int - 1, g.cell_w as int);
                lemma_mul_le(row as int, g.cell_h as int, GRID_SIDE as int - 1, g.cell_h as int);
            }
            let x: u16 = g.origin_x + 1 + (col as u16) * g.cell_w;
            let y: u16 = g.origin_y + 1 + (row as u16) * g.cell_h;
            r.push(CellRect { x, y, w: g.cell_w, h: g.cell_h, on });
            col = col + 1;
        }
        row = row + 1;
    }
    r
}

/// Picks the most likely prediction: the first index holding the maximum
/// score. `None` exactly on an empty score list.
pub fn argmax(scores: &Vec<u64>) -> (r: Option<usize>)
    ensures
        r is Some <==> scores@.len() > 0,
        r is Some ==> {
            let i = (r->0) as int;
            &&& 0 <= i < scores@.len()
            &&& forall|t: int| 0 <= t < scores@.len() ==> #[trigger] scores@[t] <= scores@[i]
            &&& forall|t: int| 0 <= t < i ==> #[trigger] scores@[t] < scores@[i]
        },
{
    if scores.len() == 0 {
        return None;
    }
    let mut best: usize = 0;
    let mut t: usize = 1;
    while t < scores.len()
        invariant
            scores@.len() > 0,
            best < t <= scores@.len(),
            forall|s: int| 0 <= s < t ==> #[trigger] scores@[s] <= scores@[best as int],
            forall|s: int| 0 <= s < best ==> #[trigger] scores@[s] < scores@[best as int],
        decreases scores@.len() - t,
    {
        if scores[t] > scores[best] {
            best = t;
        }
        t = t + 1;
    }
    Some(best)
}

} // verus!
