use vstd::prelude::*;

use crate::geom::{Rect, Rectangle, Vector};

verus! {

/// Width of one tile of a sprite sheet (249 pixels).
pub const TILE_WIDTH: i64 = 2490;

/// Height of one tile of a sprite sheet (200 pixels).
pub const TILE_HEIGHT: i64 = 2000;

/// Tiles in one row of a sprite sheet.
pub const SHEET_COLUMNS: usize = 5;

/// Rows that a sprite sheet holds at most.
pub const SHEET_ROWS: usize = 5;

/// How many frames an animation cut from the first `rows` rows of a sheet has.
pub open spec fn frame_count_spec(rows: nat) -> nat {
    if rows >= SHEET_ROWS {
        (SHEET_ROWS * SHEET_COLUMNS) as nat
    } else {
        (rows * SHEET_COLUMNS) as nat
    }
}

/// Where the `k`-th frame lies on a sheet: tiles are read row by row, left to
/// right.
pub open spec fn frame_spec(k: int) -> Rect {
    Rect {
        x: (k % SHEET_COLUMNS as int) * TILE_WIDTH,
        y: (k / SHEET_COLUMNS as int) * TILE_HEIGHT,
        w: TILE_WIDTH as int,
        h: TILE_HEIGHT as int,
    }
}

/// The frames of an animation made of the first `rows` rows of a sprite
/// sheet, in the order they are played.
pub fn sheet_frames(rows: usize) -> (r: Vec<Rectangle>)
    ensures
        r@.len() == frame_count_spec(rows as nat),
        forall|k: int| 0 <= k < r@.len() ==> (#[trigger] r@[k])@ == frame_spec(k),
{
    let count: usize = if rows >= SHEET_ROWS {
        SHEET_ROWS * SHEET_COLUMNS
    } else {
        rows * SHEET_COLUMNS
    };
    let mut frames: Vec<Rectangle> = Vec::new();
    let mut row: usize = 0;
    let mut col: usize = 0;
    while frames.len() < count
        invariant
            count == frame_count_spec(rows as nat),
            count <= 25,
            col < SHEET_COLUMNS,
            frames@.len() == row * SHEET_COLUMNS + col,
            frames@.len() <= count,
            forall|k: int| 0 <= k < frames@.len() ==> (#[trigger] frames@[k])@ == frame_spec(k),
        decreases count - frames@.len(),
    {
        let ghost k = frames@.len() as int;
        assert(k % 5 == col as int && k / 5 == row as int) by (nonlinear_arith)
            requires
                k == row * 5 + col,
                0 <= col < 5,
        ;
        assert(row < 5) by (nonlinear_arith)
            requires
                k == row * 5 + col,
                k < 25,
        ;
        let x = (col as i64) * TILE_WIDTH;
        let y = (row as i64) * TILE_HEIGHT;
        frames.push(Rectangle::new(Vector::new(x, y), Vector::new(TILE_WIDTH, TILE_HEIGHT)));
        if col + 1 == SHEET_COLUMNS {
            col = 0;
            row = row + 1;
        } else {
            col = col + 1;
        }
    }
    frames
}

} // verus!
