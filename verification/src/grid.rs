//! The play-field: its size in cells, the size of a cell in pixels, and the test
//! that a cell lies on it.

use vstd::prelude::*;

verus! {

/// A grid coordinate, or a step between two of them, as mathematical integers.
pub type Cell = (int, int);

/// Edge of one grid cell, in pixels.
pub const TILE_SIZE: i32 = 20;

/// Number of columns of the grid.
pub const ROOM_SIZE_X: i32 = 20;

/// Number of rows of the grid.
pub const ROOM_SIZE_Y: i32 = 20;

/// Width of the window, in pixels.
pub const WINDOW_WIDTH: i32 = ROOM_SIZE_X * TILE_SIZE;

/// Height of the window, in pixels.
pub const WINDOW_HEIGHT: i32 = ROOM_SIZE_Y * TILE_SIZE;

/// The cell lies on the grid: `0 <= x < ROOM_SIZE_X` and `0 <= y < ROOM_SIZE_Y`.
pub open spec fn in_room(c: Cell) -> bool {
    0 <= c.0 < ROOM_SIZE_X && 0 <= c.1 < ROOM_SIZE_Y
}

/// The sum of a cell and a step.
pub open spec fn offset(c: Cell, d: Cell) -> Cell {
    (c.0 + d.0, c.1 + d.1)
}

/// One of the four axis-aligned steps of length one.
pub open spec fn is_unit(d: Cell) -> bool {
    (d.0 == 0 && (d.1 == 1 || d.1 == -1)) || (d.1 == 0 && (d.0 == 1 || d.0 == -1))
}

/// `a` is the exact negation of `b`.
pub open spec fn is_reverse(a: Cell, b: Cell) -> bool {
    a.0 == -b.0 && a.1 == -b.1
}

/// The distance between two cells counted in axis-aligned steps.
pub open spec fn manhattan(a: Cell, b: Cell) -> int {
    (if a.0 >= b.0 { a.0 - b.0 } else { b.0 - a.0 })
        + (if a.1 >= b.1 { a.1 - b.1 } else { b.1 - a.1 })
}

/// Whether `(x, y)` lies on the grid.
pub fn is_in_room(x: i32, y: i32) -> (inside: bool)
    ensures
        inside == in_room((x as int, y as int)),
{
    0 <= x && x < ROOM_SIZE_X && 0 <= y && y < ROOM_SIZE_Y
}

} // verus!
