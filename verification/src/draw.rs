//! Draw instructions: which shape to paint, and the pixel square to paint it in.

use vstd::prelude::*;
use crate::tetrimino::Shape;
use crate::{HEIGHT, TILE_SIZE};

verus! {

/// One unit cell to paint: the shape that fills it and its square on screen.
/// Pixel `y` grows downward; a cell above the visible rows has a negative `y`.
#[derive(Clone, Copy, Debug, PartialEq, Eq, Structural)]
pub struct DrawCell {
    pub shape: Shape,
    pub x: i32,
    pub y: i32,
    pub width: u32,
    pub height: u32,
}

/// The draw instruction for `shape` in the grid cell `cell`: column `cell.0`
/// counted from the left wall, row `cell.1` counted from the floor.
pub open spec fn draw_at(shape: Shape, cell: (int, int)) -> DrawCell {
    DrawCell {
        shape,
        x: (cell.0 * TILE_SIZE) as i32,
        y: (HEIGHT * TILE_SIZE - (cell.1 + 1) * TILE_SIZE) as i32,
        width: TILE_SIZE,
        height: TILE_SIZE,
    }
}

/// The draw instruction for `shape` in column `x` of row `y`.
pub fn draw_cell(shape: Shape, x: i16, y: i16) -> (cell: DrawCell)
    ensures
        cell == draw_at(shape, (x as int, y as int)),
{
    let tile = TILE_SIZE as i32;
    DrawCell {
        shape,
        x: x as i32 * tile,
        y: HEIGHT as i32 * tile - (y as i32 + 1) * tile,
        width: TILE_SIZE,
        height: TILE_SIZE,
    }
}

} // verus!
