//! The simulation core of a falling-block puzzle game: the shape catalog, the
//! active piece, the well and its line clearing, the seven-piece bag, the
//! scoring policy and the session state machine that ties them together.

use vstd::prelude::*;

pub mod bag;
pub mod draw;
pub mod game;
pub mod rows;
pub mod score;
pub mod session;
pub mod tetrimino;

verus! {

/// Number of columns of the well.
pub const WIDTH: usize = 10;

/// Number of visible rows of the well.
pub const HEIGHT: usize = 20;

/// Rows above the visible well in which a piece spawns and may come to rest.
pub const BUFFER_ROWS: usize = 4;

/// Total number of rows that the well stores.
pub const ROWS: usize = HEIGHT + BUFFER_ROWS;

/// Edge length of one cell on screen, in pixels.
pub const TILE_SIZE: u32 = 32;

} // verus!
