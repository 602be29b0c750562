//! The look of a rendered grid.

use vstd::prelude::*;

verus! {

/// The side of a cell's square, in pixels.
pub const CELL_SIZE: u32 = 10;

/// The colour of the lines between the cells.
pub const GRID_COLOR: &'static str = "#333333";

/// The colour of a dead cell.
pub const DEAD_COLOR: &'static str = "#000000";

/// The colour of a live cell.
pub const ALIVE_COLOR: &'static str = "#ffffff";

} // verus!
