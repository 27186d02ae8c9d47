//! Grid coordinates.

use vstd::prelude::*;

verus! {

/// Number of cells along each side of the square board.
pub const GRID_SIZE: i32 = 20;

/// A cell position: `x` grows to the right, `y` grows downward.
#[derive(Clone, Copy, Debug, PartialEq, Eq, Structural)]
pub struct Point {
    pub x: i32,
    pub y: i32,
}

impl Point {
    /// Whether the point lies on the board.
    pub open spec fn on_grid(self) -> bool {
        0 <= self.x < GRID_SIZE && 0 <= self.y < GRID_SIZE
    }

    /// Tests whether the point lies on the board.
    pub fn in_bounds(&self) -> (inside: bool)
        ensures
            inside == self.on_grid(),
    {
        0 <= self.x && self.x < GRID_SIZE && 0 <= self.y && self.y < GRID_SIZE
    }
}

} // verus!
