//! The four directions a snake can face, as unit vectors on the grid.

use vstd::prelude::*;

verus! {

/// A facing on the grid. Equality is by variant.
#[derive(Clone, Copy, Debug, PartialEq, Eq, Structural)]
pub enum Direction {
    Down,
    Up,
    Right,
    Left,
}

impl Direction {
    /// The unit movement vector `(dx, dy)` of this direction: `y` grows upwards
    /// and `x` grows to the right.
    pub open spec fn vector(self) -> (int, int) {
        match self {
            Direction::Up => (0, 1),
            Direction::Down => (0, -1),
            Direction::Left => (-1, 0),
            Direction::Right => (1, 0),
        }
    }
}

} // verus!
