//! One occupied cell of the grid, and its integer model.

use vstd::prelude::*;
use crate::direction::Direction;

verus! {

/// The model of a body section: a cell of the unbounded integer grid together
/// with the facing its occupant had when it stood there.
pub struct SectionView {
    pub x: int,
    pub y: int,
    pub facing: Direction,
}

impl SectionView {
    /// The coordinate pair `(x, y)` of the cell.
    pub open spec fn position(self) -> (int, int) {
        (self.x, self.y)
    }

    /// The section reached by one step in `direction`: the coordinate moves by
    /// the direction's unit vector and the facing becomes `direction`.
    pub open spec fn step(self, direction: Direction) -> SectionView {
        SectionView {
            x: self.x + direction.vector().0,
            y: self.y + direction.vector().1,
            facing: direction,
        }
    }

    /// Whether both coordinates fit the machine integers of a [`BodySection`].
    pub open spec fn representable(self) -> bool {
        &&& i64::MIN <= self.x <= i64::MAX
        &&& i64::MIN <= self.y <= i64::MAX
    }
}

/// One occupied cell: a coordinate and the facing of the occupant at the time.
#[derive(Clone, Copy, Debug)]
pub struct BodySection {
    pub pos_x: i64,
    pub pos_y: i64,
    pub direction: Direction,
}

impl View for BodySection {
    type V = SectionView;

    open spec fn view(&self) -> SectionView {
        SectionView { x: self.pos_x as int, y: self.pos_y as int, facing: self.direction }
    }
}

impl BodySection {
    /// A section at `(x, y)` facing `dir`. Any coordinate is accepted.
    pub fn new(x: i64, y: i64, dir: Direction) -> (section: BodySection)
        ensures
            section@ == (SectionView { x: x as int, y: y as int, facing: dir }),
    {
        BodySection { pos_x: x, pos_y: y, direction: dir }
    }

    /// The coordinate pair of the cell.
    pub fn position(self) -> (at: (i64, i64))
        ensures
            (at.0 as int, at.1 as int) == self@.position(),
    {
        (self.pos_x, self.pos_y)
    }
}

} // verus!
