//! The snake: a head, an ordered tail, and the step that advances both.

use vstd::prelude::*;
use crate::direction::Direction;
use crate::section::{BodySection, SectionView};

verus! {

/// The model of a snake: its head and the sequence of tail sections behind it.
///
/// `tail[0]` is the section right behind the head; higher indices lie farther
/// from the head. The head is not part of the tail.
pub struct SnakeView {
    pub head: SectionView,
    pub tail: Seq<SectionView>,
}

impl SnakeView {
    /// The number of tail sections; the head is not counted.
    pub open spec fn size(self) -> nat {
        self.tail.len()
    }

    /// The coordinate pair of the head.
    pub open spec fn head_position(self) -> (int, int) {
        self.head.position()
    }

    /// Whether the head can step in `direction` without leaving the range of
    /// the machine coordinates.
    pub open spec fn can_walk(self, direction: Direction) -> bool {
        self.head.step(direction).representable()
    }

    /// The snake one step later. The head steps in `direction`; every tail
    /// slot takes over the section that was just ahead of it, so slot 0 takes
    /// over the old head and the old tip of the tail is left behind.
    pub open spec fn walk(self, direction: Direction) -> SnakeView {
        SnakeView {
            head: self.head.step(direction),
            tail: Seq::new(
                self.tail.len(),
                |i: int| if i == 0 { self.head } else { self.tail[i - 1] },
            ),
        }
    }
}

/// A snake on the grid: one head section and the tail sections that follow it,
/// nearest first.
#[derive(Debug)]
pub struct Snake {
    pub head: BodySection,
    pub tail: Vec<BodySection>,
}

impl View for Snake {
    type V = SnakeView;

    open spec fn view(&self) -> SnakeView {
        SnakeView { head: self.head@, tail: self.tail@.map_values(|section: BodySection| section@) }
    }
}

impl Clone for Snake {
    /// A snapshot of the snake with the same head and the same tail.
    fn clone(&self) -> (copy: Snake)
        ensures
            copy@ == self@,
    {
        Snake { head: self.head, tail: self.tail.clone() }
    }
}

impl Snake {
    /// A snake without a tail whose head stands at `(x, y)` and faces `Up`.
    pub fn new(x: i64, y: i64) -> (snake: Snake)
        ensures
            snake@.head == (SectionView { x: x as int, y: y as int, facing: Direction::Up }),
            snake@.tail == Seq::<SectionView>::empty(),
            snake@.size() == 0,
            snake@.head_position() == (x as int, y as int),
    {
        let tail: Vec<BodySection> = Vec::new();
        let head: BodySection = BodySection::new(x, y, Direction::Up);
        Snake { head: head, tail: tail }
    }

    /// The number of tail sections.
    pub fn size(&self) -> (n: usize)
        ensures
            n == self@.size(),
    {
        self.tail.len()
    }

    /// The coordinate pair of the head.
    pub fn head_position(&self) -> (at: (i64, i64))
        ensures
            (at.0 as int, at.1 as int) == self@.head_position(),
    {
        self.head.position()
    }

    /// Advances the snake by one step in `direction`.
    ///
    /// The head moves by the direction's unit vector and faces `direction`.
    /// The tail keeps its length: its first section is the old head, each
    /// further section is the old section ahead of it, and the old tip is
    /// dropped. Without a tail the old head is simply left behind.
    ///
    /// The step has to stay within the coordinates an `i64` can hold; every
    /// other snake and every direction is accepted.
    pub fn walk(self, direction: Direction) -> (next: Snake)
        requires
            self@.can_walk(direction),
        ensures
            next@ == self@.walk(direction),
            next@.size() == self@.size(),
    {
        let (pos_x, pos_y) = self.head.position();
        let head = match direction {
            Direction::Left => BodySection::new(pos_x - 1, pos_y, direction),
            Direction::Right => BodySection::new(pos_x + 1, pos_y, direction),
            Direction::Up => BodySection::new(pos_x, pos_y + 1, direction),
            Direction::Down => BodySection::new(pos_x, pos_y - 1, direction),
        };
        let ghost before = self;
        let mut tail: Vec<BodySection> = Vec::with_capacity(self.size());
        let mut last_body_section = self.head;

        for body_section in sections: self.tail
            invariant
                sections.seq() == before.tail@,
                tail@.len() == sections.index(),
                last_body_section == if sections.index() == 0 {
                    before.head
                } else {
                    before.tail@[sections.index() - 1]
                },
                forall|j: int|
                    0 <= j < tail@.len() ==> tail@[j] == if j == 0 {
                        before.head
                    } else {
                        before.tail@[j - 1]
                    },
        {
            tail.push(last_body_section);
            last_body_section = body_section;
        }

        let next = Snake { head: head, tail: tail };
        assert(next@.tail =~= before@.walk(direction).tail);
        next
    }
}

} // verus!
