//! What holds of every step of every snake, proved from the model of `walk`.

use vstd::prelude::*;
use crate::direction::Direction;
use crate::section::SectionView;
use crate::snake::Snake;

verus! {

/// Walking never changes the length of the tail.
pub proof fn lemma_walk_preserves_size(snake: Snake, direction: Direction)
    ensures
        snake@.walk(direction).size() == snake@.size(),
{
}

/// Each direction moves the head by one cell along one axis and leaves the
/// other axis alone: `Left` and `Right` change `x` by -1 and +1, `Down` and
/// `Up` change `y` by -1 and +1. The new head faces the way it walked.
pub proof fn lemma_walk_moves_head(snake: Snake, direction: Direction)
    ensures
        snake@.walk(Direction::Left).head_position() == (snake@.head.x - 1, snake@.head.y),
        snake@.walk(Direction::Right).head_position() == (snake@.head.x + 1, snake@.head.y),
        snake@.walk(Direction::Up).head_position() == (snake@.head.x, snake@.head.y + 1),
        snake@.walk(Direction::Down).head_position() == (snake@.head.x, snake@.head.y - 1),
        snake@.walk(direction).head.facing == direction,
{
}

/// Walking shifts the body by one slot: the first tail section of the
/// successor is the old head, and every later one is the old section that was
/// just ahead of it. Taken together, the new tail is the old head followed by
/// the old tail without its tip; an empty tail stays empty.
pub proof fn lemma_walk_shifts_tail(snake: Snake, direction: Direction)
    ensures
        snake@.size() > 0 ==> snake@.walk(direction).tail[0] == snake@.head,
        forall|i: int|
            1 <= i < snake@.size() ==> #[trigger] snake@.walk(direction).tail[i]
                == snake@.tail[i - 1],
        snake@.size() > 0 ==> snake@.walk(direction).tail
            == seq![snake@.head] + snake@.tail.drop_last(),
        snake@.size() == 0 ==> snake@.walk(direction).tail == Seq::<SectionView>::empty(),
{
    if snake@.size() > 0 {
        assert(snake@.walk(direction).tail =~= seq![snake@.head] + snake@.tail.drop_last());
    } else {
        assert(snake@.walk(direction).tail =~= Seq::<SectionView>::empty());
    }
}

/// The tip of the tail falls off. No slot of the successor is filled from it,
/// so its value is found in the new tail exactly when the old head or an old
/// section ahead of the tip held that same value.
pub proof fn lemma_walk_drops_tip(snake: Snake, direction: Direction)
    requires
        snake@.size() > 0,
    ensures
        snake@.walk(direction).tail.contains(snake@.tail.last()) <==> (snake@.head
            == snake@.tail.last() || snake@.tail.drop_last().contains(snake@.tail.last())),
{
    let tip = snake@.tail.last();
    let ahead = snake@.tail.drop_last();
    let next = snake@.walk(direction).tail;
    if next.contains(tip) {
        let i = choose|i: int| 0 <= i < next.len() && next[i] == tip;
        if i > 0 {
            assert(ahead[i - 1] == tip);
        }
    }
    if snake@.head == tip {
        assert(next[0] == tip);
    }
    if ahead.contains(tip) {
        let j = choose|j: int| 0 <= j < ahead.len() && ahead[j] == tip;
        assert(next[j + 1] == tip);
    }
}

/// A snapshot does not depend on what is walked from it. A snake with the
/// same model as `original` reports the same size and head position, may take
/// the same steps, and one step from either leads to the same successor.
pub proof fn lemma_snapshot_independent(original: Snake, snapshot: Snake, direction: Direction)
    requires
        snapshot@ == original@,
    ensures
        snapshot@.size() == original@.size(),
        snapshot@.head_position() == original@.head_position(),
        snapshot@.can_walk(direction) == original@.can_walk(direction),
        snapshot@.walk(direction) == original@.walk(direction),
{
}

} // verus!
