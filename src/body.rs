use vstd::prelude::*;

use crate::direction::Direction;
use crate::position::GridPosition;

verus! {

/// Whether one step from `p` along `d` stays within the `i32` lattice.
pub open spec fn can_step(p: GridPosition, d: Direction) -> bool {
    match d {
        Direction::Up => p.y < i32::MAX,
        Direction::Down => p.y > i32::MIN,
        Direction::Left => p.x > i32::MIN,
        Direction::Right => p.x < i32::MAX,
    }
}

/// The cell one unit from `p` along `d`: Up is y + 1, Down y - 1, Left x - 1,
/// Right x + 1.
pub open spec fn stepped(p: GridPosition, d: Direction) -> GridPosition
    recommends
        can_step(p, d),
{
    match d {
        Direction::Up => GridPosition { x: p.x, y: (p.y + 1) as i32 },
        Direction::Down => GridPosition { x: p.x, y: (p.y - 1) as i32 },
        Direction::Left => GridPosition { x: (p.x - 1) as i32, y: p.y },
        Direction::Right => GridPosition { x: (p.x + 1) as i32, y: p.y },
    }
}

/// The body after one move of a head that stood at `head`: each segment takes
/// the place that the one in front of it held before the move, the first one
/// the old head's; the tail's old place is left.
pub open spec fn follow(head: GridPosition, segments: Seq<GridPosition>) -> Seq<GridPosition> {
    Seq::new(segments.len(), |j: int| if j == 0 { head } else { segments[j - 1] })
}

/// Moves the snake one cell along `direction`: returns the new head, and shifts
/// every segment into the place of the one in front of it, using the places
/// held before the move.
pub fn advance(head: GridPosition, direction: Direction, segments: &mut Vec<GridPosition>) -> (r:
    GridPosition)
    requires
        can_step(head, direction),
    ensures
        r == stepped(head, direction),
        final(segments)@ == follow(head, old(segments)@),
{
    let new_head = match direction {
        Direction::Up => GridPosition { x: head.x, y: head.y + 1 },
        Direction::Down => GridPosition { x: head.x, y: head.y - 1 },
        Direction::Left => GridPosition { x: head.x - 1, y: head.y },
        Direction::Right => GridPosition { x: head.x + 1, y: head.y },
    };
    let ghost before = segments@;
    let mut prev = head;
    let mut i: usize = 0;
    while i < segments.len()
        invariant
            0 <= i <= segments@.len(),
            segments@.len() == before.len(),
            prev == (if i == 0 { head } else { before[i - 1] }),
            forall|j: int| 0 <= j < i ==> #[trigger] segments@[j] == follow(head, before)[j],
            forall|j: int| i <= j < before.len() ==> #[trigger] segments@[j] == before[j],
        decreases before.len() - i,
    {
        let cur = segments[i];
        segments.set(i, prev);
        prev = cur;
        i = i + 1;
    }
    assert(segments@ =~= follow(head, before));
    new_head
}

/// Movement alone never changes the number of segments.
pub proof fn lemma_propagation_keeps_length(head: GridPosition, segments: Seq<GridPosition>)
    ensures
        follow(head, segments).len() == segments.len(),
{
}

} // verus!
