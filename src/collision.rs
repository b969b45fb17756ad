use vstd::prelude::*;

use crate::position::GridPosition;

verus! {

/// Both coordinates of the cell where a segment grown by eating stands until
/// the next move places it.
pub const PLACEHOLDER_COORD: i32 = -1;

/// The cell of a segment grown by eating, off the grid.
pub open spec fn placeholder() -> GridPosition {
    GridPosition { x: PLACEHOLDER_COORD, y: PLACEHOLDER_COORD }
}

/// How many entries of `s` stand at `p`.
pub open spec fn count_at(s: Seq<GridPosition>, p: GridPosition) -> nat
    decreases s.len(),
{
    if s.len() == 0 {
        0
    } else {
        count_at(s.drop_last(), p) + if s.last() == p {
            1nat
        } else {
            0nat
        }
    }
}

/// The entries of `s` that do not stand at `p`, in their order.
pub open spec fn without(s: Seq<GridPosition>, p: GridPosition) -> Seq<GridPosition>
    decreases s.len(),
{
    if s.len() == 0 {
        Seq::empty()
    } else if s.last() == p {
        without(s.drop_last(), p)
    } else {
        without(s.drop_last(), p).push(s.last())
    }
}

/// `n` segments at the placeholder position.
pub open spec fn placeholders(n: nat) -> Seq<GridPosition> {
    Seq::new(n, |i: int| placeholder())
}

/// Whether some segment stands at `head`.
pub open spec fn collides(head: GridPosition, segments: Seq<GridPosition>) -> bool {
    segments.contains(head)
}

/// Eats every food at `head`: each one is removed, and each one appends a
/// placeholder segment. Returns how many were eaten.
pub fn eat_food(head: GridPosition, food: &mut Vec<GridPosition>, segments: &mut Vec<GridPosition>) -> (r: usize)
    ensures
        r == count_at(old(food)@, head),
        final(food)@ == without(old(food)@, head),
        final(segments)@ == old(segments)@ + placeholders(r as nat),
{
    let ghost food0 = food@;
    let ghost segments0 = segments@;
    let mut kept: Vec<GridPosition> = Vec::new();
    let mut eaten: usize = 0;
    let mut i: usize = 0;
    while i < food.len()
        invariant
            food@ == food0,
            0 <= i <= food0.len(),
            eaten <= i,
            eaten == count_at(food0.subrange(0, i as int), head),
            kept@ == without(food0.subrange(0, i as int), head),
            segments@ == segments0 + placeholders(eaten as nat),
        decreases food0.len() - i,
    {
        let f = food[i];
        assert(food0.subrange(0, i + 1).drop_last() =~= food0.subrange(0, i as int));
        if f == head {
            segments.push(GridPosition { x: PLACEHOLDER_COORD, y: PLACEHOLDER_COORD });
            eaten = eaten + 1;
            assert(segments@ =~= segments0 + placeholders(eaten as nat));
        } else {
            kept.push(f);
        }
        i = i + 1;
    }
    assert(food0.subrange(0, food0.len() as int) =~= food0);
    *food = kept;
    eaten
}

/// Whether the head, after the move, stands on a segment.
pub fn check_for_death(head: GridPosition, segments: &Vec<GridPosition>) -> (r: bool)
    ensures
        r == collides(head, segments@),
{
    let mut i: usize = 0;
    while i < segments.len()
        invariant
            0 <= i <= segments@.len(),
            forall|j: int| 0 <= j < i ==> segments@[j] != head,
        decreases segments@.len() - i,
    {
        if segments[i] == head {
            assert(segments@[i as int] == head);
            return true;
        }
        i = i + 1;
    }
    false
}

/// Every food either is eaten or stays: the two counts make up the whole.
pub proof fn lemma_eaten_and_left_partition(food: Seq<GridPosition>, p: GridPosition)
    ensures
        without(food, p).len() + count_at(food, p) == food.len(),
        count_at(without(food, p), p) == 0,
    decreases food.len(),
{
    if food.len() > 0 {
        lemma_eaten_and_left_partition(food.drop_last(), p);
        let w = without(food.drop_last(), p);
        assert(w.push(food.last()).drop_last() =~= w);
    }
}

} // verus!
