use vstd::prelude::*;

verus! {

/// The four headings of the snake.
#[derive(Clone, Copy, Debug, PartialEq, Eq, Structural)]
pub enum Direction {
    Up,
    Down,
    Left,
    Right,
}

/// The heading that points the other way.
pub open spec fn opposite(d: Direction) -> Direction {
    match d {
        Direction::Up => Direction::Down,
        Direction::Down => Direction::Up,
        Direction::Left => Direction::Right,
        Direction::Right => Direction::Left,
    }
}

/// The heading kept after asking for `requested` while moving along `current`:
/// a reversal is ignored, anything else is taken.
pub open spec fn resolved(requested: Direction, current: Direction) -> Direction {
    if requested == opposite(current) {
        current
    } else {
        requested
    }
}

/// Whether `requested` may replace `current`.
pub open spec fn legal(requested: Direction, current: Direction) -> bool {
    requested != opposite(current)
}

/// The first legal heading among the pressed keys, taken in the order
/// Up, Down, Left, Right.
pub open spec fn first_legal_key(
    up: bool,
    down: bool,
    left: bool,
    right: bool,
    current: Direction,
) -> Option<Direction> {
    if up && legal(Direction::Up, current) {
        Some(Direction::Up)
    } else if down && legal(Direction::Down, current) {
        Some(Direction::Down)
    } else if left && legal(Direction::Left, current) {
        Some(Direction::Left)
    } else if right && legal(Direction::Right, current) {
        Some(Direction::Right)
    } else {
        None
    }
}

pub fn opposite_of(d: Direction) -> (r: Direction)
    ensures
        r == opposite(d),
{
    match d {
        Direction::Up => Direction::Down,
        Direction::Down => Direction::Up,
        Direction::Left => Direction::Right,
        Direction::Right => Direction::Left,
    }
}

/// Applies a requested heading: `requested`, unless it reverses `current`.
pub fn set_intent(requested: Direction, current: Direction) -> (r: Direction)
    ensures
        r == resolved(requested, current),
{
    if requested == opposite_of(current) {
        current
    } else {
        requested
    }
}

/// Collapses the keys held in one frame into one heading: the first pressed key,
/// in the order Up, Down, Left, Right, that does not reverse `current`; `None`
/// where there is none.
pub fn intent_from_keys(up: bool, down: bool, left: bool, right: bool, current: Direction) -> (r:
    Option<Direction>)
    ensures
        r == first_legal_key(up, down, left, right, current),
{
    let back = opposite_of(current);
    if up && back != Direction::Up {
        Some(Direction::Up)
    } else if down && back != Direction::Down {
        Some(Direction::Down)
    } else if left && back != Direction::Left {
        Some(Direction::Left)
    } else if right && back != Direction::Right {
        Some(Direction::Right)
    } else {
        None
    }
}

/// Asking to reverse the current heading leaves the heading as it is.
pub proof fn lemma_reverse_ignored(current: Direction)
    ensures
        resolved(opposite(current), current) == current,
{
}

/// Any request that does not reverse the current heading is taken as it is.
pub proof fn lemma_non_reverse_taken(requested: Direction, current: Direction)
    requires
        requested != opposite(current),
    ensures
        resolved(requested, current) == requested,
{
}

} // verus!
