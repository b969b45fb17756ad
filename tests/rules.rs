use snake::{
    advance, check_for_death, eat_food, intent_from_keys, opposite_of, set_intent, Direction,
    GridPosition, PLACEHOLDER_COORD,
};

const ALL: [Direction; 4] = [Direction::Up, Direction::Down, Direction::Left, Direction::Right];

fn pos(x: i32, y: i32) -> GridPosition {
    GridPosition::new(x, y)
}

#[test]
fn reversing_is_ignored() {
    for current in ALL {
        assert_eq!(set_intent(opposite_of(current), current), current);
    }
    assert_eq!(set_intent(Direction::Down, Direction::Up), Direction::Up);
    assert_eq!(set_intent(Direction::Left, Direction::Right), Direction::Right);
}

#[test]
fn non_reversing_is_taken() {
    for current in ALL {
        for requested in ALL {
            if requested != opposite_of(current) {
                assert_eq!(set_intent(requested, current), requested);
            }
        }
    }
    assert_eq!(set_intent(Direction::Left, Direction::Up), Direction::Left);
    assert_eq!(set_intent(Direction::Up, Direction::Up), Direction::Up);
}

#[test]
fn opposites() {
    assert_eq!(opposite_of(Direction::Up), Direction::Down);
    assert_eq!(opposite_of(Direction::Down), Direction::Up);
    assert_eq!(opposite_of(Direction::Left), Direction::Right);
    assert_eq!(opposite_of(Direction::Right), Direction::Left);
}

#[test]
fn keys_follow_priority() {
    assert_eq!(intent_from_keys(true, true, true, true, Direction::Left), Some(Direction::Up));
    // Up is a reversal while heading Down, so Down is the first legal key.
    assert_eq!(intent_from_keys(true, true, true, true, Direction::Down), Some(Direction::Down));
    assert_eq!(intent_from_keys(false, false, true, true, Direction::Up), Some(Direction::Left));
    assert_eq!(intent_from_keys(false, false, true, false, Direction::Right), None);
    assert_eq!(intent_from_keys(false, false, false, false, Direction::Up), None);
    assert_eq!(intent_from_keys(false, false, false, true, Direction::Up), Some(Direction::Right));
}

#[test]
fn head_steps_one_cell() {
    let mut none: Vec<GridPosition> = Vec::new();
    assert_eq!(advance(pos(2, 2), Direction::Up, &mut none), pos(2, 3));
    assert_eq!(advance(pos(2, 2), Direction::Down, &mut none), pos(2, 1));
    assert_eq!(advance(pos(2, 2), Direction::Left, &mut none), pos(1, 2));
    assert_eq!(advance(pos(2, 2), Direction::Right, &mut none), pos(3, 2));
    assert!(none.is_empty());
    // No walls: the head leaves the grid freely.
    assert_eq!(advance(pos(0, 0), Direction::Left, &mut none), pos(-1, 0));
}

#[test]
fn one_move_up_from_start() {
    let mut segments = vec![pos(0, -1)];
    let head = advance(pos(0, 0), Direction::Up, &mut segments);
    assert_eq!(head, pos(0, 1));
    assert_eq!(segments, vec![pos(0, 0)]);
}

#[test]
fn segments_take_old_places() {
    let mut segments = vec![pos(4, 4), pos(4, 3), pos(3, 3), pos(2, 3)];
    let head = advance(pos(5, 4), Direction::Up, &mut segments);
    assert_eq!(head, pos(5, 5));
    assert_eq!(segments, vec![pos(5, 4), pos(4, 4), pos(4, 3), pos(3, 3)]);
    assert_eq!(segments.len(), 4);
}

#[test]
fn eat_removes_food_and_grows() {
    let mut food = vec![pos(3, 3)];
    let mut segments = vec![pos(3, 2)];
    let eaten = eat_food(pos(3, 3), &mut food, &mut segments);
    assert_eq!(eaten, 1);
    assert!(food.is_empty());
    assert_eq!(segments.len(), 2);
    assert_eq!(segments[0], pos(3, 2));
    assert_eq!(segments[1], pos(PLACEHOLDER_COORD, PLACEHOLDER_COORD));
    assert_eq!(segments[1], pos(-1, -1));
}

#[test]
fn overlapping_food_all_eaten() {
    let mut food = vec![pos(1, 1), pos(2, 2), pos(1, 1), pos(0, 5)];
    let mut segments = vec![pos(1, 0)];
    let eaten = eat_food(pos(1, 1), &mut food, &mut segments);
    assert_eq!(eaten, 2);
    assert_eq!(food, vec![pos(2, 2), pos(0, 5)]);
    assert_eq!(segments, vec![pos(1, 0), pos(-1, -1), pos(-1, -1)]);
}

#[test]
fn no_food_at_head_changes_nothing() {
    let mut food = vec![pos(1, 2), pos(2, 1)];
    let mut segments = vec![pos(1, 0), pos(0, 0)];
    assert_eq!(eat_food(pos(1, 1), &mut food, &mut segments), 0);
    assert_eq!(food, vec![pos(1, 2), pos(2, 1)]);
    assert_eq!(segments, vec![pos(1, 0), pos(0, 0)]);
}

#[test]
fn death_iff_head_on_segment() {
    assert!(check_for_death(pos(1, 1), &vec![pos(0, 0), pos(1, 1)]));
    assert!(check_for_death(pos(1, 1), &vec![pos(1, 1), pos(1, 1)]));
    assert!(!check_for_death(pos(1, 1), &vec![pos(1, 0), pos(0, 1)]));
    assert!(!check_for_death(pos(1, 1), &Vec::new()));
}

#[test]
fn head_onto_old_second_segment_dies() {
    let mut segments = vec![pos(1, 0), pos(0, 1), pos(2, 2)];
    let head = advance(pos(0, 0), Direction::Up, &mut segments);
    assert_eq!(head, pos(0, 1));
    assert_eq!(segments, vec![pos(0, 0), pos(1, 0), pos(0, 1)]);
    assert!(check_for_death(head, &segments));
}

#[test]
fn tail_cell_is_free_after_move() {
    // The head steps onto the cell the tail leaves: no death.
    let mut segments = vec![pos(1, 0), pos(1, 1), pos(0, 1)];
    let head = advance(pos(0, 0), Direction::Up, &mut segments);
    assert_eq!(head, pos(0, 1));
    assert!(!check_for_death(head, &segments));
}
