use snek::chain::{Chain, Segment};
use snek::control::{requested, PressedDirections};
use snek::game::GameState;
use snek::grid::{DirectionPair, Position, SnakeDirection};

fn pair(entry: SnakeDirection, exit: SnakeDirection) -> DirectionPair {
    DirectionPair { entry, exit }
}

fn two_segment_state(
    head_dir: DirectionPair,
    prev_dir: DirectionPair,
    heading: SnakeDirection,
) -> GameState {
    let mut chain = Chain::new(Segment { pos: Position { x: 5, y: 5 }, dir: head_dir });
    let _ = chain.append(Position { x: 5, y: 4 }, prev_dir);
    GameState { chain, heading, last_tail: None, score: 0 }
}

#[test]
fn opposite_input_ignored() {
    let straight = pair(SnakeDirection::Left, SnakeDirection::Left);
    let mut s = two_segment_state(straight, straight, SnakeDirection::Left);
    let before = s.clone();
    s.snake_controls(PressedDirections::only(SnakeDirection::Right));
    assert_eq!(s, before);
    assert_eq!(s.heading, SnakeDirection::Left);
}

#[test]
fn every_opposite_pair_rejected() {
    let cases = [
        (SnakeDirection::Left, SnakeDirection::Right),
        (SnakeDirection::Right, SnakeDirection::Left),
        (SnakeDirection::Up, SnakeDirection::Down),
        (SnakeDirection::Down, SnakeDirection::Up),
    ];
    for (facing, press) in cases {
        let straight = pair(facing, facing);
        let mut s = two_segment_state(straight, straight, facing);
        s.snake_controls(PressedDirections::only(press));
        assert_eq!(s.heading, facing);
    }
}

#[test]
fn cascade_skips_rejected_direction() {
    // left is pressed but facing Right, so the later up press wins
    let straight = pair(SnakeDirection::Right, SnakeDirection::Right);
    let mut s = two_segment_state(straight, straight, SnakeDirection::Right);
    s.snake_controls(PressedDirections { left: true, right: false, down: false, up: true });
    assert_eq!(s.heading, SnakeDirection::Up);
}

#[test]
fn first_input_from_idle_accepted() {
    let mut s = GameState::new();
    s.snake_controls(PressedDirections::only(SnakeDirection::Down));
    assert_eq!(s.heading, SnakeDirection::Down);
    assert_eq!(s.chain.get(0).dir, pair(SnakeDirection::Down, SnakeDirection::Down));
}

#[test]
fn turn_promotes_predecessor_exit() {
    // head descriptor differs from the predecessor's, so entry is promoted
    let mut s = two_segment_state(
        pair(SnakeDirection::Up, SnakeDirection::Up),
        pair(SnakeDirection::Null, SnakeDirection::Up),
        SnakeDirection::Up,
    );
    s.snake_controls(PressedDirections::only(SnakeDirection::Left));
    assert_eq!(s.chain.get(0).dir, pair(SnakeDirection::Up, SnakeDirection::Left));
    // after one movement tick the follower receives that corner descriptor
    s.snake_movement();
    assert_eq!(s.chain.get(1).dir, pair(SnakeDirection::Up, SnakeDirection::Left));
}

#[test]
fn degenerate_turn_forced_straight() {
    // straight head descriptor identical to the predecessor's: both fields
    // are forced to the new heading instead of promoting a corner
    let straight_up = pair(SnakeDirection::Up, SnakeDirection::Up);
    let mut s = two_segment_state(straight_up, straight_up, SnakeDirection::Up);
    s.snake_controls(PressedDirections::only(SnakeDirection::Left));
    assert_eq!(s.chain.get(0).dir, pair(SnakeDirection::Left, SnakeDirection::Left));
}

#[test]
fn no_keys_no_change() {
    let straight = pair(SnakeDirection::Up, SnakeDirection::Up);
    let mut s = two_segment_state(straight, straight, SnakeDirection::Up);
    let before = s.clone();
    s.snake_controls(PressedDirections::none());
    assert_eq!(s, before);
}

#[test]
fn lone_head_ignores_input() {
    let chain = Chain::new(Segment {
        pos: Position { x: 5, y: 5 },
        dir: pair(SnakeDirection::Null, SnakeDirection::Null),
    });
    let mut s = GameState { chain, heading: SnakeDirection::Null, last_tail: None, score: 0 };
    let before = s.clone();
    s.snake_controls(PressedDirections::only(SnakeDirection::Up));
    assert_eq!(s, before);
}

#[test]
fn requested_follows_priority_order() {
    let all = PressedDirections { left: true, right: true, down: true, up: true };
    assert_eq!(requested(all, SnakeDirection::Null), Some(SnakeDirection::Left));
    assert_eq!(requested(all, SnakeDirection::Right), Some(SnakeDirection::Right));
    let no_horizontal = PressedDirections { left: false, right: false, down: true, up: true };
    assert_eq!(requested(no_horizontal, SnakeDirection::Up), Some(SnakeDirection::Up));
    assert_eq!(requested(no_horizontal, SnakeDirection::Left), Some(SnakeDirection::Down));
}
