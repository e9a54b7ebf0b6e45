use snek::grid::{DirectionPair, SnakeDirection};
use snek::grid::SnakeDirection::{Down, Left, Null, Right, Up};
use snek::sprites::{body_sprite_index, spawn_sprite_index};
use snek::timing::{tick_period_millis, TICK_BASE_MILLIS};

fn pair(entry: SnakeDirection, exit: SnakeDirection) -> DirectionPair {
    DirectionPair { entry, exit }
}

#[test]
fn corner_sprites() {
    assert_eq!(body_sprite_index(pair(Left, Up)), 5);
    assert_eq!(body_sprite_index(pair(Down, Right)), 5);
    assert_eq!(body_sprite_index(pair(Right, Up)), 4);
    assert_eq!(body_sprite_index(pair(Down, Left)), 4);
    assert_eq!(body_sprite_index(pair(Left, Down)), 9);
    assert_eq!(body_sprite_index(pair(Up, Right)), 9);
    assert_eq!(body_sprite_index(pair(Right, Down)), 8);
    assert_eq!(body_sprite_index(pair(Up, Left)), 8);
}

#[test]
fn straight_sprites() {
    assert_eq!(body_sprite_index(pair(Up, Up)), 2);
    assert_eq!(body_sprite_index(pair(Down, Down)), 2);
    assert_eq!(body_sprite_index(pair(Left, Left)), 1);
    assert_eq!(body_sprite_index(pair(Right, Right)), 1);
    assert_eq!(body_sprite_index(pair(Null, Null)), 2);
    assert_eq!(body_sprite_index(pair(Null, Up)), 2);
}

#[test]
fn spawn_sprites_follow_exit_heading() {
    assert_eq!(spawn_sprite_index(pair(Null, Left)), 1);
    assert_eq!(spawn_sprite_index(pair(Null, Right)), 1);
    assert_eq!(spawn_sprite_index(pair(Null, Up)), 2);
    assert_eq!(spawn_sprite_index(pair(Null, Down)), 2);
    assert_eq!(spawn_sprite_index(pair(Up, Null)), 2);
}

#[test]
fn tick_period_shrinks_with_score() {
    assert_eq!(tick_period_millis(0), TICK_BASE_MILLIS);
    assert_eq!(tick_period_millis(1), 124);
    assert_eq!(tick_period_millis(100), 25);
    assert_eq!(tick_period_millis(124), 1);
    assert_eq!(tick_period_millis(125), 0);
    assert_eq!(tick_period_millis(10_000), 0);
}
