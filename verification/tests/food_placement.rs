use snek::food::spawn_food;
use snek::grid::{Position, GRID_HEIGHT, GRID_WIDTH};

#[test]
fn spawned_food_lies_on_the_grid() {
    let occupied: Vec<Position> = Vec::new();
    let p = spawn_food(&occupied).expect("an empty grid has a free cell");
    assert!(0 <= p.x && p.x < GRID_WIDTH);
    assert!(0 <= p.y && p.y < GRID_HEIGHT);
}

#[test]
fn spawned_food_avoids_occupied_cells() {
    // every cell but one is occupied, so only that one may come back
    let free = Position { x: 7, y: 11 };
    let mut occupied: Vec<Position> = Vec::new();
    for x in 0..GRID_WIDTH {
        for y in 0..GRID_HEIGHT {
            if !(x == free.x && y == free.y) {
                occupied.push(Position { x, y });
            }
        }
    }
    assert_eq!(spawn_food(&occupied), Some(free));
}

#[test]
fn full_grid_yields_no_food() {
    let mut occupied: Vec<Position> = Vec::new();
    for x in 0..GRID_WIDTH {
        for y in 0..GRID_HEIGHT {
            occupied.push(Position { x, y });
        }
    }
    assert_eq!(spawn_food(&occupied), None);
}

#[test]
fn repeated_spawns_always_avoid_the_chain() {
    let occupied = vec![
        Position { x: 3, y: 3 },
        Position { x: 3, y: 2 },
        Position { x: 3, y: 1 },
    ];
    for _ in 0..50 {
        let p = spawn_food(&occupied).expect("a mostly free grid has a free cell");
        assert!(!occupied.contains(&p));
        assert!(0 <= p.x && p.x < GRID_WIDTH);
        assert!(0 <= p.y && p.y < GRID_HEIGHT);
    }
}
