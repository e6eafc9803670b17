use pacman_core::geometry::{Direction, Position, TileIndex};
use pacman_core::maze::initialize_maze;
use pacman_core::movement::HeldKeys;
use pacman_core::scent::{update_tile_scent, Scent};
use pacman_core::simulation::{GameConfig, Simulation};

const RIGHT: HeldKeys = HeldKeys { up: false, down: false, left: false, right: true };
const NONE: HeldKeys = HeldKeys { up: false, down: false, left: false, right: false };

fn reference_game() -> Simulation {
    Simulation::new(GameConfig::from_radius(12, 34, 34), initialize_maze())
}

#[test]
fn reference_configuration() {
    let c = GameConfig::from_radius(12, 34, 34);
    assert_eq!(c.tile_width, 24);
    assert_eq!(c.tile_height, 24);
    assert_eq!(c.speed, 4);
    assert_eq!(c.screen_width, 816);
    assert_eq!(c.screen_height, 816);
    assert_eq!(c.scent_duration, 2000);
    assert_eq!(c.diameter(), 24);
}

#[test]
fn new_game_starts_centred_and_still() {
    let s = reference_game();
    assert_eq!(s.pos, Position { x: 408, y: 408 });
    assert_eq!(s.direction, Direction::Still);
    assert_eq!(s.last_direction, Direction::Still);
}

#[test]
fn moving_right_until_wall() {
    let mut s = reference_game();
    let mut prev_x = s.pos.x;
    let mut hit_wall = false;
    for i in 0..120u64 {
        s.tick(RIGHT, i * 16);
        if hit_wall {
            assert_eq!(s.pos.x, prev_x);
        } else if s.pos.x == prev_x {
            hit_wall = true;
        } else {
            assert!(s.pos.x > prev_x);
        }
        prev_x = s.pos.x;
    }
    assert!(hit_wall);
    assert_eq!(s.pos, Position { x: 788, y: 420 });
}

#[test]
fn tick_leaves_scent_on_current_tile() {
    let mut s = reference_game();
    s.tick(NONE, 1000);
    assert_eq!(
        s.scents.get(TileIndex { col: 17, row: 17 }),
        Some(Scent { start_time: 1000, duration: 2000 })
    );
    let lit = update_tile_scent(&mut s.scents, 2000, 200);
    assert_eq!(lit, vec![(TileIndex { col: 17, row: 17 }, 100)]);
}

#[test]
fn tick_wraps_at_screen_edge() {
    let mut s = reference_game();
    s.pos = Position { x: 0, y: 420 };
    s.direction = Direction::Left;
    s.last_direction = Direction::Left;
    // Outside the grid, moving left: the actor keeps going until it wraps.
    for i in 0..7u64 {
        s.tick(NONE, i * 16);
    }
    assert_eq!(s.pos, Position { x: 828, y: 420 });
}
