//! The per-tick simulation: configuration and the state owned by the frame loop.
use vstd::prelude::*;
use crate::geometry::{Direction, Position, TileIndex, SIZE_LIMIT};
use crate::locator::{get_tile, locator_sizes_ok, tile_at};
use crate::maze::Maze;
use crate::movement::{
    adjust_player_position, handle_keypress, next_direction, recentered, stepped,
    update_player_position, HeldKeys,
};
use crate::scent::{light_up_tile, Scent, ScentMap};
use crate::wrap::{handle_player_screen_wrapping, wrap_sizes_ok, wrapped};

verus! {

/// Scent lifetime of the reference configuration, in milliseconds.
pub const SCENT_DURATION_MS: u64 = 2000;

/// Fixed sizes of one game, in pixels, and the scent lifetime in milliseconds.
#[derive(Clone, Copy, Debug, PartialEq, Eq, Structural)]
pub struct GameConfig {
    pub tile_width: i64,
    pub tile_height: i64,
    pub player_radius: i64,
    pub speed: i64,
    pub screen_width: i64,
    pub screen_height: i64,
    pub scent_duration: u64,
}

impl GameConfig {
    /// All sizes are positive (speed and radius may be zero) and in range.
    pub open spec fn valid(self) -> bool {
        &&& locator_sizes_ok(self.tile_width as int, self.tile_height as int, self.player_radius as int)
        &&& 0 <= self.speed <= SIZE_LIMIT
        &&& wrap_sizes_ok(2 * self.player_radius, self.screen_width as int, self.screen_height as int)
    }

    /// The configuration derived from the actor's radius: square tiles one
    /// diameter wide, a speed of a third of the radius per tick, a screen of
    /// `cols` by `rows` tiles and scents lasting `SCENT_DURATION_MS`.
    pub fn from_radius(player_radius: i64, cols: i64, rows: i64) -> (c: GameConfig)
        requires
            0 < player_radius <= 10_000,
            0 < cols <= 1_000,
            0 < rows <= 1_000,
        ensures
            c.valid(),
            c.tile_width == 2 * player_radius,
            c.tile_height == 2 * player_radius,
            c.player_radius == player_radius,
            c.speed == player_radius / 3,
            c.screen_width == c.tile_width * cols,
            c.screen_height == c.tile_height * rows,
            c.scent_duration == SCENT_DURATION_MS,
    {
        let tile = 2 * player_radius;
        proof {
            assert(tile * cols <= 20_000 * 1_000) by (nonlinear_arith)
                requires 0 < tile <= 20_000, 0 < cols <= 1_000;
            assert(tile * rows <= 20_000 * 1_000) by (nonlinear_arith)
                requires 0 < tile <= 20_000, 0 < rows <= 1_000;
        }
        GameConfig {
            tile_width: tile,
            tile_height: tile,
            player_radius,
            speed: player_radius / 3,
            screen_width: tile * cols,
            screen_height: tile * rows,
            scent_duration: SCENT_DURATION_MS,
        }
    }

    /// The actor's diameter.
    pub fn diameter(&self) -> (d: i64)
        requires
            self.valid(),
        ensures
            d == 2 * self.player_radius,
    {
        2 * self.player_radius
    }
}

/// Everything the frame loop carries from one tick to the next.
pub struct Simulation {
    pub config: GameConfig,
    pub maze: Maze,
    pub pos: Position,
    pub direction: Direction,
    pub last_direction: Direction,
    pub scents: ScentMap,
}

impl Simulation {
    /// Well-formed: a valid configuration, a well-formed scent map, and the
    /// actor within the coordinate limits.
    pub open spec fn wf(&self) -> bool {
        &&& self.config.valid()
        &&& self.scents.wf()
        &&& self.pos.in_limits()
    }

    /// A game at rest in the middle of the screen with no scents.
    pub fn new(config: GameConfig, maze: Maze) -> (s: Simulation)
        requires
            config.valid(),
        ensures
            s.wf(),
            s.config == config,
            s.maze == maze,
            s.pos.x == config.screen_width / 2,
            s.pos.y == config.screen_height / 2,
            s.direction == Direction::Still,
            s.last_direction == Direction::Still,
            s.scents@ == Map::<TileIndex, Scent>::empty(),
    {
        Simulation {
            config,
            maze,
            pos: Position { x: config.screen_width / 2, y: config.screen_height / 2 },
            direction: Direction::Still,
            last_direction: Direction::Still,
            scents: ScentMap::new(),
        }
    }

    /// One tick: read the keys, leave a scent on the tile the actor occupies,
    /// step (unless a wall is in the way), re-centre on a turn, and wrap at
    /// the screen edges.
    pub fn tick(&mut self, keys: HeldKeys, now: u64)
        requires
            old(self).wf(),
        ensures
            ({
                let c = old(self).config;
                let dir = next_direction(old(self).direction, keys);
                let moved = stepped(
                    old(self).pos,
                    dir,
                    c.speed as int,
                    &old(self).maze,
                    c.tile_width as int,
                    c.tile_height as int,
                    c.player_radius as int,
                );
                let (turned, last) = recentered(
                    moved,
                    dir,
                    old(self).last_direction,
                    c.tile_width as int,
                    c.tile_height as int,
                );
                &&& final(self).config == c
                &&& final(self).maze == old(self).maze
                &&& final(self).direction == dir
                &&& final(self).last_direction == last
                &&& final(self).pos == wrapped(
                    turned,
                    2 * c.player_radius,
                    c.screen_width as int,
                    c.screen_height as int,
                )
                &&& final(self).scents.wf()
                &&& final(self).scents@ == match tile_at(
                    old(self).pos.x as int,
                    old(self).pos.y as int,
                    c.tile_width as int,
                    c.tile_height as int,
                    c.player_radius as int,
                ) {
                    Some(t) => old(self).scents@.insert(
                        t,
                        Scent { start_time: now, duration: c.scent_duration },
                    ),
                    None => old(self).scents@,
                }
            }),
    {
        let c = self.config;
        handle_keypress(&mut self.direction, keys);
        match get_tile(&self.pos, c.tile_width, c.tile_height, c.player_radius) {
            Some(tile) => light_up_tile(tile, c.scent_duration, &mut self.scents, now),
            None => {},
        }
        let ghost start = self.pos;
        update_player_position(
            &mut self.pos,
            self.direction,
            c.speed,
            &self.maze,
            c.tile_width,
            c.tile_height,
            c.player_radius,
        );
        proof {
            crate::movement::lemma_step_bounds(
                start,
                self.direction,
                c.speed as int,
                &self.maze,
                c.tile_width as int,
                c.tile_height as int,
                c.player_radius as int,
            );
        }
        adjust_player_position(
            c.tile_width,
            c.tile_height,
            &mut self.pos,
            self.direction,
            &mut self.last_direction,
        );
        handle_player_screen_wrapping(&mut self.pos, c.diameter(), c.screen_width, c.screen_height);
    }
}

} // verus!
