//! The movement controller: input to direction, wall-checked steps and axis
//! re-centring on turns.
use vstd::prelude::*;
use crate::geometry::{Direction, Position, TileIndex, COORD_LIMIT, SIZE_LIMIT};
use crate::locator::{get_tile, locator_sizes_ok, tile_at};
use crate::maze::Maze;

verus! {

/// Movement keys held during one tick.
#[derive(Clone, Copy, Debug, PartialEq, Eq, Structural)]
pub struct HeldKeys {
    pub up: bool,
    pub down: bool,
    pub left: bool,
    pub right: bool,
}

/// The direction after reading the held keys. Keys are read up, down, left,
/// right, each overriding the one before, so horizontal keys win over vertical
/// ones and right wins over left; with no key held the direction is kept.
pub open spec fn next_direction(current: Direction, keys: HeldKeys) -> Direction {
    if keys.right {
        Direction::Right
    } else if keys.left {
        Direction::Left
    } else if keys.down {
        Direction::Down
    } else if keys.up {
        Direction::Up
    } else {
        current
    }
}

/// Updates `player_direction` from the movement keys held this tick.
pub fn handle_keypress(player_direction: &mut Direction, keys: HeldKeys)
    ensures
        *final(player_direction) == next_direction(*old(player_direction), keys),
{
    if keys.up {
        *player_direction = Direction::Up;
    }
    if keys.down {
        *player_direction = Direction::Down;
    }
    if keys.left {
        *player_direction = Direction::Left;
    }
    if keys.right {
        *player_direction = Direction::Right;
    }
}

/// Whether a move onto the tile `t` is refused: it names a wall cell inside the grid.
pub open spec fn blocks(maze: &Maze, t: Option<TileIndex>) -> bool {
    match t {
        Some(t) => maze.contains(t.col as int, t.row as int) && maze.kind_at(
            t.col as int,
            t.row as int,
        ).is_wall(),
        None => false,
    }
}

/// The candidate position one tick ahead: `speed` pixels along `dir`.
pub open spec fn candidate(pos: Position, dir: Direction, speed: int) -> (int, int) {
    (pos.x + speed * dir.dx(), pos.y + speed * dir.dy())
}

/// The position after one tick: the candidate, unless the tile it resolves to
/// is a wall of the maze. A candidate between tiles or outside the grid is
/// allowed, so the actor can leave the grid and wrap.
pub open spec fn stepped(
    pos: Position,
    dir: Direction,
    speed: int,
    maze: &Maze,
    tile_width: int,
    tile_height: int,
    radius: int,
) -> Position {
    let (nx, ny) = candidate(pos, dir, speed);
    if blocks(maze, tile_at(nx, ny, tile_width, tile_height, radius)) {
        pos
    } else {
        Position { x: nx as i64, y: ny as i64 }
    }
}

/// Moves the actor one tick along `player_direction`, unless the move would
/// put it on a wall tile, in which case it stays put.
pub fn update_player_position(
    player_pos: &mut Position,
    player_direction: Direction,
    speed: i64,
    maze: &Maze,
    tile_width: i64,
    tile_height: i64,
    player_radius: i64,
)
    requires
        old(player_pos).in_limits(),
        0 <= speed <= SIZE_LIMIT,
        locator_sizes_ok(tile_width as int, tile_height as int, player_radius as int),
    ensures
        *final(player_pos) == stepped(
            *old(player_pos),
            player_direction,
            speed as int,
            maze,
            tile_width as int,
            tile_height as int,
            player_radius as int,
        ),
{
    let dx = player_direction.delta_x();
    let dy = player_direction.delta_y();
    proof {
        assert(-SIZE_LIMIT <= speed * dx <= SIZE_LIMIT) by (nonlinear_arith)
            requires 0 <= speed <= SIZE_LIMIT, -1 <= dx <= 1;
        assert(-SIZE_LIMIT <= speed * dy <= SIZE_LIMIT) by (nonlinear_arith)
            requires 0 <= speed <= SIZE_LIMIT, -1 <= dy <= 1;
    }
    let next = Position { x: player_pos.x + speed * dx, y: player_pos.y + speed * dy };
    let can_move = match get_tile(&next, tile_width, tile_height, player_radius) {
        Some(tile) => !maze.is_wall_at(tile),
        None => true,
    };
    if can_move {
        *player_pos = next;
    }
}

/// A position never steps onto a wall: after a tick the actor either stayed
/// where it was or stands on a position that resolves to no wall tile.
pub proof fn lemma_never_enters_wall(
    pos: Position,
    dir: Direction,
    speed: int,
    maze: &Maze,
    tile_width: int,
    tile_height: int,
    radius: int,
)
    requires
        pos.in_limits(),
        0 <= speed <= SIZE_LIMIT,
    ensures
        ({
            let next = stepped(pos, dir, speed, maze, tile_width, tile_height, radius);
            next == pos || !blocks(
                maze,
                tile_at(next.x as int, next.y as int, tile_width, tile_height, radius),
            )
        }),
{
    let (nx, ny) = candidate(pos, dir, speed);
    assert(-SIZE_LIMIT <= speed * dir.dx() <= SIZE_LIMIT) by (nonlinear_arith)
        requires 0 <= speed <= SIZE_LIMIT, -1 <= dir.dx() <= 1;
    assert(-SIZE_LIMIT <= speed * dir.dy() <= SIZE_LIMIT) by (nonlinear_arith)
        requires 0 <= speed <= SIZE_LIMIT, -1 <= dir.dy() <= 1;
}

/// Along its direction a tick advances the actor by exactly `speed` or holds
/// it where it is; once held, it stays held on every later tick with the same
/// direction.
pub proof fn lemma_advance_or_hold(
    pos: Position,
    dir: Direction,
    speed: int,
    maze: &Maze,
    tile_width: int,
    tile_height: int,
    radius: int,
)
    requires
        pos.in_limits(),
        0 <= speed <= SIZE_LIMIT,
    ensures
        ({
            let next = stepped(pos, dir, speed, maze, tile_width, tile_height, radius);
            &&& next == pos || (next.x == pos.x + speed * dir.dx() && next.y == pos.y + speed
                * dir.dy())
            &&& next == pos ==> stepped(next, dir, speed, maze, tile_width, tile_height, radius)
                == next
        }),
{
    assert(-SIZE_LIMIT <= speed * dir.dx() <= SIZE_LIMIT) by (nonlinear_arith)
        requires 0 <= speed <= SIZE_LIMIT, -1 <= dir.dx() <= 1;
    assert(-SIZE_LIMIT <= speed * dir.dy() <= SIZE_LIMIT) by (nonlinear_arith)
        requires 0 <= speed <= SIZE_LIMIT, -1 <= dir.dy() <= 1;
}

/// A tick moves each coordinate by at most `speed`.
pub proof fn lemma_step_bounds(
    pos: Position,
    dir: Direction,
    speed: int,
    maze: &Maze,
    tile_width: int,
    tile_height: int,
    radius: int,
)
    requires
        pos.in_limits(),
        0 <= speed <= SIZE_LIMIT,
    ensures
        ({
            let next = stepped(pos, dir, speed, maze, tile_width, tile_height, radius);
            &&& pos.x - speed <= next.x <= pos.x + speed
            &&& pos.y - speed <= next.y <= pos.y + speed
        }),
{
    assert(-speed <= speed * dir.dx() <= speed) by (nonlinear_arith)
        requires 0 <= speed, -1 <= dir.dx() <= 1;
    assert(-speed <= speed * dir.dy() <= speed) by (nonlinear_arith)
        requires 0 <= speed, -1 <= dir.dy() <= 1;
}

/// `coord / tile`, rounded to the nearest integer with halves rounded away from zero.
pub open spec fn round_div(coord: int, tile: int) -> int {
    if coord >= 0 {
        (2 * coord + tile) / (2 * tile)
    } else {
        -((-2 * coord + tile) / (2 * tile))
    }
}

/// A coordinate snapped for a turn: `round(coord / tile) * tile + tile / 2`.
pub open spec fn snapped(coord: int, tile: int) -> int {
    round_div(coord, tile) * tile + tile / 2
}

/// Position and remembered direction after re-centring for `dir`. When `dir`
/// differs from the direction of the previous tick, the coordinate across the
/// new axis of motion is snapped to the grid (y for horizontal motion, x for
/// vertical motion) and `dir` is remembered; otherwise nothing changes.
pub open spec fn recentered(
    pos: Position,
    dir: Direction,
    last: Direction,
    tile_width: int,
    tile_height: int,
) -> (Position, Direction) {
    if dir == last {
        (pos, last)
    } else {
        let x = if dir.dy() != 0 {
            snapped(pos.x as int, tile_width)
        } else {
            pos.x as int
        };
        let y = if dir.dx() != 0 {
            snapped(pos.y as int, tile_height)
        } else {
            pos.y as int
        };
        (Position { x: x as i64, y: y as i64 }, dir)
    }
}

fn snap(coord: i64, tile: i64) -> (r: i64)
    requires
        -COORD_LIMIT - SIZE_LIMIT <= coord <= COORD_LIMIT + SIZE_LIMIT,
        0 < tile <= SIZE_LIMIT,
    ensures
        r == snapped(coord as int, tile as int),
        coord - tile <= r <= coord + tile,
{
    let n = if coord >= 0 {
        (2 * coord + tile) / (2 * tile)
    } else {
        -((tile - 2 * coord) / (2 * tile))
    };
    proof {
        let c = coord as int;
        let t = tile as int;
        if c >= 0 {
            assert(2 * c - t < 2 * t * n <= 2 * c + t) by (nonlinear_arith)
                requires n == (2 * c + t) / (2 * t), t > 0, c >= 0;
        } else {
            assert(2 * c - t <= 2 * t * n < 2 * c + t) by (nonlinear_arith)
                requires n == -((-2 * c + t) / (2 * t)), t > 0, c < 0;
        }
        assert(c - t <= n * t + t / 2 <= c + t) by (nonlinear_arith)
            requires 2 * c - t <= 2 * t * n <= 2 * c + t, t > 0;
    }
    n * tile + tile / 2
}

/// Re-centres the actor when the direction changed since the last tick, and
/// records the new direction in `last_direction`.
pub fn adjust_player_position(
    tile_width: i64,
    tile_height: i64,
    player_pos: &mut Position,
    player_direction: Direction,
    last_direction: &mut Direction,
)
    requires
        0 < tile_width <= SIZE_LIMIT,
        0 < tile_height <= SIZE_LIMIT,
        -COORD_LIMIT - SIZE_LIMIT <= old(player_pos).x <= COORD_LIMIT + SIZE_LIMIT,
        -COORD_LIMIT - SIZE_LIMIT <= old(player_pos).y <= COORD_LIMIT + SIZE_LIMIT,
    ensures
        (*final(player_pos), *final(last_direction)) == recentered(
            *old(player_pos),
            player_direction,
            *old(last_direction),
            tile_width as int,
            tile_height as int,
        ),
{
    if player_direction != *last_direction {
        if player_direction.delta_y() != 0 {
            player_pos.x = snap(player_pos.x, tile_width);
        }
        if player_direction.delta_x() != 0 {
            player_pos.y = snap(player_pos.y, tile_height);
        }
        *last_direction = player_direction;
    }
}

/// Re-centring is done once per change of direction: applied a second time
/// with the same direction it changes nothing.
pub proof fn lemma_recentering_idempotent(
    pos: Position,
    dir: Direction,
    last: Direction,
    tile_width: int,
    tile_height: int,
)
    ensures
        ({
            let (p1, l1) = recentered(pos, dir, last, tile_width, tile_height);
            recentered(p1, dir, l1, tile_width, tile_height) == (p1, l1)
        }),
{
}

} // verus!
