//! Basic values shared by every component: positions, directions and tile indices.
use vstd::prelude::*;

verus! {

/// Largest magnitude of a position coordinate that the movement functions accept.
pub const COORD_LIMIT: i64 = 1_000_000_000;

/// Largest magnitude of a position coordinate that the tile locator accepts.
pub const LOCATE_LIMIT: i64 = 2_000_000_000;

/// Largest tile size, actor size, speed or screen dimension accepted.
pub const SIZE_LIMIT: i64 = 100_000_000;

/// A position in screen-space pixels.
#[derive(Clone, Copy, Debug, PartialEq, Eq, Structural)]
pub struct Position {
    pub x: i64,
    pub y: i64,
}

impl Position {
    /// Whether both coordinates lie within `COORD_LIMIT` of the origin.
    pub open spec fn in_limits(self) -> bool {
        -COORD_LIMIT <= self.x <= COORD_LIMIT && -COORD_LIMIT <= self.y <= COORD_LIMIT
    }

    pub fn within_limits(&self) -> (r: bool)
        ensures
            r == self.in_limits(),
    {
        -COORD_LIMIT <= self.x && self.x <= COORD_LIMIT && -COORD_LIMIT <= self.y && self.y
            <= COORD_LIMIT
    }
}

/// A requested movement direction. Movement is axis-locked: no variant moves
/// along both axes.
#[derive(Clone, Copy, Debug, PartialEq, Eq, Structural)]
pub enum Direction {
    Still,
    Up,
    Down,
    Left,
    Right,
}

impl Direction {
    /// The horizontal unit component: -1, 0 or 1.
    pub open spec fn dx(self) -> int {
        match self {
            Direction::Left => -1,
            Direction::Right => 1,
            _ => 0,
        }
    }

    /// The vertical unit component (screen y grows downwards): -1, 0 or 1.
    pub open spec fn dy(self) -> int {
        match self {
            Direction::Up => -1,
            Direction::Down => 1,
            _ => 0,
        }
    }

    pub fn delta_x(&self) -> (r: i64)
        ensures
            r == self.dx(),
    {
        match self {
            Direction::Left => -1,
            Direction::Right => 1,
            _ => 0,
        }
    }

    pub fn delta_y(&self) -> (r: i64)
        ensures
            r == self.dy(),
    {
        match self {
            Direction::Up => -1,
            Direction::Down => 1,
            _ => 0,
        }
    }
}

/// Every direction is a pair of unit components of which at most one is non-zero.
pub proof fn lemma_axis_exclusive(d: Direction)
    ensures
        -1 <= d.dx() <= 1,
        -1 <= d.dy() <= 1,
        d.dx() == 0 || d.dy() == 0,
{
}

/// A cell of the grid: column (x) and row (y).
#[derive(Clone, Copy, Debug, PartialEq, Eq, Structural)]
pub struct TileIndex {
    pub col: usize,
    pub row: usize,
}

/// The absolute value of an integer.
pub open spec fn abs(v: int) -> int {
    if v < 0 {
        -v
    } else {
        v
    }
}

} // verus!
