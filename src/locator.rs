//! Mapping a continuous position to the tile the actor occupies.
use vstd::prelude::*;
use crate::geometry::{Position, TileIndex, abs, LOCATE_LIMIT, SIZE_LIMIT};

verus! {

/// The tile claimed by an actor at `(x, y)` with tolerance `radius`.
///
/// The candidate tile is `(x / tile_width, y / tile_height)`; it is claimed
/// only when the position lies within `radius` of the tile's centre on both
/// axes (compared at doubled scale, so odd tile sizes are exact). A position
/// with a negative coordinate lies off the grid and claims no tile.
pub open spec fn tile_at(x: int, y: int, tile_width: int, tile_height: int, radius: int) -> Option<
    TileIndex,
> {
    if x < 0 || y < 0 {
        None
    } else {
        let col = x / tile_width;
        let row = y / tile_height;
        if abs(2 * x - (2 * col + 1) * tile_width) <= 2 * radius && abs(
            2 * y - (2 * row + 1) * tile_height,
        ) <= 2 * radius {
            Some(TileIndex { col: col as usize, row: row as usize })
        } else {
            None
        }
    }
}

/// Whether the tile locator accepts these sizes.
pub open spec fn locator_sizes_ok(tile_width: int, tile_height: int, radius: int) -> bool {
    0 < tile_width <= SIZE_LIMIT && 0 < tile_height <= SIZE_LIMIT && 0 <= radius <= SIZE_LIMIT
}

/// Returns the tile whose centre lies within `player_radius` of `pos` on both
/// axes, or `None` when the actor is between tiles or off the grid.
pub fn get_tile(pos: &Position, tile_width: i64, tile_height: i64, player_radius: i64) -> (r: Option<
    TileIndex,
>)
    requires
        locator_sizes_ok(tile_width as int, tile_height as int, player_radius as int),
        -LOCATE_LIMIT <= pos.x <= LOCATE_LIMIT,
        -LOCATE_LIMIT <= pos.y <= LOCATE_LIMIT,
    ensures
        r == tile_at(pos.x as int, pos.y as int, tile_width as int, tile_height as int, player_radius as int),
{
    if pos.x < 0 || pos.y < 0 {
        return None;
    }
    let col = pos.x / tile_width;
    let row = pos.y / tile_height;
    proof {
        assert(0 <= col <= pos.x) by (nonlinear_arith)
            requires col == pos.x / tile_width, pos.x >= 0, tile_width > 0;
        assert(0 <= row <= pos.y) by (nonlinear_arith)
            requires row == pos.y / tile_height, pos.y >= 0, tile_height > 0;
        assert(col * tile_width <= pos.x) by (nonlinear_arith)
            requires col == pos.x / tile_width, pos.x >= 0, tile_width > 0;
        assert(row * tile_height <= pos.y) by (nonlinear_arith)
            requires row == pos.y / tile_height, pos.y >= 0, tile_height > 0;
    }
    let left = col * tile_width;
    let top = row * tile_height;
    let off_x = 2 * pos.x - (2 * left + tile_width);
    let off_y = 2 * pos.y - (2 * top + tile_height);
    proof {
        assert((2 * col + 1) * tile_width == 2 * left + tile_width) by (nonlinear_arith)
            requires left == col * tile_width;
        assert((2 * row + 1) * tile_height == 2 * top + tile_height) by (nonlinear_arith)
            requires top == row * tile_height;
    }
    let dist_x = if off_x < 0 { -off_x } else { off_x };
    let dist_y = if off_y < 0 { -off_y } else { off_y };
    if dist_x <= 2 * player_radius && dist_y <= 2 * player_radius {
        Some(TileIndex { col: col as usize, row: row as usize })
    } else {
        None
    }
}

} // verus!
