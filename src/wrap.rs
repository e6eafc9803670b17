//! Toroidal screen wrapping.
use vstd::prelude::*;
use crate::geometry::{Position, SIZE_LIMIT};

verus! {

/// The position after wrapping. An actor more than one diameter beyond the
/// left edge reappears half a diameter past the right edge, and the other way
/// round; likewise for the top and bottom edges. At most one edge is checked
/// per call, in the order left, right, top, bottom, so an actor off two edges
/// at once is moved back across one of them only.
pub open spec fn wrapped(pos: Position, diameter: int, screen_width: int, screen_height: int) -> Position {
    let half = diameter / 2;
    if pos.x < -diameter {
        Position { x: (screen_width + half) as i64, ..pos }
    } else if pos.x > screen_width + diameter {
        Position { x: (-half) as i64, ..pos }
    } else if pos.y < -diameter {
        Position { y: (screen_height + half) as i64, ..pos }
    } else if pos.y > screen_height + diameter {
        Position { y: (-half) as i64, ..pos }
    } else {
        pos
    }
}

/// Whether the wrapping sizes are in range.
pub open spec fn wrap_sizes_ok(diameter: int, screen_width: int, screen_height: int) -> bool {
    0 <= diameter <= SIZE_LIMIT && 0 <= screen_width <= SIZE_LIMIT && 0 <= screen_height
        <= SIZE_LIMIT
}

/// Moves an actor that has left the screen back in from the opposite edge.
pub fn handle_player_screen_wrapping(
    player_pos: &mut Position,
    player_diameter: i64,
    screen_width: i64,
    screen_height: i64,
)
    requires
        wrap_sizes_ok(player_diameter as int, screen_width as int, screen_height as int),
    ensures
        *final(player_pos) == wrapped(
            *old(player_pos),
            player_diameter as int,
            screen_width as int,
            screen_height as int,
        ),
{
    let half = player_diameter / 2;
    if player_pos.x < -player_diameter {
        player_pos.x = screen_width + half;
    } else if player_pos.x > screen_width + player_diameter {
        player_pos.x = -half;
    } else if player_pos.y < -player_diameter {
        player_pos.y = screen_height + half;
    } else if player_pos.y > screen_height + player_diameter {
        player_pos.y = -half;
    }
}

/// Leaving by one edge re-enters by the other: one pixel past the left
/// threshold lands half a diameter beyond the right edge, and one pixel past
/// the right threshold lands half a diameter before the left edge.
pub proof fn lemma_wrap_symmetry(y: i64, diameter: int, screen_width: int, screen_height: int)
    requires
        wrap_sizes_ok(diameter, screen_width, screen_height),
    ensures
        ({
            let left = (Position { x: (-diameter - 1) as i64, y });
            let r = wrapped(left, diameter, screen_width, screen_height);
            r.x == screen_width + diameter / 2 && r.y == y
        }),
        ({
            let right = (Position { x: (screen_width + diameter + 1) as i64, y });
            let r = wrapped(right, diameter, screen_width, screen_height);
            r.x == -(diameter / 2) && r.y == y
        }),
{
}

} // verus!
