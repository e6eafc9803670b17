//! Where each wall piece sits inside its tile, as pixel rectangles.
use vstd::prelude::*;
use crate::maze::TileKind;

verus! {

/// An axis-aligned rectangle: top-left corner, width and height, in pixels.
#[derive(Clone, Copy, Debug, PartialEq, Eq, Structural)]
pub struct WallRect {
    pub x: i64,
    pub y: i64,
    pub w: i64,
    pub h: i64,
}

/// Builds a rectangle from plain integers.
pub open spec fn rect(x: int, y: int, w: int, h: int) -> WallRect {
    WallRect { x: x as i64, y: y as i64, w: w as i64, h: h as i64 }
}

/// The rectangles drawn for a tile of kind `kind` whose top-left corner is at
/// `(left, top)`. Walls are a quarter of the tile width thick and run along
/// the tile's centre lines: a straight wall crosses the whole tile, a corner
/// joins two half-segments at the centre (NW: up and left, NE: up and right,
/// SW: down and left, SE: down and right). An empty tile has none.
pub open spec fn wall_shape(kind: TileKind, left: int, top: int, tile_width: int, tile_height: int) -> Seq<
    WallRect,
> {
    let t = tile_width / 4;
    let hw = tile_width / 2;
    let hh = tile_height / 2;
    let ht = t / 2;
    let mid_x = left + hw - ht;
    let mid_y = top + hh - ht;
    match kind {
        TileKind::Empty => seq![],
        TileKind::WallVertical => seq![rect(mid_x, top, t, tile_height)],
        TileKind::WallHorizontal => seq![rect(left, mid_y, tile_width, t)],
        TileKind::WallCornerNW => seq![rect(mid_x, top, t, hh + ht), rect(left, mid_y, hw + ht, t)],
        TileKind::WallCornerNE => seq![rect(mid_x, top, t, hh + ht), rect(mid_x, mid_y, hw + ht, t)],
        TileKind::WallCornerSW => seq![rect(mid_x, mid_y, t, hh + ht), rect(left, mid_y, hw + ht, t)],
        TileKind::WallCornerSE => seq![rect(mid_x, mid_y, t, hh + ht), rect(mid_x, mid_y, hw + ht, t)],
    }
}

/// The rectangles to draw for a tile of kind `kind` at column `col`, row `row`.
pub fn wall_rects(kind: TileKind, col: i64, row: i64, tile_width: i64, tile_height: i64) -> (r: Vec<
    WallRect,
>)
    requires
        0 <= col <= 1_000_000,
        0 <= row <= 1_000_000,
        0 < tile_width <= 1_000_000,
        0 < tile_height <= 1_000_000,
    ensures
        r@ == wall_shape(kind, col * tile_width, row * tile_height, tile_width as int, tile_height as int),
{
    proof {
        assert(0 <= col * tile_width <= 1_000_000 * 1_000_000) by (nonlinear_arith)
            requires 0 <= col <= 1_000_000, 0 < tile_width <= 1_000_000;
        assert(0 <= row * tile_height <= 1_000_000 * 1_000_000) by (nonlinear_arith)
            requires 0 <= row <= 1_000_000, 0 < tile_height <= 1_000_000;
    }
    let left = col * tile_width;
    let top = row * tile_height;
    let t = tile_width / 4;
    let hw = tile_width / 2;
    let hh = tile_height / 2;
    let ht = t / 2;
    let mid_x = left + hw - ht;
    let mid_y = top + hh - ht;
    let v_full = WallRect { x: mid_x, y: top, w: t, h: tile_height };
    let h_full = WallRect { x: left, y: mid_y, w: tile_width, h: t };
    let up = WallRect { x: mid_x, y: top, w: t, h: hh + ht };
    let down = WallRect { x: mid_x, y: mid_y, w: t, h: hh + ht };
    let west = WallRect { x: left, y: mid_y, w: hw + ht, h: t };
    let east = WallRect { x: mid_x, y: mid_y, w: hw + ht, h: t };
    let r = match kind {
        TileKind::Empty => Vec::new(),
        TileKind::WallVertical => vec![v_full],
        TileKind::WallHorizontal => vec![h_full],
        TileKind::WallCornerNW => vec![up, west],
        TileKind::WallCornerNE => vec![up, east],
        TileKind::WallCornerSW => vec![down, west],
        TileKind::WallCornerSE => vec![down, east],
    };
    assert(r@ =~= wall_shape(kind, left as int, top as int, tile_width as int, tile_height as int));
    r
}

} // verus!
