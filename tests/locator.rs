use pacman_core::geometry::{Position, TileIndex};
use pacman_core::locator::get_tile;

fn at(x: i64, y: i64) -> Position {
    Position { x, y }
}

#[test]
fn tile_centre_resolves() {
    assert_eq!(get_tile(&at(12, 12), 24, 24, 12), Some(TileIndex { col: 0, row: 0 }));
}

#[test]
fn tolerance_boundary_resolves() {
    assert_eq!(get_tile(&at(12, 0), 24, 24, 12), Some(TileIndex { col: 0, row: 0 }));
}

#[test]
fn negative_coordinate_claims_no_tile() {
    assert_eq!(get_tile(&at(12, -1), 24, 24, 12), None);
    assert_eq!(get_tile(&at(-30, 12), 24, 24, 12), None);
}

#[test]
fn between_tiles_claims_no_tile() {
    // Radius 5 around the centre (12, 12): x = 18 is 6 pixels off.
    assert_eq!(get_tile(&at(18, 12), 24, 24, 5), None);
    assert_eq!(get_tile(&at(17, 12), 24, 24, 5), Some(TileIndex { col: 0, row: 0 }));
}

#[test]
fn locates_column_and_row() {
    assert_eq!(get_tile(&at(420, 100), 24, 24, 12), Some(TileIndex { col: 17, row: 4 }));
    assert_eq!(get_tile(&at(50, 130), 20, 30, 10), Some(TileIndex { col: 2, row: 4 }));
}

#[test]
fn odd_tile_size_uses_exact_centre() {
    // Tile width 5: column 0 has its centre at 2.5.
    assert_eq!(get_tile(&at(0, 2), 5, 5, 2), None);
    assert_eq!(get_tile(&at(1, 2), 5, 5, 2), Some(TileIndex { col: 0, row: 0 }));
}
