use pacman_core::geometry::TileIndex;
use pacman_core::maze::{initialize_maze, TileKind, MAZE_SIZE};
use pacman_core::walls::{wall_rects, WallRect};

fn t(col: usize, row: usize) -> TileIndex {
    TileIndex { col, row }
}

#[test]
fn reference_maze_dimensions() {
    let maze = initialize_maze();
    assert_eq!(maze.width(), 34);
    assert_eq!(maze.height(), 34);
    assert_eq!(MAZE_SIZE, 34);
}

#[test]
fn reference_maze_border_and_corners() {
    let maze = initialize_maze();
    assert_eq!(maze.kind(t(0, 0)), TileKind::WallCornerNW);
    assert_eq!(maze.kind(t(33, 0)), TileKind::WallCornerNE);
    assert_eq!(maze.kind(t(0, 33)), TileKind::WallCornerSW);
    assert_eq!(maze.kind(t(33, 33)), TileKind::WallCornerSE);
    for i in 1..33 {
        assert_eq!(maze.kind(t(i, 0)), TileKind::WallHorizontal);
        assert_eq!(maze.kind(t(i, 33)), TileKind::WallHorizontal);
        assert_eq!(maze.kind(t(0, i)), TileKind::WallVertical);
        assert_eq!(maze.kind(t(33, i)), TileKind::WallVertical);
    }
}

#[test]
fn reference_maze_interior() {
    let maze = initialize_maze();
    assert_eq!(maze.kind(t(5, 5)), TileKind::WallVertical);
    assert_eq!(maze.kind(t(6, 5)), TileKind::WallVertical);
    assert_eq!(maze.kind(t(5, 6)), TileKind::WallHorizontal);
    assert_eq!(maze.kind(t(6, 6)), TileKind::WallCornerSE);
    assert_eq!(maze.kind(t(17, 17)), TileKind::Empty);
    let mut walls = 0;
    for row in 1..33 {
        for col in 1..33 {
            if maze.is_wall_at(t(col, row)) {
                walls += 1;
            }
        }
    }
    assert_eq!(walls, 4);
}

#[test]
fn wall_lookup_outside_grid() {
    let maze = initialize_maze();
    assert!(!maze.is_wall_at(t(34, 5)));
    assert!(!maze.is_wall_at(t(5, 40)));
    assert!(maze.is_wall_at(t(33, 5)));
}

fn r(x: i64, y: i64, w: i64, h: i64) -> WallRect {
    WallRect { x, y, w, h }
}

#[test]
fn wall_rectangles_straight() {
    assert!(wall_rects(TileKind::Empty, 3, 4, 24, 24).is_empty());
    assert_eq!(wall_rects(TileKind::WallVertical, 1, 2, 24, 24), vec![r(33, 48, 6, 24)]);
    assert_eq!(wall_rects(TileKind::WallHorizontal, 1, 2, 24, 24), vec![r(24, 57, 24, 6)]);
}

#[test]
fn wall_rectangles_corners() {
    assert_eq!(
        wall_rects(TileKind::WallCornerNW, 0, 0, 24, 24),
        vec![r(9, 0, 6, 15), r(0, 9, 15, 6)]
    );
    assert_eq!(
        wall_rects(TileKind::WallCornerNE, 0, 0, 24, 24),
        vec![r(9, 0, 6, 15), r(9, 9, 15, 6)]
    );
    assert_eq!(
        wall_rects(TileKind::WallCornerSW, 0, 0, 24, 24),
        vec![r(9, 9, 6, 15), r(0, 9, 15, 6)]
    );
    assert_eq!(
        wall_rects(TileKind::WallCornerSE, 0, 0, 24, 24),
        vec![r(9, 9, 6, 15), r(9, 9, 15, 6)]
    );
}
