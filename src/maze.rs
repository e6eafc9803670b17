//! The static maze: a fixed-size rectangular grid of tile kinds.
use vstd::prelude::*;
use crate::geometry::TileIndex;

verus! {

/// Columns and rows of the reference maze.
pub const MAZE_SIZE: usize = 34;

/// What occupies one cell of the maze.
#[derive(Clone, Copy, Debug, PartialEq, Eq, Structural)]
pub enum TileKind {
    Empty,
    WallVertical,
    WallHorizontal,
    WallCornerNE,
    WallCornerNW,
    WallCornerSE,
    WallCornerSW,
}

impl TileKind {
    /// Every kind but `Empty` is a wall.
    pub open spec fn is_wall(self) -> bool {
        self != TileKind::Empty
    }
}

/// A rectangular grid of tile kinds, stored row by row. Its dimensions and
/// contents never change after construction.
pub struct Maze {
    width: usize,
    height: usize,
    cells: Vec<TileKind>,
}

impl Maze {
    /// Number of columns.
    pub closed spec fn cols(&self) -> nat {
        self.width as nat
    }

    /// Number of rows.
    pub closed spec fn rows(&self) -> nat {
        self.height as nat
    }

    /// The kind of the cell at `(col, row)`; meaningful inside the grid only.
    pub closed spec fn kind_at(&self, col: int, row: int) -> TileKind {
        self.cells@[row * self.width + col]
    }

    /// Whether `(col, row)` names a cell of the grid.
    pub open spec fn contains(&self, col: int, row: int) -> bool {
        0 <= col < self.cols() && 0 <= row < self.rows()
    }

    #[verifier::type_invariant]
    closed spec fn inv(&self) -> bool {
        &&& self.cells@.len() == self.width * self.height
        &&& self.width * self.height <= usize::MAX
    }

    /// Number of columns.
    pub fn width(&self) -> (r: usize)
        ensures
            r == self.cols(),
    {
        self.width
    }

    /// Number of rows.
    pub fn height(&self) -> (r: usize)
        ensures
            r == self.rows(),
    {
        self.height
    }

    /// The kind of the cell at `tile`, which must lie inside the grid.
    pub fn kind(&self, tile: TileIndex) -> (r: TileKind)
        requires
            self.contains(tile.col as int, tile.row as int),
        ensures
            r == self.kind_at(tile.col as int, tile.row as int),
    {
        proof {
            use_type_invariant(self);
            assert(tile.row * self.width + tile.col < self.width * self.height) by (nonlinear_arith)
                requires
                    tile.row < self.height,
                    tile.col < self.width,
            ;
            assert(tile.row * self.width <= tile.row * self.width + tile.col);
        }
        let base = tile.row * self.width;
        proof {
            assert(tile.row * self.width + tile.col < usize::MAX);
        }
        self.cells[base + tile.col]
    }

    /// Whether `tile` lies inside the grid and holds a wall.
    pub fn is_wall_at(&self, tile: TileIndex) -> (r: bool)
        ensures
            r == (self.contains(tile.col as int, tile.row as int) && self.kind_at(
                tile.col as int,
                tile.row as int,
            ).is_wall()),
    {
        if tile.col < self.width && tile.row < self.height {
            self.kind(tile) != TileKind::Empty
        } else {
            false
        }
    }
}

/// The reference layout: a box of walls around the edge, with corner pieces,
/// and a small block of internal walls.
pub open spec fn reference_kind(col: int, row: int) -> TileKind {
    let last = MAZE_SIZE - 1;
    if row == 0 && col == 0 {
        TileKind::WallCornerNW
    } else if row == 0 && col == last {
        TileKind::WallCornerNE
    } else if row == last && col == 0 {
        TileKind::WallCornerSW
    } else if row == last && col == last {
        TileKind::WallCornerSE
    } else if col == 0 || col == last {
        TileKind::WallVertical
    } else if row == 0 || row == last {
        TileKind::WallHorizontal
    } else if row == 5 && (col == 5 || col == 6) {
        TileKind::WallVertical
    } else if row == 6 && col == 5 {
        TileKind::WallHorizontal
    } else if row == 6 && col == 6 {
        TileKind::WallCornerSE
    } else {
        TileKind::Empty
    }
}

fn reference_tile(col: usize, row: usize) -> (r: TileKind)
    ensures
        r == reference_kind(col as int, row as int),
{
    let last = MAZE_SIZE - 1;
    if row == 0 && col == 0 {
        TileKind::WallCornerNW
    } else if row == 0 && col == last {
        TileKind::WallCornerNE
    } else if row == last && col == 0 {
        TileKind::WallCornerSW
    } else if row == last && col == last {
        TileKind::WallCornerSE
    } else if col == 0 || col == last {
        TileKind::WallVertical
    } else if row == 0 || row == last {
        TileKind::WallHorizontal
    } else if row == 5 && (col == 5 || col == 6) {
        TileKind::WallVertical
    } else if row == 6 && col == 5 {
        TileKind::WallHorizontal
    } else if row == 6 && col == 6 {
        TileKind::WallCornerSE
    } else {
        TileKind::Empty
    }
}

/// Builds the reference maze of `MAZE_SIZE` by `MAZE_SIZE` cells.
pub fn initialize_maze() -> (maze: Maze)
    ensures
        maze.cols() == MAZE_SIZE,
        maze.rows() == MAZE_SIZE,
        forall|col: int, row: int|
            maze.contains(col, row) ==> #[trigger] maze.kind_at(col, row) == reference_kind(col, row),
{
    let width = MAZE_SIZE;
    let height = MAZE_SIZE;
    let mut cells: Vec<TileKind> = Vec::new();
    let mut row: usize = 0;
    while row < height
        invariant
            row <= height,
            cells@.len() == row * width,
            forall|i: int|
                0 <= i < cells@.len() ==> #[trigger] cells@[i] == reference_kind(i % width as int, i / width as int),
        decreases height - row,
    {
        let mut col: usize = 0;
        while col < width
            invariant
                row < height,
                col <= width,
                cells@.len() == row * width + col,
                forall|i: int|
                    0 <= i < cells@.len() ==> #[trigger] cells@[i] == reference_kind(i % width as int, i / width as int),
            decreases width - col,
        {
            let kind = reference_tile(col, row);
            proof {
                let i = row * width + col;
                assert(i % width as int == col as int && i / width as int == row as int) by (nonlinear_arith)
                    requires i == row * width + col, 0 <= col < width;
            }
            cells.push(kind);
            col += 1;
        }
        proof {
            assert((row + 1) * width == row * width + width) by (nonlinear_arith);
        }
        row += 1;
    }
    let maze = Maze { width, height, cells };
    assert forall|col: int, row: int| maze.contains(col, row) implies #[trigger] maze.kind_at(col, row) == reference_kind(col, row) by {
        let i = row * width + col;
        assert(i % width as int == col && i / width as int == row && 0 <= i < width * height) by (nonlinear_arith)
            requires i == row * width + col, 0 <= col < width, 0 <= row < height;
    }
    maze
}

} // verus!
