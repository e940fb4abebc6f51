use vstd::prelude::*;

verus! {

/// Number of columns of the playing board.
pub const BOARD_COLS: u32 = 9;

/// Number of rows of the playing board.
pub const BOARD_ROWS: u32 = 15;

/// A grid cell, compared by value.
#[derive(Clone, Copy, PartialEq, Eq, Structural, Debug, Hash)]
pub struct Cell {
    pub x: i32,
    pub y: i32,
}

impl Cell {
    pub fn new(x: i32, y: i32) -> (r: Cell)
        ensures
            r.x == x,
            r.y == y,
    {
        Cell { x, y }
    }
}

/// Manhattan distance between two cells.
pub open spec fn manhattan(a: Cell, b: Cell) -> int {
    let dx: int = a.x - b.x;
    let dy: int = a.y - b.y;
    (if dx < 0 { -dx } else { dx }) + (if dy < 0 { -dy } else { dy })
}

/// Every two neighbouring cells of `s` are one step apart.
pub open spec fn adjacent_chain(s: Seq<Cell>) -> bool {
    forall|i: int| 0 <= i < s.len() - 1 ==> #[trigger] manhattan(s[i], s[i + 1]) == 1
}

/// A fixed, origin-centred board of `cols` by `rows` cells.
#[derive(Clone, Copy, PartialEq, Eq, Structural, Debug)]
pub struct Board {
    pub cols: u32,
    pub rows: u32,
}

impl Board {
    /// Largest absolute column index on the board.
    pub open spec fn half_cols(self) -> int {
        self.cols as int / 2
    }

    /// Largest absolute row index on the board.
    pub open spec fn half_rows(self) -> int {
        self.rows as int / 2
    }

    /// Whether the point `(x, y)` lies on the board, bounds inclusive.
    pub open spec fn holds(self, x: int, y: int) -> bool {
        -self.half_cols() <= x <= self.half_cols() && -self.half_rows() <= y <= self.half_rows()
    }

    pub open spec fn in_bounds(self, c: Cell) -> bool {
        self.holds(c.x as int, c.y as int)
    }

    /// Number of cells inside the bounds.
    pub open spec fn cell_count(self) -> int {
        (2 * self.half_cols() + 1) * (2 * self.half_rows() + 1)
    }

    /// The board of the game.
    pub fn standard() -> (r: Board)
        ensures
            r.cols == BOARD_COLS,
            r.rows == BOARD_ROWS,
    {
        Board { cols: BOARD_COLS, rows: BOARD_ROWS }
    }

    pub fn half_cols_exec(&self) -> (r: i32)
        ensures
            r == self.half_cols(),
    {
        (self.cols / 2) as i32
    }

    pub fn half_rows_exec(&self) -> (r: i32)
        ensures
            r == self.half_rows(),
    {
        (self.rows / 2) as i32
    }

    /// Whether `c` lies on the board (bounds inclusive).
    pub fn contains(&self, c: Cell) -> (r: bool)
        ensures
            r == self.in_bounds(c),
    {
        self.contains_point(c.x as i64, c.y as i64)
    }

    /// Whether the point `(x, y)` lies on the board.
    pub fn contains_point(&self, x: i64, y: i64) -> (r: bool)
        ensures
            r == self.holds(x as int, y as int),
    {
        let hc: i64 = self.half_cols_exec() as i64;
        let hr: i64 = self.half_rows_exec() as i64;
        -hc <= x && x <= hc && -hr <= y && y <= hr
    }
}

} // verus!
