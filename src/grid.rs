use vstd::prelude::*;

verus! {

/// One of the two players.
#[derive(Clone, Copy, Debug, PartialEq, Eq, Structural)]
pub enum Player {
    A,
    B,
}

impl Player {
    /// The player who moves after `self`.
    pub open spec fn spec_other(self) -> Player {
        match self {
            Player::A => Player::B,
            Player::B => Player::A,
        }
    }

    /// The player who moves after `self`.
    pub fn other(self) -> (r: Player)
        ensures
            r == self.spec_other(),
    {
        match self {
            Player::A => Player::B,
            Player::B => Player::A,
        }
    }
}

/// The state of one board position.
#[derive(Clone, Copy, Debug, PartialEq, Eq, Structural)]
pub enum Cell {
    Empty,
    Occupied(Player),
}

/// A 3x3 grid of cells, indexed `[row][col]`.
pub type Grid = [[Cell; 3]; 3];

/// The grid as a sequence of rows.
pub open spec fn grid_view(g: Grid) -> Seq<Seq<Cell>> {
    Seq::new(3, |r: int| g@[r]@)
}

/// The number of lines on the board: three rows, three columns, two diagonals.
pub const NUM_LINES: usize = 8;

/// Position `(row, col)` of the `i`-th cell (`i` in `0..3`) of line `k`.
/// Lines `0..3` are the rows, `3..6` the columns, `6` the main diagonal
/// `(0,0)-(1,1)-(2,2)` and `7` the anti-diagonal `(2,0)-(1,1)-(0,2)`.
pub open spec fn line_point(k: int, i: int) -> (int, int) {
    if k < 3 {
        (k, i)
    } else if k < 6 {
        (i, k - 3)
    } else if k == 6 {
        (i, i)
    } else {
        (2 - i, i)
    }
}

/// The `i`-th cell of line `k`.
pub open spec fn cell_on_line(cells: Seq<Seq<Cell>>, k: int, i: int) -> Cell {
    cells[line_point(k, i).0][line_point(k, i).1]
}

/// The player holding all three cells of line `k`, if any.
pub open spec fn line_owner(cells: Seq<Seq<Cell>>, k: int) -> Option<Player> {
    let a = cell_on_line(cells, k, 0);
    let b = cell_on_line(cells, k, 1);
    let c = cell_on_line(cells, k, 2);
    match a {
        Cell::Occupied(p) => if a == b && b == c {
            Some(p)
        } else {
            None
        },
        Cell::Empty => None,
    }
}

/// The owner of the first complete line among lines `k..8`, in line order.
pub open spec fn first_owner_from(cells: Seq<Seq<Cell>>, k: int) -> Option<Player>
    decreases 8 - k,
{
    if k >= 8 {
        None
    } else if line_owner(cells, k) is Some {
        line_owner(cells, k)
    } else {
        first_owner_from(cells, k + 1)
    }
}

/// The winner of a grid: the owner of the first complete line, checking rows,
/// then columns, then the main diagonal, then the anti-diagonal.
pub open spec fn winner_of(cells: Seq<Seq<Cell>>) -> Option<Player> {
    first_owner_from(cells, 0)
}

fn line_point_at(k: usize, i: usize) -> (r: (usize, usize))
    requires
        k < NUM_LINES,
        i < 3,
    ensures
        r.0 < 3 && r.1 < 3,
        (r.0 as int, r.1 as int) == line_point(k as int, i as int),
{
    if k < 3 {
        (k, i)
    } else if k < 6 {
        (i, k - 3)
    } else if k == 6 {
        (i, i)
    } else {
        (2 - i, i)
    }
}

fn line_owner_at(grid: &Grid, k: usize) -> (r: Option<Player>)
    requires
        k < NUM_LINES,
    ensures
        r == line_owner(grid_view(*grid), k as int),
{
    let (r0, c0) = line_point_at(k, 0);
    let (r1, c1) = line_point_at(k, 1);
    let (r2, c2) = line_point_at(k, 2);
    let a = grid[r0][c0];
    let b = grid[r1][c1];
    let c = grid[r2][c2];
    match a {
        Cell::Occupied(p) => if a == b && b == c {
            Some(p)
        } else {
            None
        },
        Cell::Empty => None,
    }
}

/// The winner of `grid`: the player who fills a complete row, column or
/// diagonal, the first such line counting in that order; `None` when no line
/// is complete (an empty, unfinished or drawn grid).
pub fn compute_winner(grid: &Grid) -> (r: Option<Player>)
    ensures
        r == winner_of(grid_view(*grid)),
{
    let mut k: usize = 0;
    while k < NUM_LINES
        invariant
            k <= NUM_LINES,
            winner_of(grid_view(*grid)) == first_owner_from(grid_view(*grid), k as int),
        decreases NUM_LINES - k,
    {
        let owner = line_owner_at(grid, k);
        if owner.is_some() {
            return owner;
        }
        k = k + 1;
    }
    None
}

} // verus!
