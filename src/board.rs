use crate::grid::{
    compute_winner, grid_view, winner_of, Cell, Grid, Player,
};
use vstd::prelude::*;

verus! {

/// Why a move was refused. A refused move leaves the board unchanged.
#[derive(Clone, Copy, Debug, PartialEq, Eq, Structural)]
pub enum MoveError {
    /// The target cell already holds a piece.
    CellOccupied,
    /// The row or column is outside `0..3`.
    OutOfBounds,
    /// A winner has already been decided.
    GameAlreadyOver,
}

/// What an accepted move led to.
#[derive(Clone, Copy, Debug, PartialEq, Eq, Structural)]
pub enum MoveOutcome {
    /// No line is complete yet.
    InProgress,
    /// The move completed a line for this player.
    Won(Player),
}

/// The abstract state of a board.
pub struct BoardModel {
    /// `cells[row][col]`.
    pub cells: Seq<Seq<Cell>>,
    pub turn: Player,
    pub winner: Option<Player>,
}

impl BoardModel {
    /// A 3x3 grid whose cached winner is the grid's winner.
    pub open spec fn wf(self) -> bool {
        &&& self.cells.len() == 3
        &&& forall|r: int| 0 <= r < 3 ==> #[trigger] self.cells[r].len() == 3
        &&& self.winner == winner_of(self.cells)
    }

    /// The state in which every game starts: all cells empty, `A` to move.
    pub open spec fn initial() -> BoardModel {
        BoardModel {
            cells: Seq::new(3, |r: int| Seq::new(3, |c: int| Cell::Empty)),
            turn: Player::A,
            winner: None,
        }
    }

    /// The state after the player to move takes `(row, col)`: the cell is
    /// occupied, the turn passes, and the winner is recomputed.
    pub open spec fn placed(self, row: int, col: int) -> BoardModel {
        let cells = self.cells.update(row, self.cells[row].update(col, Cell::Occupied(self.turn)));
        BoardModel { cells, turn: self.turn.spec_other(), winner: winner_of(cells) }
    }

    /// The result of a move at `(row, col)`, and the state after it.
    pub open spec fn apply(self, row: int, col: int) -> (Result<MoveOutcome, MoveError>, BoardModel) {
        if self.winner is Some {
            (Err(MoveError::GameAlreadyOver), self)
        } else if !(0 <= row < 3 && 0 <= col < 3) {
            (Err(MoveError::OutOfBounds), self)
        } else if self.cells[row][col] is Occupied {
            (Err(MoveError::CellOccupied), self)
        } else {
            let next = self.placed(row, col);
            let outcome = match next.winner {
                Some(p) => MoveOutcome::Won(p),
                None => MoveOutcome::InProgress,
            };
            (Ok(outcome), next)
        }
    }
}

/// The state reached by playing `moves` in order from the initial state;
/// refused moves leave the state as it was.
pub open spec fn replay(moves: Seq<(int, int)>) -> BoardModel
    decreases moves.len(),
{
    if moves.len() == 0 {
        BoardModel::initial()
    } else {
        replay(moves.drop_last()).apply(moves.last().0, moves.last().1).1
    }
}

/// Every move of `moves`, played in order from the initial state, is accepted.
pub open spec fn all_accepted(moves: Seq<(int, int)>) -> bool {
    forall|i: int|
        0 <= i < moves.len() ==> (#[trigger] replay(moves.take(i))).apply(
            moves[i].0,
            moves[i].1,
        ).0 is Ok
}

/// A tic-tac-toe board: the 3x3 grid, the player to move, and the winner
/// once one is decided.
pub struct Board {
    cells: Grid,
    turn: Player,
    winner: Option<Player>,
}

impl View for Board {
    type V = BoardModel;

    closed spec fn view(&self) -> BoardModel {
        BoardModel { cells: grid_view(self.cells), turn: self.turn, winner: self.winner }
    }
}

impl Board {
    pub open spec fn wf(&self) -> bool {
        self@.wf()
    }

    /// A fresh board: every cell empty, `A` to move, no winner.
    pub fn new() -> (b: Board)
        ensures
            b.wf(),
            b@ == BoardModel::initial(),
    {
        let row = [Cell::Empty, Cell::Empty, Cell::Empty];
        let b = Board { cells: [row, row, row], turn: Player::A, winner: None };
        proof {
            assert(row@ =~= BoardModel::initial().cells[0]);
            assert(grid_view(b.cells) =~= BoardModel::initial().cells);
            lemma_empty_grid_has_no_winner(grid_view(b.cells));
        }
        b
    }

    /// Places the current player's piece at `(row, col)`, passes the turn and
    /// recomputes the winner. Refused, with the board unchanged, once a winner
    /// is decided, for a position off the board, and for an occupied cell.
    pub fn apply_move(&mut self, row: usize, col: usize) -> (r: Result<MoveOutcome, MoveError>)
        requires
            old(self).wf(),
        ensures
            final(self).wf(),
            (r, final(self)@) == old(self)@.apply(row as int, col as int),
            // a decided game accepts nothing more
            old(self)@.winner is Some ==> r == Err::<MoveOutcome, MoveError>(
                MoveError::GameAlreadyOver,
            ) && final(self)@ == old(self)@,
            // a move onto an occupied cell changes no cell
            row < 3 && col < 3 && old(self)@.cells[row as int][col as int] is Occupied
                ==> r is Err && final(self)@.cells == old(self)@.cells,
            // an occupied cell stays as it is
            forall|i: int, j: int|
                0 <= i < 3 && 0 <= j < 3 && (#[trigger] old(self)@.cells[i][j]) is Occupied
                    ==> final(self)@.cells[i][j] == old(self)@.cells[i][j],
    {
        if self.winner.is_some() {
            return Err(MoveError::GameAlreadyOver);
        }
        if row >= 3 || col >= 3 {
            return Err(MoveError::OutOfBounds);
        }
        if let Cell::Occupied(_) = self.cells[row][col] {
            return Err(MoveError::CellOccupied);
        }
        let ghost before = self@;
        let mut line = self.cells[row];
        line[col] = Cell::Occupied(self.turn);
        self.cells[row] = line;
        self.turn = self.turn.other();
        assert(grid_view(self.cells) =~= before.placed(row as int, col as int).cells);
        self.winner = compute_winner(&self.cells);
        match self.winner {
            Some(p) => Ok(MoveOutcome::Won(p)),
            None => Ok(MoveOutcome::InProgress),
        }
    }

    /// The state of the cell at `(row, col)`.
    pub fn cell(&self, row: usize, col: usize) -> (c: Cell)
        requires
            self.wf(),
            row < 3,
            col < 3,
        ensures
            c == self@.cells[row as int][col as int],
    {
        self.cells[row][col]
    }

    /// The player to move next.
    pub fn turn(&self) -> (p: Player)
        ensures
            p == self@.turn,
    {
        self.turn
    }

    /// The winner, once a line is complete.
    pub fn winner(&self) -> (w: Option<Player>)
        ensures
            w == self@.winner,
    {
        self.winner
    }
}

/// Turns alternate strictly: after `n` accepted moves from the initial state
/// it is `A`'s turn when `n` is even and `B`'s when `n` is odd (whether or not
/// the last move decided a winner).
pub proof fn lemma_turn_alternates(moves: Seq<(int, int)>)
    requires
        all_accepted(moves),
    ensures
        replay(moves).turn == if moves.len() % 2 == 0 {
            Player::A
        } else {
            Player::B
        },
    decreases moves.len(),
{
    if moves.len() > 0 {
        let prefix = moves.drop_last();
        assert forall|i: int| 0 <= i < prefix.len() implies (#[trigger] replay(
            prefix.take(i),
        )).apply(prefix[i].0, prefix[i].1).0 is Ok by {
            assert(prefix.take(i) =~= moves.take(i));
            assert(replay(moves.take(i)).apply(moves[i].0, moves[i].1).0 is Ok);
        }
        lemma_turn_alternates(prefix);
        let last = moves.len() - 1;
        assert(moves.take(last) =~= prefix);
        assert(replay(moves.take(last)).apply(moves[last].0, moves[last].1).0 is Ok);
    }
}

proof fn lemma_empty_grid_has_no_winner(cells: Seq<Seq<Cell>>)
    requires
        cells == BoardModel::initial().cells,
    ensures
        winner_of(cells) is None,
{
    reveal_with_fuel(crate::grid::first_owner_from, 9);
}

} // verus!
