//! The 3x3 grid, its lines, and the rules that decide a game.

use vstd::prelude::*;

verus! {

/// The content of one square of the grid.
#[derive(Clone, Copy, Debug, PartialEq, Eq, Structural)]
pub enum Cell {
    Empty,
    Nought,
    Cross,
}

/// Whose mark the next move places.
#[derive(Clone, Copy, Debug, PartialEq, Eq, Structural)]
pub enum Turn {
    Noughts,
    Crosses,
}

/// What the board says about the game.
#[derive(Clone, Copy, Debug, PartialEq, Eq, Structural)]
pub enum Outcome {
    NoughtsWin,
    CrossesWin,
    Draw,
    Ongoing,
}

/// Why a move was refused.
#[derive(Clone, Copy, Debug, PartialEq, Eq, Structural)]
pub enum MoveError {
    CellOccupied,
}

/// A square of the grid, row and column each in `0..=2`.
#[derive(Clone, Copy, Debug, PartialEq, Eq, Structural)]
pub struct Cursor {
    pub row: usize,
    pub col: usize,
}

/// The grid, stored row by row: square `(r, c)` is `cells[3 * r + c]`.
#[derive(Clone, Copy, Debug)]
pub struct Board {
    pub cells: [Cell; 9],
}

pub open spec fn cell_symbol(c: Cell) -> char {
    match c {
        Cell::Empty => '*',
        Cell::Nought => 'o',
        Cell::Cross => 'x',
    }
}

pub open spec fn mark_of(t: Turn) -> Cell {
    match t {
        Turn::Noughts => Cell::Nought,
        Turn::Crosses => Cell::Cross,
    }
}

pub open spec fn other(t: Turn) -> Turn {
    match t {
        Turn::Noughts => Turn::Crosses,
        Turn::Crosses => Turn::Noughts,
    }
}

/// One step down from `x`, but not below 0.
pub open spec fn toward_zero(x: int) -> int {
    if x > 0 {
        x - 1
    } else {
        x
    }
}

/// One step up from `x`, but not above 2.
pub open spec fn toward_two(x: int) -> int {
    if x < 2 {
        x + 1
    } else {
        x
    }
}

/// Position of square `(r, c)` in the row-by-row layout.
pub open spec fn index_of(r: int, c: int) -> int {
    3 * r + c
}

/// The three squares of line `k`: rows for `k` in `0..3`, columns for `k` in
/// `3..6`, the main diagonal for `6`, the anti-diagonal from `(2, 0)` for `7`.
pub open spec fn line_squares(k: int) -> (int, int, int) {
    if k < 3 {
        (3 * k, 3 * k + 1, 3 * k + 2)
    } else if k < 6 {
        (k - 3, k, k + 3)
    } else if k == 6 {
        (0, 4, 8)
    } else {
        (6, 4, 2)
    }
}

/// Line `k` holds three equal marks.
pub open spec fn line_complete(b: Seq<Cell>, k: int) -> bool {
    let (x, y, z) = line_squares(k);
    b[x] != Cell::Empty && b[x] == b[y] && b[x] == b[z]
}

/// Some line holds three equal marks.
pub open spec fn has_complete_line(b: Seq<Cell>) -> bool {
    exists|k: int| 0 <= k < 8 && #[trigger] line_complete(b, k)
}

/// No square is empty.
pub open spec fn is_full(b: Seq<Cell>) -> bool {
    forall|i: int| 0 <= i < 9 ==> #[trigger] b[i] != Cell::Empty
}

/// The mark of the first complete line from line `k` on, in scan order.
pub open spec fn first_winner(b: Seq<Cell>, k: int) -> Option<Cell>
    decreases 8 - k,
{
    if k >= 8 || k < 0 {
        None
    } else if line_complete(b, k) {
        Some(b[line_squares(k).0])
    } else {
        first_winner(b, k + 1)
    }
}

/// The outcome of a board: the first complete line in scan order decides;
/// without one, a full board is a draw and any other is still in play.
pub open spec fn outcome_of(b: Seq<Cell>) -> Outcome {
    match first_winner(b, 0) {
        Some(Cell::Nought) => Outcome::NoughtsWin,
        Some(Cell::Cross) => Outcome::CrossesWin,
        _ => if is_full(b) {
            Outcome::Draw
        } else {
            Outcome::Ongoing
        },
    }
}

pub open spec fn win_for(c: Cell) -> Outcome {
    match c {
        Cell::Nought => Outcome::NoughtsWin,
        Cell::Cross => Outcome::CrossesWin,
        Cell::Empty => Outcome::Ongoing,
    }
}

impl Cell {
    /// The character that stands for this cell on screen.
    pub fn symbol(self) -> (r: char)
        ensures
            r == cell_symbol(self),
    {
        match self {
            Cell::Empty => '*',
            Cell::Nought => 'o',
            Cell::Cross => 'x',
        }
    }
}

impl Turn {
    /// The mark that this player places.
    pub fn mark(self) -> (r: Cell)
        ensures
            r == mark_of(self),
    {
        match self {
            Turn::Noughts => Cell::Nought,
            Turn::Crosses => Cell::Cross,
        }
    }

    /// The player who moves after this one.
    pub fn next(self) -> (r: Turn)
        ensures
            r == other(self),
    {
        match self {
            Turn::Noughts => Turn::Crosses,
            Turn::Crosses => Turn::Noughts,
        }
    }
}

impl Cursor {
    pub open spec fn wf(self) -> bool {
        self.row <= 2 && self.col <= 2
    }

    pub open spec fn index(self) -> int {
        index_of(self.row as int, self.col as int)
    }

    /// The top-left square, where a game starts.
    pub fn new() -> (r: Cursor)
        ensures
            r.row == 0 && r.col == 0,
    {
        Cursor { row: 0, col: 0 }
    }

    /// One row up, staying on row 0 at the top edge.
    pub fn move_up(&mut self)
        ensures
            final(self).row as int == toward_zero(old(self).row as int),
            final(self).col == old(self).col,
    {
        if self.row > 0 {
            self.row = self.row - 1;
        }
    }

    /// One row down, staying on row 2 at the bottom edge.
    pub fn move_down(&mut self)
        ensures
            final(self).row as int == toward_two(old(self).row as int),
            final(self).col == old(self).col,
    {
        if self.row < 2 {
            self.row = self.row + 1;
        }
    }

    /// One column left, staying on column 0 at the left edge.
    pub fn move_left(&mut self)
        ensures
            final(self).col as int == toward_zero(old(self).col as int),
            final(self).row == old(self).row,
    {
        if self.col > 0 {
            self.col = self.col - 1;
        }
    }

    /// One column right, staying on column 2 at the right edge.
    pub fn move_right(&mut self)
        ensures
            final(self).col as int == toward_two(old(self).col as int),
            final(self).row == old(self).row,
    {
        if self.col < 2 {
            self.col = self.col + 1;
        }
    }
}

/// The squares of line `k`, as [`line_squares`] gives them.
fn line_at(k: usize) -> (r: (usize, usize, usize))
    requires
        k < 8,
    ensures
        r.0 as int == line_squares(k as int).0,
        r.1 as int == line_squares(k as int).1,
        r.2 as int == line_squares(k as int).2,
{
    if k < 3 {
        (3 * k, 3 * k + 1, 3 * k + 2)
    } else if k < 6 {
        (k - 3, k, k + 3)
    } else if k == 6 {
        (0, 4, 8)
    } else {
        (6, 4, 2)
    }
}

impl View for Board {
    type V = Seq<Cell>;

    open spec fn view(&self) -> Seq<Cell> {
        self.cells@
    }
}

impl Board {
    /// A board with every square empty.
    pub fn new() -> (r: Board)
        ensures
            r@.len() == 9,
            forall|i: int| 0 <= i < 9 ==> #[trigger] r@[i] == Cell::Empty,
    {
        Board { cells: [Cell::Empty; 9] }
    }

    /// The content of square `(row, col)`.
    pub fn get(&self, row: usize, col: usize) -> (r: Cell)
        requires
            row <= 2 && col <= 2,
        ensures
            r == self@[index_of(row as int, col as int)],
    {
        self.cells[3 * row + col]
    }

    /// Places the mark of `turn` on the square under `cursor`, which must be
    /// empty; an occupied square leaves the board as it was.
    pub fn apply_move(&mut self, cursor: Cursor, turn: Turn) -> (r: Result<(), MoveError>)
        requires
            cursor.wf(),
        ensures
            r is Ok <==> old(self)@[cursor.index()] == Cell::Empty,
            r is Ok ==> final(self)@ == old(self)@.update(cursor.index(), mark_of(turn)),
            r is Err ==> r == Err::<(), MoveError>(MoveError::CellOccupied) && *final(self)
                == *old(self),
    {
        let i = 3 * cursor.row + cursor.col;
        if self.cells[i] == Cell::Empty {
            self.cells[i] = turn.mark();
            Ok(())
        } else {
            Err(MoveError::CellOccupied)
        }
    }

    /// Every square is taken.
    pub fn is_full(&self) -> (r: bool)
        ensures
            r == is_full(self@),
    {
        let mut i: usize = 0;
        while i < 9
            invariant
                i <= 9,
                forall|j: int| 0 <= j < i ==> #[trigger] self@[j] != Cell::Empty,
            decreases 9 - i,
        {
            if self.cells[i] == Cell::Empty {
                return false;
            }
            i = i + 1;
        }
        true
    }

    /// The mark of the first complete line in scan order: rows, then
    /// columns, then the main diagonal, then the anti-diagonal.
    pub fn winner(&self) -> (r: Option<Cell>)
        ensures
            r == first_winner(self@, 0),
    {
        let mut k: usize = 0;
        while k < 8
            invariant
                k <= 8,
                first_winner(self@, 0) == first_winner(self@, k as int),
            decreases 8 - k,
        {
            let (x, y, z) = line_at(k);
            let first = self.cells[x];
            if first != Cell::Empty && first == self.cells[y] && first == self.cells[z] {
                return Some(first);
            }
            k = k + 1;
        }
        None
    }

    /// Decides the game: a win for the owner of the first complete line in
    /// scan order, else a draw on a full board, else still in play.
    pub fn evaluate(&self) -> (r: Outcome)
        ensures
            r == outcome_of(self@),
    {
        match self.winner() {
            Some(Cell::Nought) => Outcome::NoughtsWin,
            Some(Cell::Cross) => Outcome::CrossesWin,
            _ => if self.is_full() {
                Outcome::Draw
            } else {
                Outcome::Ongoing
            },
        }
    }
}

} // verus!
