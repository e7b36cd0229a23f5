//! Win and draw detection: the state of the game as a function of the grid.

use crate::grid::{Cells, Grid, SIZE};
use crate::token::Token;
use vstd::prelude::*;

verus! {

/// The state of the game. It is derived from the grid whenever it is asked
/// for, and stored nowhere.
#[derive(Clone, Copy, Debug, PartialEq, Eq, Structural)]
pub enum Status {
    /// No line is complete and at least one cell is empty.
    InProgress,
    /// A line of four cells holds this token.
    Won(Token),
    /// Every cell holds a token and no line is complete.
    Draw,
}

/// Four cells hold one and the same token.
pub open spec fn same_token(a: Token, b: Token, c: Token, d: Token) -> bool {
    a != Token::Empty && a == b && b == c && c == d
}

/// The diagonal from the top left to the bottom right is a complete line.
pub open spec fn main_diagonal_won(g: Cells) -> bool {
    same_token(g[0][0], g[1][1], g[2][2], g[3][3])
}

/// The diagonal from the bottom left to the top right is a complete line.
pub open spec fn anti_diagonal_won(g: Cells) -> bool {
    same_token(g[3][0], g[2][1], g[1][2], g[0][3])
}

/// Row `row` is a complete line.
pub open spec fn row_won(g: Cells, row: int) -> bool {
    same_token(g[row][0], g[row][1], g[row][2], g[row][3])
}

/// Column `col` is a complete line.
pub open spec fn column_won(g: Cells, col: int) -> bool {
    same_token(g[0][col], g[1][col], g[2][col], g[3][col])
}

/// The first complete row at or below row `from`, or `SIZE` if there is none.
pub open spec fn first_row_won(g: Cells, from: int) -> int
    decreases SIZE - from,
{
    if from >= SIZE {
        SIZE as int
    } else if row_won(g, from) {
        from
    } else {
        first_row_won(g, from + 1)
    }
}

/// The first complete column at or to the right of column `from`, or `SIZE`
/// if there is none.
pub open spec fn first_column_won(g: Cells, from: int) -> int
    decreases SIZE - from,
{
    if from >= SIZE {
        SIZE as int
    } else if column_won(g, from) {
        from
    } else {
        first_column_won(g, from + 1)
    }
}

/// No cell of the grid is empty.
pub open spec fn full(g: Cells) -> bool {
    forall|r: int, c: int| 0 <= r < SIZE && 0 <= c < SIZE ==> #[trigger] g[r][c] != Token::Empty
}

/// Some row, column or diagonal is a complete line.
pub open spec fn any_line_won(g: Cells) -> bool {
    ||| main_diagonal_won(g)
    ||| anti_diagonal_won(g)
    ||| exists|r: int| 0 <= r < SIZE && row_won(g, r)
    ||| exists|c: int| 0 <= c < SIZE && column_won(g, c)
}

/// The state of the game on grid `g`. The lines are looked at in a fixed
/// order and the first complete one decides: the main diagonal, the
/// anti-diagonal, the rows from the top, the columns from the left. A grid
/// without a complete line is a draw when it is full and in progress otherwise.
pub open spec fn status_of(g: Cells) -> Status {
    if main_diagonal_won(g) {
        Status::Won(g[0][0])
    } else if anti_diagonal_won(g) {
        Status::Won(g[3][0])
    } else if first_row_won(g, 0) < SIZE {
        Status::Won(g[first_row_won(g, 0)][0])
    } else if first_column_won(g, 0) < SIZE {
        Status::Won(g[0][first_column_won(g, 0)])
    } else if full(g) {
        Status::Draw
    } else {
        Status::InProgress
    }
}

/// What `first_row_won` finds: the topmost complete row at or below `from`.
pub proof fn lemma_first_row_won(g: Cells, from: int)
    requires
        0 <= from <= SIZE,
    ensures
        from <= first_row_won(g, from) <= SIZE,
        first_row_won(g, from) < SIZE ==> row_won(g, first_row_won(g, from)),
        forall|r: int| from <= r < first_row_won(g, from) ==> !row_won(g, r),
    decreases SIZE - from,
{
    if from < SIZE && !row_won(g, from) {
        lemma_first_row_won(g, from + 1);
    }
}

/// What `first_column_won` finds: the leftmost complete column at or to the
/// right of `from`.
pub proof fn lemma_first_column_won(g: Cells, from: int)
    requires
        0 <= from <= SIZE,
    ensures
        from <= first_column_won(g, from) <= SIZE,
        first_column_won(g, from) < SIZE ==> column_won(g, first_column_won(g, from)),
        forall|c: int| from <= c < first_column_won(g, from) ==> !column_won(g, c),
    decreases SIZE - from,
{
    if from < SIZE && !column_won(g, from) {
        lemma_first_column_won(g, from + 1);
    }
}

/// Whether four cells hold one and the same token.
fn is_line(a: Token, b: Token, c: Token, d: Token) -> (won: bool)
    ensures
        won == same_token(a, b, c, d),
{
    a != Token::Empty && a == b && b == c && c == d
}

impl Grid {
    /// The topmost complete row, or `SIZE` if no row is complete.
    fn find_row_won(&self) -> (row: usize)
        ensures
            row == first_row_won(self@, 0),
    {
        let mut r: usize = 0;
        while r < SIZE
            invariant
                r <= SIZE,
                first_row_won(self@, 0) == first_row_won(self@, r as int),
            decreases SIZE - r,
        {
            if is_line(self.get(r, 0), self.get(r, 1), self.get(r, 2), self.get(r, 3)) {
                return r;
            }
            r += 1;
        }
        r
    }

    /// The leftmost complete column, or `SIZE` if no column is complete.
    fn find_column_won(&self) -> (col: usize)
        ensures
            col == first_column_won(self@, 0),
    {
        let mut c: usize = 0;
        while c < SIZE
            invariant
                c <= SIZE,
                first_column_won(self@, 0) == first_column_won(self@, c as int),
            decreases SIZE - c,
        {
            if is_line(self.get(0, c), self.get(1, c), self.get(2, c), self.get(3, c)) {
                return c;
            }
            c += 1;
        }
        c
    }

    /// Whether no cell of the grid is empty.
    pub fn is_full(&self) -> (all: bool)
        ensures
            all == full(self@),
    {
        let mut r: usize = 0;
        while r < SIZE
            invariant
                r <= SIZE,
                forall|i: int, c: int|
                    0 <= i < r && 0 <= c < SIZE ==> #[trigger] self@[i][c] != Token::Empty,
            decreases SIZE - r,
        {
            let mut c: usize = 0;
            while c < SIZE
                invariant
                    r < SIZE,
                    c <= SIZE,
                    forall|i: int, c: int|
                        0 <= i < r && 0 <= c < SIZE ==> #[trigger] self@[i][c] != Token::Empty,
                    forall|j: int| 0 <= j < c ==> #[trigger] self@[r as int][j] != Token::Empty,
                decreases SIZE - c,
            {
                if self.get(r, c) == Token::Empty {
                    return false;
                }
                c += 1;
            }
            r += 1;
        }
        true
    }

    /// The state of the game on this grid.
    pub fn status(&self) -> (status: Status)
        ensures
            status == status_of(self@),
    {
        if is_line(self.get(0, 0), self.get(1, 1), self.get(2, 2), self.get(3, 3)) {
            return Status::Won(self.get(0, 0));
        }
        if is_line(self.get(3, 0), self.get(2, 1), self.get(1, 2), self.get(0, 3)) {
            return Status::Won(self.get(3, 0));
        }
        let row = self.find_row_won();
        proof {
            lemma_first_row_won(self@, 0);
        }
        if row < SIZE {
            return Status::Won(self.get(row, 0));
        }
        let col = self.find_column_won();
        proof {
            lemma_first_column_won(self@, 0);
        }
        if col < SIZE {
            return Status::Won(self.get(0, col));
        }
        if self.is_full() {
            Status::Draw
        } else {
            Status::InProgress
        }
    }
}

} // verus!
