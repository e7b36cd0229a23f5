//! The four-by-four grid and the rule by which a token drops into a column.

use crate::token::Token;
use vstd::prelude::*;

verus! {

/// Number of rows, and of columns, of the grid.
pub const SIZE: usize = 4;

/// The mathematical grid: rows from top to bottom, each row from left to right.
pub type Cells = Seq<Seq<Token>>;

/// `g` has four rows of four cells.
pub open spec fn shaped(g: Cells) -> bool {
    &&& g.len() == SIZE
    &&& forall|r: int| 0 <= r < SIZE ==> (#[trigger] g[r]).len() == SIZE
}

/// The grid whose sixteen cells are all empty.
pub open spec fn empty_cells() -> Cells {
    Seq::new(SIZE as nat, |r: int| Seq::new(SIZE as nat, |c: int| Token::Empty))
}

/// Every cell of column `col` from row `from` down to the bottom row holds a token.
pub open spec fn filled_below(g: Cells, col: int, from: int) -> bool {
    forall|r: int| from <= r < SIZE ==> #[trigger] g[r][col] != Token::Empty
}

/// Column `col` has no empty cell left.
pub open spec fn column_full(g: Cells, col: int) -> bool {
    filled_below(g, col, 0)
}

/// Row `row` is where a token dropped into column `col` comes to rest: the
/// lowest empty cell of that column.
pub open spec fn lands_at(g: Cells, col: int, row: int) -> bool {
    &&& 0 <= row < SIZE
    &&& g[row][col] == Token::Empty
    &&& filled_below(g, col, row + 1)
}

/// `g` with the cell at (`row`, `col`) replaced by `token`.
pub open spec fn with_cell(g: Cells, row: int, col: int, token: Token) -> Cells {
    g.update(row, g[row].update(col, token))
}

/// The lowest empty row of column `col` among rows `0..=from`, or -1.
pub open spec fn landing_row_from(g: Cells, col: int, from: int) -> int
    decreases from + 1,
{
    if from < 0 {
        -1
    } else if g[from][col] == Token::Empty {
        from
    } else {
        landing_row_from(g, col, from - 1)
    }
}

/// The row in which a token dropped into column `col` comes to rest, or -1
/// where the column is full.
pub open spec fn landing_row(g: Cells, col: int) -> int {
    landing_row_from(g, col, SIZE - 1)
}

/// The grid after `token` was dropped into column `col`: the token sits in
/// the lowest empty cell of the column; a full column leaves the grid as it was.
pub open spec fn placed(g: Cells, col: int, token: Token) -> Cells {
    let row = landing_row(g, col);
    if row < 0 {
        g
    } else {
        with_cell(g, row, col, token)
    }
}

/// No column holds an empty cell below a token.
pub open spec fn settled(g: Cells) -> bool {
    forall|above: int, below: int, c: int|
        0 <= above < below < SIZE && 0 <= c < SIZE && #[trigger] g[above][c] != Token::Empty
            ==> #[trigger] g[below][c] != Token::Empty
}

/// What `landing_row_from` finds: the lowest empty cell at or above `from`,
/// or -1 where there is none.
pub proof fn lemma_landing_row_from(g: Cells, col: int, from: int)
    requires
        -1 <= from < SIZE,
    ensures
        -1 <= landing_row_from(g, col, from) <= from,
        landing_row_from(g, col, from) >= 0 ==> g[landing_row_from(g, col, from)][col]
            == Token::Empty,
        forall|r: int|
            landing_row_from(g, col, from) < r <= from ==> #[trigger] g[r][col] != Token::Empty,
    decreases from + 1,
{
    if from >= 0 && g[from][col] != Token::Empty {
        lemma_landing_row_from(g, col, from - 1);
    }
}

/// The landing row of a column is where `lands_at` says a token comes to
/// rest, and it is -1 exactly where the column is full.
pub proof fn lemma_landing_row(g: Cells, col: int)
    ensures
        landing_row(g, col) == -1 <==> column_full(g, col),
        landing_row(g, col) != -1 ==> lands_at(g, col, landing_row(g, col)),
        forall|row: int| lands_at(g, col, row) ==> row == landing_row(g, col),
{
    lemma_landing_row_from(g, col, SIZE - 1);
    let found = landing_row(g, col);
    if found >= 0 {
        assert(g[found][col] == Token::Empty);
    }
    assert forall|row: int| lands_at(g, col, row) implies row == found by {
        if row < found {
            assert(g[found][col] != Token::Empty);
        }
    }
}

/// What `with_cell` does cell by cell: the one cell is replaced, the others stay.
pub proof fn lemma_with_cell(g: Cells, row: int, col: int, token: Token)
    requires
        shaped(g),
        0 <= row < SIZE,
        0 <= col < SIZE,
    ensures
        shaped(with_cell(g, row, col, token)),
        forall|r: int, c: int|
            0 <= r < SIZE && 0 <= c < SIZE ==> #[trigger] with_cell(g, row, col, token)[r][c] == (
            if r == row && c == col {
                token
            } else {
                g[r][c]
            }),
{
}

/// Dropping a token into a column of a settled grid leaves it settled.
pub proof fn lemma_placed_settled(g: Cells, col: int, token: Token)
    requires
        shaped(g),
        settled(g),
        0 <= col < SIZE,
    ensures
        shaped(placed(g, col, token)),
        settled(placed(g, col, token)),
{
    lemma_landing_row(g, col);
    let row = landing_row(g, col);
    let after = placed(g, col, token);
    if row >= 0 {
        lemma_with_cell(g, row, col, token);
        assert forall|above: int, below: int, c: int|
            0 <= above < below < SIZE && 0 <= c < SIZE && #[trigger] after[above][c]
                != Token::Empty implies #[trigger] after[below][c] != Token::Empty by {
            if c == col && below == row {
                assert(g[above][c] != Token::Empty);
                assert(g[below][c] != Token::Empty);
            } else if c == col && above == row {
                assert(g[below][col] != Token::Empty);
            } else {
                assert(g[above][c] != Token::Empty);
                assert(g[below][c] != Token::Empty);
            }
        }
    }
}

/// The grid of the board: four rows of four cells.
pub struct Grid {
    cells: [[Token; 4]; 4],
}

impl View for Grid {
    type V = Cells;

    closed spec fn view(&self) -> Cells {
        Seq::new(SIZE as nat, |r: int| self.cells[r]@)
    }
}

impl Grid {
    /// The view of every grid has four rows of four cells.
    pub proof fn lemma_shaped(&self)
        ensures
            shaped(self@),
    {
    }

    /// A grid with all sixteen cells empty.
    pub fn new() -> (grid: Grid)
        ensures
            grid@ == empty_cells(),
    {
        let grid = Grid { cells: [[Token::Empty; 4]; 4] };
        assert(grid@ =~~= empty_cells());
        grid
    }

    /// The grid whose rows, from top to bottom, are those of `rows`.
    pub fn from_rows(rows: [[Token; 4]; 4]) -> (grid: Grid)
        ensures
            grid@ == Seq::new(SIZE as nat, |r: int| rows[r]@),
    {
        Grid { cells: rows }
    }

    /// The cell in row `row` (0 is the top) and column `col` (0 is the left).
    pub fn get(&self, row: usize, col: usize) -> (token: Token)
        requires
            row < SIZE,
            col < SIZE,
        ensures
            token == self@[row as int][col as int],
    {
        self.cells[row][col]
    }

    /// Drops `token` into column `pos`: it comes to rest in the lowest empty
    /// cell of the column. A full column leaves the grid unchanged.
    pub fn place(&mut self, pos: usize, token: Token)
        requires
            pos < SIZE,
        ensures
            final(self)@ == placed(old(self)@, pos as int, token),
            settled(old(self)@) ==> settled(final(self)@),
        no_unwind
    {
        proof {
            self.lemma_shaped();
            if settled(self@) {
                lemma_placed_settled(self@, pos as int, token);
            }
        }
        let mut i: usize = SIZE;
        while i > 0
            invariant
                pos < SIZE,
                i <= SIZE,
                *self == *old(self),
                landing_row(self@, pos as int) == landing_row_from(self@, pos as int, i - 1),
                settled(self@) ==> settled(placed(self@, pos as int, token)),
            decreases i,
        {
            i -= 1;
            if self.cells[i][pos] == Token::Empty {
                self.cells[i][pos] = token;
                assert(self@ =~~= with_cell(old(self)@, i as int, pos as int, token));
                return ;
            }
        }
    }
}

} // verus!
