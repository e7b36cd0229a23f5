//! What holds of the board whatever is played on it, stated over the
//! mathematical grid and proved.

use crate::board::{winner_of, BoardImpl};
use crate::grid::{
    column_full, empty_cells, landing_row, lands_at, lemma_landing_row, lemma_placed_settled,
    lemma_with_cell, placed, settled, shaped, with_cell, Cells, SIZE,
};
use crate::render::{bottom_text, glyphs, grid_text, rendered, row_text, rows_text};
use crate::status::{
    any_line_won, column_won, first_column_won, first_row_won, full, lemma_first_column_won,
    lemma_first_row_won, row_won, status_of, Status,
};
use crate::token::Token;
use vstd::prelude::*;

verus! {

/// The grid after the placements `moves`, each a column and a token, were
/// made on `g` one after the other.
pub open spec fn after_moves(g: Cells, moves: Seq<(int, Token)>) -> Cells
    decreases moves.len(),
{
    if moves.len() == 0 {
        g
    } else {
        placed(after_moves(g, moves.drop_last()), moves.last().0, moves.last().1)
    }
}

/// Every placement of `moves` names a column of the grid.
pub open spec fn valid_moves(moves: Seq<(int, Token)>) -> bool {
    forall|i: int| 0 <= i < moves.len() ==> 0 <= (#[trigger] moves[i]).0 < SIZE
}

/// The empty grid is settled.
pub proof fn lemma_empty_settled()
    ensures
        shaped(empty_cells()),
        settled(empty_cells()),
{
}

/// Gravity: after any run of placements on a settled grid, no column holds
/// an empty cell below a token.
pub proof fn lemma_moves_keep_settled(g: Cells, moves: Seq<(int, Token)>)
    requires
        shaped(g),
        settled(g),
        valid_moves(moves),
    ensures
        shaped(after_moves(g, moves)),
        settled(after_moves(g, moves)),
    decreases moves.len(),
{
    if moves.len() > 0 {
        lemma_moves_keep_settled(g, moves.drop_last());
        lemma_placed_settled(after_moves(g, moves.drop_last()), moves.last().0, moves.last().1);
    }
}

/// Gravity, from the start of a game: whatever is placed on the empty grid,
/// no column ever holds an empty cell below a token.
pub proof fn lemma_play_is_settled(moves: Seq<(int, Token)>)
    requires
        valid_moves(moves),
    ensures
        settled(after_moves(empty_cells(), moves)),
{
    lemma_moves_keep_settled(empty_cells(), moves);
}

/// A placement changes one cell or none: into a full column it changes
/// nothing, and otherwise it puts the token into the lowest empty cell of
/// the column and leaves every other cell as it was.
pub proof fn lemma_placed_one_cell(g: Cells, col: int, token: Token)
    requires
        shaped(g),
        0 <= col < SIZE,
    ensures
        column_full(g, col) ==> placed(g, col, token) == g,
        !column_full(g, col) ==> exists|row: int|
            lands_at(g, col, row) && placed(g, col, token) == with_cell(g, row, col, token),
        forall|r: int, c: int|
            0 <= r < SIZE && 0 <= c < SIZE ==> #[trigger] placed(g, col, token)[r][c] == (if c
                == col && lands_at(g, col, r) {
                token
            } else {
                g[r][c]
            }),
{
    lemma_landing_row(g, col);
    let row = landing_row(g, col);
    if row >= 0 {
        lemma_with_cell(g, row, col, token);
        assert(lands_at(g, col, row));
    }
}

/// Placing into a full column leaves the grid as it was, however often it
/// is done.
pub proof fn lemma_full_column_unchanged(g: Cells, col: int, first: Token, second: Token)
    requires
        column_full(g, col),
    ensures
        placed(g, col, first) == g,
        placed(placed(g, col, first), col, second) == g,
{
    lemma_landing_row(g, col);
}

/// Which state of the game a grid is in: won exactly where some line is
/// complete, drawn exactly where none is and the grid is full, and in
/// progress exactly where none is and a cell is empty. The winner holds a
/// token, never the empty cell.
pub proof fn lemma_status_cases(g: Cells)
    ensures
        status_of(g) is Won <==> any_line_won(g),
        status_of(g) == Status::Draw <==> full(g) && !any_line_won(g),
        status_of(g) == Status::InProgress <==> !full(g) && !any_line_won(g),
        status_of(g) matches Status::Won(token) ==> token != Token::Empty,
{
    lemma_first_row_won(g, 0);
    lemma_first_column_won(g, 0);
    if first_row_won(g, 0) < SIZE {
        assert(row_won(g, first_row_won(g, 0)));
    }
    if first_column_won(g, 0) < SIZE {
        assert(column_won(g, first_column_won(g, 0)));
    }
}

/// The state of the game and the text shown are functions of the grid
/// alone: boards with the same grid are in the same state and show the same
/// text, wherever their generators stand.
pub proof fn lemma_grid_decides(a: BoardImpl, b: BoardImpl)
    requires
        a.cells() == b.cells(),
    ensures
        status_of(a.cells()) == status_of(b.cells()),
        winner_of(status_of(a.cells())) == winner_of(status_of(b.cells())),
        rendered(a.cells()) == rendered(b.cells()),
{
}

/// A full grid is a finished game: won or drawn, never in progress.
pub proof fn lemma_full_is_over(g: Cells)
    requires
        full(g),
    ensures
        status_of(g) != Status::InProgress,
{
    lemma_status_cases(g);
}

/// A full grid without a complete line is a draw.
pub proof fn lemma_full_without_line_is_draw(g: Cells)
    requires
        full(g),
        !any_line_won(g),
    ensures
        status_of(g) == Status::Draw,
{
    lemma_status_cases(g);
}

/// The grid after `token` was placed four times into column `col` of the
/// empty grid.
pub open spec fn column_of(col: int, token: Token) -> Cells {
    after_moves(empty_cells(), seq![(col, token), (col, token), (col, token), (col, token)])
}

/// Filling one column of the empty grid with one token wins the game for
/// that token: the column is the complete line.
pub proof fn lemma_filled_column_wins(col: int, token: Token)
    requires
        0 <= col < SIZE,
        token != Token::Empty,
    ensures
        forall|r: int, c: int|
            0 <= r < SIZE && 0 <= c < SIZE ==> #[trigger] column_of(col, token)[r][c] == (if c
                == col {
                token
            } else {
                Token::Empty
            }),
        status_of(column_of(col, token)) == Status::Won(token),
{
    let moves = seq![(col, token), (col, token), (col, token), (col, token)];
    let g0 = empty_cells();
    let g1 = placed(g0, col, token);
    let g2 = placed(g1, col, token);
    let g3 = placed(g2, col, token);
    let g4 = placed(g3, col, token);
    assert(after_moves(g0, moves) == g4) by {
        let m3 = moves.drop_last();
        let m2 = m3.drop_last();
        let m1 = m2.drop_last();
        let m0 = m1.drop_last();
        assert(m0.len() == 0);
        assert(after_moves(g0, m0) == g0);
        assert(after_moves(g0, m1) == g1);
        assert(after_moves(g0, m2) == g2);
        assert(after_moves(g0, m3) == g3);
    }
    lemma_landing_row(g0, col);
    assert(lands_at(g0, col, 3));
    lemma_with_cell(g0, 3, col, token);
    lemma_landing_row(g1, col);
    assert(lands_at(g1, col, 2));
    lemma_with_cell(g1, 2, col, token);
    lemma_landing_row(g2, col);
    assert(lands_at(g2, col, 1));
    lemma_with_cell(g2, 1, col, token);
    lemma_landing_row(g3, col);
    assert(lands_at(g3, col, 0));
    lemma_with_cell(g3, 0, col, token);
    assert forall|r: int, c: int| 0 <= r < SIZE && 0 <= c < SIZE implies #[trigger] g4[r][c] == (
    if c == col {
        token
    } else {
        Token::Empty
    }) by {}
    lemma_first_row_won(g4, 0);
    lemma_first_column_won(g4, 0);
    assert(column_won(g4, col));
    assert(g4[0][first_column_won(g4, 0)] == token);
}

/// A board that is fresh, as `new` makes it and `reset` leaves it, has an
/// empty grid and a game in progress, and its next random fill is the one
/// that every fresh board gives.
pub proof fn lemma_fresh_boards_agree(a: BoardImpl, b: BoardImpl)
    requires
        a.is_fresh(),
        b.is_fresh(),
    ensures
        forall|r: int, c: int|
            0 <= r < SIZE && 0 <= c < SIZE ==> #[trigger] a.cells()[r][c] == Token::Empty,
        status_of(a.cells()) == Status::InProgress,
        a.next_fill() == b.next_fill(),
{
    assert(a.cells()[0][0] == Token::Empty);
    lemma_status_cases(a.cells());
    assert(a.next_fill() =~~= b.next_fill());
}

/// The picture of a grid has five lines of six glyphs and a line feed.
pub proof fn lemma_grid_text_len(g: Cells)
    requires
        shaped(g),
    ensures
        grid_text(g).len() == (SIZE + 1) * (SIZE + 3),
{
    assert forall|r: int| 0 <= r < SIZE implies #[trigger] row_text(g[r]).len() == SIZE + 3 by {
        assert(glyphs(g[r]).len() == SIZE);
    }
    assert(rows_text(g, 0).len() == 0);
    assert(rows_text(g, 1).len() == rows_text(g, 0).len() + row_text(g[0]).len());
    assert(rows_text(g, 2).len() == rows_text(g, 1).len() + row_text(g[1]).len());
    assert(rows_text(g, 3).len() == rows_text(g, 2).len() + row_text(g[2]).len());
    assert(rows_text(g, 4).len() == rows_text(g, 3).len() + row_text(g[3]).len());
    assert(bottom_text().len() == SIZE + 3);
}

/// The text of a board ends with the line on how the game stands: the
/// winner's glyph and " wins!" where the game is won, "No winner." where
/// it is drawn, and nothing after the picture while it is in progress.
pub proof fn lemma_rendered_status_line(g: Cells)
    ensures
        status_of(g) matches Status::Won(token) ==> rendered(g) == grid_text(g)
            + seq![token.glyph_spec()] + " wins!\n"@,
        status_of(g) == Status::Draw ==> rendered(g) == grid_text(g) + "No winner.\n"@,
        status_of(g) == Status::InProgress ==> rendered(g) == grid_text(g),
{
    match status_of(g) {
        Status::Won(token) => {
            assert(rendered(g) =~= grid_text(g) + seq![token.glyph_spec()] + " wins!\n"@);
        },
        Status::Draw => {},
        Status::InProgress => {
            assert(rendered(g) =~= grid_text(g));
        },
    }
}

} // verus!
