//! The text that shows a grid: bordered rows, a closing border, and a line
//! that names the winner or the draw.

use crate::grid::{shaped, Cells, Grid, SIZE};
use crate::status::{status_of, Status};
use crate::token::Token;
use vstd::prelude::*;
use vstd::string::*;

verus! {

/// The glyph that frames the grid.
pub const BORDER: char = '⬜';

/// The glyphs of the cells of `row`, from left to right.
pub open spec fn glyphs(row: Seq<Token>) -> Seq<char> {
    row.map_values(|t: Token| t.glyph_spec())
}

/// One line of the picture: a border glyph, the glyphs of the row, a border
/// glyph and a line feed.
pub open spec fn row_text(row: Seq<Token>) -> Seq<char> {
    seq![BORDER] + glyphs(row) + seq![BORDER, '\n']
}

/// The lines of the first `n` rows of `g`, one after the other.
pub open spec fn rows_text(g: Cells, n: int) -> Seq<char>
    decreases n,
{
    if n <= 0 {
        Seq::empty()
    } else {
        rows_text(g, n - 1) + row_text(g[n - 1])
    }
}

/// The line that closes the picture: border glyphs over the full width, two
/// more than a row has cells, and a line feed.
pub open spec fn bottom_text() -> Seq<char> {
    Seq::new((SIZE + 2) as nat, |i: int| BORDER).push('\n')
}

/// The picture of the grid: its four rows and the closing border.
pub open spec fn grid_text(g: Cells) -> Seq<char> {
    rows_text(g, SIZE as int) + bottom_text()
}

/// The line that tells how the game ended; nothing while it is in progress.
pub open spec fn status_text(status: Status) -> Seq<char> {
    match status {
        Status::Won(token) => seq![token.glyph_spec()] + " wins!\n"@,
        Status::Draw => "No winner.\n"@,
        Status::InProgress => Seq::empty(),
    }
}

/// The whole text shown for grid `g`: the picture, then the line on how the
/// game ended if it has.
pub open spec fn rendered(g: Cells) -> Seq<char> {
    grid_text(g) + status_text(status_of(g))
}

/// Appends `c` to `text` with `String::push`.
///
/// Trusted: the string afterwards is the string before followed by `c`.
#[verifier::external_body]
fn push_char(text: &mut String, c: char)
    ensures
        final(text)@ == old(text)@.push(c),
{
    text.push(c);
}

impl Grid {
    /// The text that shows this grid, closed by the line for `status`.
    pub fn render(&self, status: Status) -> (text: String)
        ensures
            text@ == grid_text(self@) + status_text(status),
    {
        proof {
            self.lemma_shaped();
        }
        let mut text = String::new();
        let mut r: usize = 0;
        while r < SIZE
            invariant
                r <= SIZE,
                shaped(self@),
                text@ == rows_text(self@, r as int),
            decreases SIZE - r,
        {
            push_char(&mut text, BORDER);
            let mut c: usize = 0;
            while c < SIZE
                invariant
                    r < SIZE,
                    c <= SIZE,
                    shaped(self@),
                    text@ == rows_text(self@, r as int) + seq![BORDER] + glyphs(
                        self@[r as int].take(c as int),
                    ),
                decreases SIZE - c,
            {
                push_char(&mut text, self.get(r, c).glyph());
                assert(glyphs(self@[r as int].take(c + 1)) =~= glyphs(
                    self@[r as int].take(c as int),
                ).push(self@[r as int][c as int].glyph_spec()));
                c += 1;
            }
            push_char(&mut text, BORDER);
            push_char(&mut text, '\n');
            assert(self@[r as int].take(SIZE as int) =~= self@[r as int]);
            assert(text@ =~= rows_text(self@, r as int) + row_text(self@[r as int]));
            r += 1;
        }
        let mut i: usize = 0;
        while i < SIZE + 2
            invariant
                i <= SIZE + 2,
                text@ == rows_text(self@, SIZE as int) + Seq::new(i as nat, |k: int| BORDER),
            decreases SIZE + 2 - i,
        {
            push_char(&mut text, BORDER);
            assert(Seq::new(i as nat, |k: int| BORDER).push(BORDER) =~= Seq::new(
                (i + 1) as nat,
                |k: int| BORDER,
            ));
            i += 1;
        }
        push_char(&mut text, '\n');
        assert(text@ =~= grid_text(self@));
        match status {
            Status::Won(token) => {
                push_char(&mut text, token.glyph());
                text.append(" wins!\n");
                assert(text@ =~= grid_text(self@) + status_text(status));
            },
            Status::Draw => {
                text.append("No winner.\n");
            },
            Status::InProgress => {
                assert(text@ =~= grid_text(self@) + status_text(status));
            },
        }
        text
    }

    /// The text that shows this grid and how the game on it stands.
    pub fn print(&self) -> (text: String)
        ensures
            text@ == rendered(self@),
    {
        self.render(self.status())
    }
}

} // verus!
