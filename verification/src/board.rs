//! The board: one grid and the seeded generator that fills it at random.

use crate::grid::{empty_cells, placed, settled, shaped, Cells, Grid, SIZE};
use crate::random::{draw_bool, seed_rng, seeded_draw, upcoming};
use crate::render::rendered;
use crate::status::{full, status_of, Status};
use crate::token::Token;
use rand::rngs::StdRng;
use vstd::prelude::*;

verus! {

/// The seed that every board starts from, and goes back to on a reset.
pub const SEED: u64 = 2024;

/// The token that a drawn boolean stands for.
pub open spec fn token_for(drawn: bool) -> Token {
    if drawn {
        Token::Cookie
    } else {
        Token::Milk
    }
}

/// The answer of `check_winner` for a state of the game: the winning token,
/// the empty token for a draw, nothing while the game is in progress.
pub open spec fn winner_of(status: Status) -> Option<Token> {
    match status {
        Status::Won(token) => Some(token),
        Status::Draw => Some(Token::Empty),
        Status::InProgress => None,
    }
}

/// The board: a grid, which is settled at all times, and the generator that
/// `randomize` draws from.
pub struct BoardImpl {
    inner: Grid,
    rng: StdRng,
}

impl BoardImpl {
    /// The grid of the board.
    pub closed spec fn cells(&self) -> Cells {
        self.inner@
    }

    /// What holds of every board at all times: no column of its grid holds
    /// an empty cell below a token.
    #[verifier::type_invariant]
    pub open spec fn inv(self) -> bool {
        settled(self.cells())
    }

    /// The boolean that the `n`-th draw from now gives, counting from 0.
    pub closed spec fn pending(&self, n: nat) -> bool {
        upcoming(self.rng, n)
    }

    /// The generator stands where one freshly made from `SEED` stands.
    pub open spec fn freshly_seeded(&self) -> bool {
        forall|n: nat| self.pending(n) == seeded_draw(SEED, n)
    }

    /// The board is as `new` makes it: all cells empty, the generator fresh.
    pub open spec fn is_fresh(&self) -> bool {
        &&& self.cells() == empty_cells()
        &&& self.freshly_seeded()
    }

    /// The grid that the next `randomize` leaves: cell by cell, row after
    /// row and from left to right within a row, the tokens of the next
    /// sixteen draws.
    pub open spec fn next_fill(&self) -> Cells {
        Seq::new(
            SIZE as nat,
            |r: int| Seq::new(SIZE as nat, |c: int| token_for(self.pending((SIZE * r + c) as nat))),
        )
    }

    /// The grid of every board has four rows of four cells.
    pub proof fn lemma_cells_shaped(&self)
        ensures
            shaped(self.cells()),
    {
        self.inner.lemma_shaped();
    }

    /// A board with an empty grid and a generator made from `SEED`.
    pub fn new() -> (board: Self)
        ensures
            board.is_fresh(),
            settled(board.cells()),
    {
        let inner = Grid::new();
        assert(settled(inner@));
        BoardImpl { inner, rng: seed_rng(SEED) }
    }

    /// The grid of the board, to look at.
    pub fn grid(&self) -> (grid: &Grid)
        ensures
            grid@ == self.cells(),
            settled(grid@),
    {
        proof {
            use_type_invariant(self);
        }
        &self.inner
    }

    /// The text that shows the grid and how the game stands.
    pub fn print(&self) -> (text: String)
        ensures
            text@ == rendered(self.cells()),
    {
        self.inner.print()
    }

    /// Drops `token` into column `pos`, where it comes to rest in the lowest
    /// empty cell. A full column leaves the board as it was. The generator
    /// is not touched.
    pub fn place(&mut self, pos: usize, token: Token)
        requires
            pos < SIZE,
        ensures
            final(self).cells() == placed(old(self).cells(), pos as int, token),
            forall|n: nat| final(self).pending(n) == old(self).pending(n),
            settled(final(self).cells()),
    {
        proof {
            use_type_invariant(&*self);
        }
        self.inner.place(pos, token);
    }

    /// The state of the game on the grid as it is now.
    pub fn status(&self) -> (status: Status)
        ensures
            status == status_of(self.cells()),
    {
        self.inner.status()
    }

    /// The winning token, the empty token if the game is drawn, nothing
    /// while it is in progress.
    pub fn check_winner(&self) -> (winner: Option<Token>)
        ensures
            winner == winner_of(status_of(self.cells())),
    {
        match self.inner.status() {
            Status::Won(token) => Some(token),
            Status::Draw => Some(Token::Empty),
            Status::InProgress => None,
        }
    }

    /// Puts the board back to what `new` makes: the grid empty, the
    /// generator made anew from `SEED`.
    pub fn reset(&mut self)
        ensures
            final(self).is_fresh(),
            settled(final(self).cells()),
    {
        *self = Self::new();
    }

    /// Overwrites every cell with the token of one draw from the generator,
    /// row after row and from left to right within a row. No cell is left
    /// empty, whatever the grid held before.
    pub fn randomize(&mut self)
        ensures
            final(self).cells() == old(self).next_fill(),
            forall|n: nat| final(self).pending(n) == old(self).pending((n + SIZE * SIZE) as nat),
            full(final(self).cells()),
            settled(final(self).cells()),
    {
        proof {
            use_type_invariant(&*self);
        }
        let mut rows = [[Token::Empty; 4]; 4];
        let mut i: usize = 0;
        while i < SIZE
            invariant
                i <= SIZE,
                self.inner == old(self).inner,
                settled(self.inner@),
                forall|n: nat| self.pending(n) == old(self).pending((n + SIZE * i) as nat),
                forall|r: int, c: int|
                    0 <= r < i && 0 <= c < SIZE ==> #[trigger] rows[r][c] == token_for(
                        old(self).pending((SIZE * r + c) as nat),
                    ),
            decreases SIZE - i,
        {
            let mut j: usize = 0;
            while j < SIZE
                invariant
                    i < SIZE,
                    j <= SIZE,
                    self.inner == old(self).inner,
                    settled(self.inner@),
                    forall|n: nat| self.pending(n) == old(self).pending((n + SIZE * i + j) as nat),
                    forall|r: int, c: int|
                        0 <= r < i && 0 <= c < SIZE ==> #[trigger] rows[r][c] == token_for(
                            old(self).pending((SIZE * r + c) as nat),
                        ),
                    forall|c: int|
                        0 <= c < j ==> #[trigger] rows[i as int][c] == token_for(
                            old(self).pending((SIZE * i + c) as nat),
                        ),
                decreases SIZE - j,
            {
                let ghost before = *self;
                let drawn = draw_bool(&mut self.rng);
                assert(drawn == old(self).pending((SIZE * i + j) as nat)) by {
                    assert(before.pending(0) == old(self).pending((0 + SIZE * i + j) as nat));
                }
                assert forall|n: nat| self.pending(n) == old(self).pending(
                    (n + SIZE * i + j + 1) as nat,
                ) by {
                    assert(before.pending(n + 1) == old(self).pending(
                        ((n + 1) + SIZE * i + j) as nat,
                    ));
                }
                rows[i][j] = if drawn {
                    Token::Cookie
                } else {
                    Token::Milk
                };
                j += 1;
            }
            i += 1;
        }
        let ghost drawn_from = *self;
        self.inner = Grid::from_rows(rows);
        assert(self.inner@ =~~= old(self).next_fill());
        assert forall|n: nat| self.pending(n) == old(self).pending((n + SIZE * SIZE) as nat) by {
            assert(drawn_from.pending(n) == old(self).pending((n + SIZE * SIZE) as nat));
        }
    }
}

} // verus!
