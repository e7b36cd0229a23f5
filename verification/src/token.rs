//! The values a cell of the board can hold, and how each is drawn.

use vstd::prelude::*;

verus! {

/// What a cell of the board holds: one of the two tokens, or nothing.
#[derive(Clone, Copy, Debug, PartialEq, Eq, Structural)]
pub enum Token {
    /// The first of the two tokens.
    Cookie,
    /// The second of the two tokens.
    Milk,
    /// No token: the cell is free.
    Empty,
}

impl From<Token> for char {
    /// The glyph a cell holding `value` is drawn with.
    fn from(value: Token) -> (c: char) {
        value.glyph()
    }
}

impl vstd::std_specs::convert::FromSpecImpl<Token> for char {
    open spec fn obeys_from_spec() -> bool {
        true
    }

    open spec fn from_spec(value: Token) -> char {
        value.glyph_spec()
    }
}

impl Token {
    /// The glyph a cell holding `self` is drawn with.
    pub open spec fn glyph_spec(self) -> char {
        match self {
            Token::Cookie => '🍪',
            Token::Milk => '🥛',
            Token::Empty => '⬛',
        }
    }

    /// The glyph a cell holding `self` is drawn with.
    pub fn glyph(self) -> (c: char)
        ensures
            c == self.glyph_spec(),
    {
        match self {
            Token::Cookie => '🍪',
            Token::Milk => '🥛',
            Token::Empty => '⬛',
        }
    }
}

} // verus!
