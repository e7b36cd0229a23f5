//! A shared four-by-four drop board for two kinds of tokens.
//!
//! A token placed into a column falls to the lowest empty cell. Four equal
//! tokens in a row, a column or a diagonal win the game; a full grid without
//! such a line is a draw. The board can be reset, and it can be filled at
//! random from a generator with a fixed seed, so that the fills repeat.
//!
//! - [`token`]: what a cell holds, and its glyph.
//! - [`grid`]: the grid and the placement rule.
//! - [`status`]: win and draw detection.
//! - [`render`]: the text that shows a grid.
//! - [`random`]: the seeded generator.
//! - [`board`]: grid and generator together.
//! - [`service`]: one board behind a lock, its four operations and the
//!   requests that ask for them.
//! - [`laws`]: what holds of all of this, proved.

pub mod board;
pub mod grid;
pub mod laws;
pub mod random;
pub mod render;
pub mod service;
pub mod status;
pub mod token;
