//! A one-round number-guessing game.
//!
//! A round draws a secret number in `[1, 100]`, reads one line of input,
//! echoes it back, and says whether the guess is too small, too big, or
//! exactly the secret. The guess line must be a decimal integer; a line
//! that is not one ends the round with a distinct error instead of a
//! verdict, as does a read that produces no line at all.

pub mod messages;
pub mod parse;
pub mod round;
