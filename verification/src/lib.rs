//! A timed number-guessing game as a verified state machine.
//!
//! The library decides everything the game decides: which range a menu
//! choice selects, how a line of input is read as a guess, how a guess
//! compares with the secret, how the score moves, and when the game ends.
//! Reading lines, reading the clock and printing are left to the caller.

pub mod clock;
pub mod difficulty;
pub mod game;
pub mod laws;
pub mod manager;
pub mod messages;
mod random;
pub mod score;
pub mod text;

pub use clock::TimeSpan;
pub use difficulty::{select_difficulty, Difficulty, Selection};
pub use game::{compare_guess, Game, GuessResult};
pub use manager::{GameManager, GameOutcome, Phase, Reply};
pub use score::Score;
pub use text::{is_whitespace, parse_guess, trim_bounds};

