//! One round's secret and the judgement of a guess against it.

use crate::difficulty::{easy, in_range, valid_range, Difficulty};
use crate::random::draw_between;
use crate::text::{guess_in, parse_guess};
use vstd::prelude::*;

verus! {

/// How a guess stands to the secret.
#[derive(Clone, Copy, Debug, PartialEq, Eq, Structural)]
pub enum GuessResult {
    Correct,
    TooLow,
    TooHigh,
}

/// The judgement of a parsed guess. A line that held no number is
/// judged as a guess below the secret.
pub open spec fn verdict_on(guess: Option<u32>, secret: u32) -> GuessResult {
    match guess {
        None => GuessResult::TooLow,
        Some(g) => if g < secret {
            GuessResult::TooLow
        } else if g > secret {
            GuessResult::TooHigh
        } else {
            GuessResult::Correct
        },
    }
}

/// Judges a parsed guess against `secret`.
pub fn compare_guess(guess: Option<u32>, secret: u32) -> (r: GuessResult)
    ensures
        r == verdict_on(guess, secret),
{
    match guess {
        None => GuessResult::TooLow,
        Some(g) => {
            if g < secret {
                GuessResult::TooLow
            } else if g > secret {
                GuessResult::TooHigh
            } else {
                GuessResult::Correct
            }
        },
    }
}

/// A secret number together with the tier and range it was drawn from.
#[derive(Clone, Copy, Debug)]
pub struct Game {
    pub secret_number: u32,
    pub range: (u32, u32),
    pub difficulty: Difficulty,
}

impl Game {
    /// The range is the tier's, and the secret lies within it.
    pub open spec fn wf(self) -> bool {
        &&& self.range == self.difficulty.spec_range()
        &&& in_range(self.secret_number, self.range)
    }

    /// The judgement that this game gives on a line of input.
    pub open spec fn verdict(self, line: Seq<char>) -> GuessResult {
        verdict_on(guess_in(line), self.secret_number)
    }

    /// A game of the given tier with a secret chosen by the caller.
    /// `None` where the secret lies outside the tier's range.
    pub fn with_secret(difficulty: Difficulty, secret: u32) -> (r: Option<Game>)
        ensures
            r is Some <==> in_range(secret, difficulty.spec_range()),
            r is Some ==> r == Some(
                (Game { secret_number: secret, range: difficulty.spec_range(), difficulty }),
            ),
            r is Some ==> r->0.wf(),
    {
        let range = difficulty.range();
        if range.0 <= secret && secret <= range.1 {
            Some(Game { secret_number: secret, range, difficulty })
        } else {
            None
        }
    }

    /// A game of the easy tier, 1 to 100, with a freshly drawn secret.
    pub fn new() -> (g: Game)
        ensures
            g.wf(),
            g.difficulty == easy(),
            g.range == (1u32, 100u32),
            1 <= g.secret_number <= 100,
    {
        let range: (u32, u32) = (1, 100);
        let secret_number = draw_between(range.0, range.1);
        Game { secret_number, range, difficulty: Difficulty::Easy(range) }
    }

    /// Moves the game to another tier and draws a new secret from that
    /// tier's range.
    pub fn set_difficulty(&mut self, difficulty: Difficulty)
        requires
            valid_range(difficulty.spec_range()),
        ensures
            final(self).difficulty == difficulty,
            final(self).range == difficulty.spec_range(),
            in_range(final(self).secret_number, difficulty.spec_range()),
            final(self).wf(),
    {
        self.difficulty = difficulty;
        self.range = difficulty.range();
        self.secret_number = draw_between(self.range.0, self.range.1);
    }

    /// Judges one line of input: the line is trimmed and parsed, and the
    /// number compared with the secret. A line that holds no number counts
    /// as too low.
    pub fn play(&self, line: &str) -> (r: GuessResult)
        ensures
            r == self.verdict(line@),
    {
        compare_guess(parse_guess(line), self.secret_number)
    }
}

} // verus!
