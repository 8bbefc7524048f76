//! The game as a state machine: the caller reads lines and the clock,
//! hands them in, and prints what comes back.

use crate::clock::TimeSpan;
use crate::difficulty::{easy, in_range, select_difficulty, selection_of, Selection};
use crate::game::{Game, GuessResult};
use crate::score::{points_after, stepped_multiplier, tier_multiplier, Score};
use vstd::prelude::*;

verus! {

/// The seconds that the guessing of a standard game may take.
pub const TIME_LIMIT_SECONDS: u64 = 10;

/// Where a game stands.
#[derive(Clone, Copy, Debug, PartialEq, Eq, Structural)]
pub enum Phase {
    /// The game goes on and waits for the next guess.
    AwaitingGuess,
    /// The secret was guessed.
    Won,
    /// The time ran out.
    Lost,
}

/// How a game ended.
#[derive(Clone, Copy, Debug, PartialEq, Eq, Structural)]
pub enum GameOutcome {
    Win,
    Lose,
}

/// What the player is told after a guess.
#[derive(Clone, Copy, Debug, PartialEq, Eq, Structural)]
pub enum Reply {
    /// The guess was below the secret, or the line held no number.
    TooLow,
    /// The guess was above the secret.
    TooHigh,
    /// The guess was right: the final score, and the whole seconds since
    /// the session began.
    Win { score: i64, seconds: u64 },
    /// The game had ended before the guess came; nothing is to be said.
    Over,
}

/// One session: the game, its score, the count of misses so far, the
/// phase, and the time that the guessing may take.
#[derive(Clone, Copy, Debug)]
pub struct GameManager {
    pub game: Game,
    pub score: Score,
    pub guesses: u32,
    pub phase: Phase,
    pub time_limit: TimeSpan,
}

impl GameManager {
    /// The parts are valid and the score is in step with the count of
    /// misses: the multiplier is that of the count's tier, and the points
    /// are 0 before the first miss and `100 - 10 * guesses` after it.
    pub open spec fn wf(self) -> bool {
        &&& self.game.wf()
        &&& self.score.wf()
        &&& self.time_limit.wf()
        &&& self.score.multiplier == tier_multiplier(self.guesses as int)
        &&& self.score.points == if self.guesses == 0 {
            0
        } else {
            points_after(self.guesses as int)
        }
    }

    /// The session after the clock was looked at: lost where the game was
    /// going on and the time since the guessing began has reached the
    /// limit, unchanged otherwise.
    pub open spec fn after_check(self, loop_elapsed: TimeSpan) -> GameManager {
        if self.phase == Phase::AwaitingGuess && loop_elapsed.reached(self.time_limit) {
            GameManager { phase: Phase::Lost, ..self }
        } else {
            self
        }
    }

    /// Whether `verdict` would be counted as a miss: the game goes on and
    /// the guess was not right.
    pub open spec fn counts_miss(self, verdict: GuessResult) -> bool {
        self.phase == Phase::AwaitingGuess && verdict != GuessResult::Correct
    }

    /// The session after a guess was judged. A game that has ended stays
    /// as it is. A right guess wins and leaves the score alone. A miss
    /// raises the count by one, steps the multiplier on that count and
    /// sets the points to `100 - 10 * count`.
    pub open spec fn after_verdict(self, verdict: GuessResult) -> GameManager {
        if self.phase != Phase::AwaitingGuess {
            self
        } else if verdict == GuessResult::Correct {
            GameManager { phase: Phase::Won, ..self }
        } else {
            let count = (self.guesses + 1) as u32;
            GameManager {
                guesses: count,
                score: Score {
                    points: points_after(count as int) as i64,
                    multiplier: stepped_multiplier(self.score.multiplier, count as int),
                },
                ..self
            }
        }
    }

    /// What the player is told when a guess was judged, `session_elapsed`
    /// after the session began.
    pub open spec fn reply_to(self, verdict: GuessResult, session_elapsed: TimeSpan) -> Reply {
        if self.phase != Phase::AwaitingGuess {
            Reply::Over
        } else {
            match verdict {
                GuessResult::Correct => Reply::Win {
                    score: self.score.spec_total() as i64,
                    seconds: session_elapsed.secs,
                },
                GuessResult::TooLow => Reply::TooLow,
                GuessResult::TooHigh => Reply::TooHigh,
            }
        }
    }

    /// A session with the given time limit: an easy game with a freshly
    /// drawn secret, no points, multiplier 1, no misses, waiting for a
    /// guess.
    pub fn new(time_limit: TimeSpan) -> (m: GameManager)
        requires
            time_limit.wf(),
        ensures
            m.wf(),
            m.game.difficulty == easy(),
            m.game.range == (1u32, 100u32),
            in_range(m.game.secret_number, m.game.range),
            m.score == (Score { points: 0, multiplier: 1 }),
            m.guesses == 0,
            m.phase == Phase::AwaitingGuess,
            m.time_limit == time_limit,
    {
        GameManager {
            game: Game::new(),
            score: Score::new(),
            guesses: 0,
            phase: Phase::AwaitingGuess,
            time_limit,
        }
    }

    /// Takes the player's menu line: the game moves to the tier that the
    /// line selects, with a new secret from that tier's range. Score,
    /// count, phase and time limit stay. The result says which tier it is
    /// and whether the line named none.
    pub fn choose_difficulty(&mut self, line: &str) -> (chosen: Selection)
        requires
            old(self).wf(),
        ensures
            chosen == selection_of(line@),
            final(self).game.difficulty == chosen.difficulty,
            final(self).game.range == chosen.difficulty.spec_range(),
            in_range(final(self).game.secret_number, chosen.difficulty.spec_range()),
            final(self).score == old(self).score,
            final(self).guesses == old(self).guesses,
            final(self).phase == old(self).phase,
            final(self).time_limit == old(self).time_limit,
            final(self).wf(),
    {
        let chosen = select_difficulty(line);
        self.game.set_difficulty(chosen.difficulty);
        chosen
    }

    /// Looks at the clock before a guess is asked for. `loop_elapsed` is
    /// the time since the guessing began. Where the game goes on and that
    /// time has reached the limit, the game is lost and the result is
    /// `true`: the player is told that the time is up. Otherwise nothing
    /// changes.
    pub fn check_time(&mut self, loop_elapsed: TimeSpan) -> (expired: bool)
        requires
            old(self).wf(),
            loop_elapsed.wf(),
        ensures
            *final(self) == old(self).after_check(loop_elapsed),
            expired == (old(self).phase == Phase::AwaitingGuess && loop_elapsed.reached(
                old(self).time_limit,
            )),
            expired ==> final(self).phase == Phase::Lost,
            final(self).wf(),
    {
        if self.phase == Phase::AwaitingGuess && loop_elapsed.has_reached(&self.time_limit) {
            self.phase = Phase::Lost;
            true
        } else {
            false
        }
    }

    /// Takes the judgement of a guess, `session_elapsed` after the
    /// session began, and says what the player is told. The count of
    /// misses must have room for one more where the judgement is a miss.
    pub fn apply_verdict(&mut self, verdict: GuessResult, session_elapsed: TimeSpan) -> (reply:
        Reply)
        requires
            old(self).wf(),
            session_elapsed.wf(),
            old(self).counts_miss(verdict) ==> old(self).guesses < u32::MAX,
        ensures
            *final(self) == old(self).after_verdict(verdict),
            reply == old(self).reply_to(verdict, session_elapsed),
            final(self).wf(),
            reply is TooLow || reply is TooHigh ==> final(self).guesses == old(self).guesses + 1
                && final(self).score.points == 100 - 10 * final(self).guesses,
    {
        if self.phase != Phase::AwaitingGuess {
            return Reply::Over;
        }
        match verdict {
            GuessResult::Correct => {
                let score = self.score.total();
                self.phase = Phase::Won;
                Reply::Win { score, seconds: session_elapsed.whole_seconds() }
            },
            GuessResult::TooLow => {
                self.guesses = self.guesses + 1;
                self.score.record_miss(self.guesses);
                Reply::TooLow
            },
            GuessResult::TooHigh => {
                self.guesses = self.guesses + 1;
                self.score.record_miss(self.guesses);
                Reply::TooHigh
            },
        }
    }

    /// Takes one line of input as a guess, `session_elapsed` after the
    /// session began: the line is judged against the secret and the
    /// judgement applied. The count of misses must have room for one more
    /// where the guess is a miss.
    pub fn guess(&mut self, line: &str, session_elapsed: TimeSpan) -> (reply: Reply)
        requires
            old(self).wf(),
            session_elapsed.wf(),
            old(self).counts_miss(old(self).game.verdict(line@)) ==> old(self).guesses
                < u32::MAX,
        ensures
            *final(self) == old(self).after_verdict(old(self).game.verdict(line@)),
            reply == old(self).reply_to(old(self).game.verdict(line@), session_elapsed),
            final(self).wf(),
    {
        let verdict = self.game.play(line);
        self.apply_verdict(verdict, session_elapsed)
    }

    /// How the game ended, if it has.
    pub fn outcome(&self) -> (r: Option<GameOutcome>)
        ensures
            r == match self.phase {
                Phase::AwaitingGuess => None::<GameOutcome>,
                Phase::Won => Some(GameOutcome::Win),
                Phase::Lost => Some(GameOutcome::Lose),
            },
    {
        match self.phase {
            Phase::AwaitingGuess => None,
            Phase::Won => Some(GameOutcome::Win),
            Phase::Lost => Some(GameOutcome::Lose),
        }
    }
}

} // verus!
