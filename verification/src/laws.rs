//! What holds of every session, stated over the transitions of the
//! state machine.

use crate::clock::TimeSpan;
use crate::difficulty::{selection_of, valid_range, Difficulty};
use crate::game::GuessResult;
use crate::manager::{GameManager, Phase, Reply};
use crate::score::tier_multiplier;
use crate::text::{guess_in, trimmed};
use vstd::prelude::*;

verus! {

/// The menu line `2` selects the range 1 to 500 and the line `3` the
/// range 1 to 1000; the line `1` and every line that is none of the
/// three select 1 to 100. The fallback is reported for exactly the lines
/// that are none of the three. White space around the line does not
/// count.
pub proof fn lemma_selection_ranges(line: Seq<char>)
    ensures
        selection_of(line).difficulty.spec_range() == if trimmed(line) == seq!['2'] {
            (1u32, 500u32)
        } else if trimmed(line) == seq!['3'] {
            (1u32, 1000u32)
        } else {
            (1u32, 100u32)
        },
        selection_of(line).fell_back <==> trimmed(line) != seq!['1'] && trimmed(line) != seq!['2']
            && trimmed(line) != seq!['3'],
        trimmed(line) == seq!['1'] ==> selection_of(line).difficulty == Difficulty::Easy(
            (1u32, 100u32),
        ),
        trimmed(line) == seq!['2'] ==> selection_of(line).difficulty == Difficulty::Medium(
            (1u32, 500u32),
        ),
        trimmed(line) == seq!['3'] ==> selection_of(line).difficulty == Difficulty::Hard(
            (1u32, 1000u32),
        ),
        valid_range(selection_of(line).difficulty.spec_range()),
{
    let t = trimmed(line);
    assert(seq!['1'].len() == 1 && seq!['1'][0] == '1');
    assert(seq!['2'].len() == 1 && seq!['2'][0] == '2');
    assert(seq!['3'].len() == 1 && seq!['3'][0] == '3');
    if t.len() == 1 {
        assert(t[0] == '1' ==> t =~= seq!['1']);
        assert(t[0] == '2' ==> t =~= seq!['2']);
        assert(t[0] == '3' ==> t =~= seq!['3']);
    }
}

/// After every miss the session is valid again, the count has risen by
/// one, the points are `100 - 10 * count`, negative beyond ten misses,
/// and the multiplier is 1 below five misses, 2 from five to nine and 3
/// from ten on.
pub proof fn lemma_miss_keeps_score_in_step(m: GameManager, verdict: GuessResult)
    requires
        m.wf(),
        m.phase == Phase::AwaitingGuess,
        verdict != GuessResult::Correct,
        m.guesses < u32::MAX,
    ensures
        m.after_verdict(verdict).wf(),
        m.after_verdict(verdict).phase == Phase::AwaitingGuess,
        m.after_verdict(verdict).guesses == m.guesses + 1,
        m.after_verdict(verdict).score.points == 100 - 10 * (m.guesses + 1),
        m.after_verdict(verdict).score.multiplier == tier_multiplier(m.guesses + 1),
        m.guesses + 1 > 10 ==> m.after_verdict(verdict).score.points < 0,
{
}

/// A right guess ends the game as won, with the score as the last miss
/// left it: the reply carries points times multiplier and the whole
/// seconds since the session began.
pub proof fn lemma_right_guess_wins(m: GameManager, session_elapsed: TimeSpan)
    requires
        m.wf(),
        m.phase == Phase::AwaitingGuess,
    ensures
        m.after_verdict(GuessResult::Correct).phase == Phase::Won,
        m.after_verdict(GuessResult::Correct).score == m.score,
        m.after_verdict(GuessResult::Correct).guesses == m.guesses,
        m.reply_to(GuessResult::Correct, session_elapsed) == (Reply::Win {
            score: (m.score.points * tier_multiplier(m.guesses as int)) as i64,
            seconds: session_elapsed.secs,
        }),
{
}

/// Where the time limit is reached while the game goes on, the game is
/// lost; and a lost game answers every later guess, a right one too,
/// with `Over` and stays as it is, so that no score is ever reported.
pub proof fn lemma_time_up_loses(
    m: GameManager,
    loop_elapsed: TimeSpan,
    verdict: GuessResult,
    session_elapsed: TimeSpan,
)
    requires
        m.phase == Phase::AwaitingGuess,
        loop_elapsed.reached(m.time_limit),
    ensures
        m.after_check(loop_elapsed).phase == Phase::Lost,
        m.after_check(loop_elapsed).reply_to(verdict, session_elapsed) == Reply::Over,
        m.after_check(loop_elapsed).after_verdict(verdict) == m.after_check(loop_elapsed),
        m.after_check(loop_elapsed).after_check(loop_elapsed) == m.after_check(loop_elapsed),
{
}

/// A line that holds no number is treated exactly as a line that holds
/// a number below the secret: the same judgement, the same reply and the
/// same next state.
pub proof fn lemma_malformed_counts_as_low(
    m: GameManager,
    malformed: Seq<char>,
    low: Seq<char>,
    session_elapsed: TimeSpan,
)
    requires
        guess_in(malformed) is None,
        guess_in(low) is Some,
        guess_in(low)->0 < m.game.secret_number,
    ensures
        m.game.verdict(malformed) == GuessResult::TooLow,
        m.game.verdict(malformed) == m.game.verdict(low),
        m.after_verdict(m.game.verdict(malformed)) == m.after_verdict(m.game.verdict(low)),
        m.reply_to(m.game.verdict(malformed), session_elapsed) == m.reply_to(
            m.game.verdict(low),
            session_elapsed,
        ),
{
}

} // verus!
