use guessing_game::clock::TimeSpan;
use guessing_game::difficulty::{Difficulty, Selection};
use guessing_game::game::{Game, GuessResult};
use guessing_game::manager::{GameManager, GameOutcome, Phase, Reply, TIME_LIMIT_SECONDS};
use guessing_game::messages::reply_message;
use guessing_game::score::Score;

fn session_with_secret(secret: u32) -> GameManager {
    let mut m = GameManager::new(TimeSpan::from_secs(10));
    m.game = Game::with_secret(Difficulty::Easy((1, 100)), secret).unwrap();
    m
}

#[test]
fn new_session_waits_for_a_guess() {
    let m = GameManager::new(TimeSpan::from_secs(10));
    assert_eq!(m.phase, Phase::AwaitingGuess);
    assert_eq!(m.guesses, 0);
    assert_eq!(m.score, Score { points: 0, multiplier: 1 });
    assert_eq!(m.time_limit, TimeSpan { secs: 10, nanos: 0 });
    assert_eq!(m.game.difficulty, Difficulty::Easy((1, 100)));
    assert!(1 <= m.game.secret_number && m.game.secret_number <= 100);
    assert_eq!(m.outcome(), None);
}

#[test]
fn choose_difficulty_sets_tier_and_redraws() {
    let cases = [
        ("1\n", Difficulty::Easy((1, 100)), false),
        ("2\n", Difficulty::Medium((1, 500)), false),
        ("3\n", Difficulty::Hard((1, 1000)), false),
        ("9\n", Difficulty::Easy((1, 100)), true),
        ("\n", Difficulty::Easy((1, 100)), true),
        ("hard\n", Difficulty::Easy((1, 100)), true),
    ];
    for (line, tier, fell_back) in cases {
        for _ in 0..50 {
            let mut m = GameManager::new(TimeSpan::from_secs(10));
            let chosen = m.choose_difficulty(line);
            assert_eq!(chosen, Selection { difficulty: tier, fell_back });
            assert_eq!(m.game.difficulty, tier);
            assert_eq!(m.game.range, tier.range());
            let (lo, hi) = tier.range();
            assert!(lo <= m.game.secret_number && m.game.secret_number <= hi);
            assert_eq!(m.phase, Phase::AwaitingGuess);
            assert_eq!(m.guesses, 0);
            assert_eq!(m.score, Score { points: 0, multiplier: 1 });
        }
    }
}

#[test]
fn low_high_then_right_wins_with_eighty() {
    let mut m = session_with_secret(50);
    let mut printed: Vec<String> = Vec::new();
    for (line, at) in [("30\n", 1), ("70\n", 2), ("50\n", 4)] {
        assert!(!m.check_time(TimeSpan::from_secs(at)));
        let reply = m.guess(line, TimeSpan::new(at, 250_000_000).unwrap());
        printed.push(reply_message(reply).unwrap());
        if at == 4 {
            assert_eq!(reply, Reply::Win { score: 80, seconds: 4 });
        }
    }
    assert_eq!(
        printed,
        vec![
            "Too low!".to_string(),
            "Too high!".to_string(),
            "You win! Your score is 80 and you took 4 seconds to complete the game.".to_string(),
        ]
    );
    assert_eq!(m.phase, Phase::Won);
    assert_eq!(m.outcome(), Some(GameOutcome::Win));
    assert_eq!(m.guesses, 2);
    assert_eq!(m.score, Score { points: 80, multiplier: 1 });
}

#[test]
fn a_first_guess_that_is_right_scores_nothing() {
    let mut m = session_with_secret(50);
    let reply = m.guess("50", TimeSpan::from_secs(0));
    assert_eq!(reply, Reply::Win { score: 0, seconds: 0 });
    assert_eq!(m.outcome(), Some(GameOutcome::Win));
}

#[test]
fn score_follows_the_count_of_misses() {
    let mut m = session_with_secret(50);
    let multipliers: [u32; 14] = [1, 1, 1, 1, 2, 2, 2, 2, 2, 3, 3, 3, 3, 3];
    let mut count: u32 = 1;
    while count <= 14 {
        let line = if count % 2 == 0 { "99" } else { "1" };
        let reply = m.guess(line, TimeSpan::from_secs(1));
        assert_eq!(reply, if count % 2 == 0 { Reply::TooHigh } else { Reply::TooLow });
        assert_eq!(m.guesses, count);
        assert_eq!(m.score.points, 100 - 10 * i64::from(count));
        assert_eq!(m.score.multiplier, multipliers[(count - 1) as usize]);
        assert_eq!(m.phase, Phase::AwaitingGuess);
        count += 1;
    }
    assert_eq!(m.score.points, -40);
}

#[test]
fn a_win_after_five_misses_doubles_the_points() {
    let mut m = session_with_secret(50);
    for _ in 0..5 {
        assert_eq!(m.guess("10", TimeSpan::from_secs(1)), Reply::TooLow);
    }
    assert_eq!(m.guess("50", TimeSpan::from_secs(9)), Reply::Win { score: 100, seconds: 9 });
}

#[test]
fn a_win_after_twelve_misses_is_negative() {
    let mut m = session_with_secret(50);
    for _ in 0..12 {
        assert_eq!(m.guess("60", TimeSpan::from_secs(1)), Reply::TooHigh);
    }
    let reply = m.guess("50", TimeSpan::from_secs(2));
    assert_eq!(reply, Reply::Win { score: -60, seconds: 2 });
    assert_eq!(
        reply_message(reply).unwrap(),
        "You win! Your score is -60 and you took 2 seconds to complete the game."
    );
}

#[test]
fn time_up_loses_and_reports_no_score() {
    let mut m = session_with_secret(50);
    assert!(!m.check_time(TimeSpan::new(9, 999_999_999).unwrap()));
    assert_eq!(m.guess("30", TimeSpan::from_secs(9)), Reply::TooLow);
    assert!(m.check_time(TimeSpan::from_secs(10)));
    assert_eq!(m.phase, Phase::Lost);
    assert_eq!(m.outcome(), Some(GameOutcome::Lose));
    let before = (m.guesses, m.score);
    let reply = m.guess("50", TimeSpan::from_secs(11));
    assert_eq!(reply, Reply::Over);
    assert_eq!(reply_message(reply), None);
    assert_eq!(m.apply_verdict(GuessResult::Correct, TimeSpan::from_secs(12)), Reply::Over);
    assert_eq!(m.phase, Phase::Lost);
    assert_eq!((m.guesses, m.score), before);
    assert!(!m.check_time(TimeSpan::from_secs(20)));
    assert_eq!(m.outcome(), Some(GameOutcome::Lose));
}

#[test]
fn a_zero_time_limit_loses_at_once() {
    let mut m = GameManager::new(TimeSpan::from_secs(0));
    assert!(m.check_time(TimeSpan::from_secs(0)));
    assert_eq!(m.outcome(), Some(GameOutcome::Lose));
}

#[test]
fn a_guess_after_the_limit_still_counts_until_the_clock_is_checked() {
    let mut m = session_with_secret(50);
    assert!(!m.check_time(TimeSpan::from_secs(9)));
    let reply = m.guess("50", TimeSpan::from_secs(30));
    assert_eq!(reply, Reply::Win { score: 0, seconds: 30 });
}

#[test]
fn a_won_game_ignores_the_clock_and_later_guesses() {
    let mut m = session_with_secret(50);
    assert_eq!(m.guess("50", TimeSpan::from_secs(1)), Reply::Win { score: 0, seconds: 1 });
    assert!(!m.check_time(TimeSpan::from_secs(100)));
    assert_eq!(m.phase, Phase::Won);
    assert_eq!(m.guess("30", TimeSpan::from_secs(2)), Reply::Over);
    assert_eq!(m.guesses, 0);
}

#[test]
fn a_malformed_guess_is_treated_as_a_low_one() {
    let mut a = session_with_secret(50);
    let mut b = session_with_secret(50);
    let ra = a.guess("abc\n", TimeSpan::from_secs(1));
    let rb = b.guess("30\n", TimeSpan::from_secs(1));
    assert_eq!(ra, Reply::TooLow);
    assert_eq!(ra, rb);
    assert_eq!(a.guesses, b.guesses);
    assert_eq!(a.guesses, 1);
    assert_eq!(a.score, b.score);
    assert_eq!(a.score, Score { points: 90, multiplier: 1 });
    assert_eq!(a.phase, b.phase);
    assert_eq!(reply_message(ra).unwrap(), "Too low!");
}

#[test]
fn apply_verdict_takes_each_judgement() {
    let mut m = session_with_secret(50);
    assert_eq!(m.apply_verdict(GuessResult::TooHigh, TimeSpan::from_secs(1)), Reply::TooHigh);
    assert_eq!(m.apply_verdict(GuessResult::TooLow, TimeSpan::from_secs(1)), Reply::TooLow);
    assert_eq!(m.score, Score { points: 80, multiplier: 1 });
    assert_eq!(
        m.apply_verdict(GuessResult::Correct, TimeSpan::new(5, 900_000_000).unwrap()),
        Reply::Win { score: 80, seconds: 5 }
    );
}

#[test]
fn the_standard_time_limit_is_ten_seconds() {
    assert_eq!(TIME_LIMIT_SECONDS, 10);
    let m = GameManager::new(TimeSpan::from_secs(TIME_LIMIT_SECONDS));
    assert_eq!(m.time_limit, TimeSpan { secs: 10, nanos: 0 });
}
