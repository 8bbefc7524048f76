//! The lines that the player reads.

use crate::manager::Reply;
use vstd::prelude::*;
use vstd::string::StringExecFns;

verus! {

/// The character that writes the digit `d`.
pub open spec fn digit_char(d: int) -> char {
    if d == 0 {
        '0'
    } else if d == 1 {
        '1'
    } else if d == 2 {
        '2'
    } else if d == 3 {
        '3'
    } else if d == 4 {
        '4'
    } else if d == 5 {
        '5'
    } else if d == 6 {
        '6'
    } else if d == 7 {
        '7'
    } else if d == 8 {
        '8'
    } else {
        '9'
    }
}

/// A natural number in decimal, without leading zeros.
pub open spec fn decimal_text(n: nat) -> Seq<char>
    decreases n,
{
    if n < 10 {
        seq![digit_char(n as int)]
    } else {
        decimal_text(n / 10) + seq![digit_char((n % 10) as int)]
    }
}

/// An integer in decimal, with a minus sign before a negative one.
pub open spec fn signed_text(n: int) -> Seq<char> {
    if n < 0 {
        seq!['-'] + decimal_text((-n) as nat)
    } else {
        decimal_text(n as nat)
    }
}

/// The opening line for a game of `seconds` seconds.
pub open spec fn banner_text(seconds: nat) -> Seq<char> {
    "Guess the number! in "@ + decimal_text(seconds) + " seconds"@
}

/// The line that reports a win.
pub open spec fn win_text(score: int, seconds: nat) -> Seq<char> {
    "You win! Your score is "@ + signed_text(score) + " and you took "@ + decimal_text(seconds)
        + " seconds to complete the game."@
}

/// The line that answers a guess; none once the game is over.
pub open spec fn reply_text(reply: Reply) -> Option<Seq<char>> {
    match reply {
        Reply::TooLow => Some("Too low!"@),
        Reply::TooHigh => Some("Too high!"@),
        Reply::Win { score, seconds } => Some(win_text(score as int, seconds as nat)),
        Reply::Over => None,
    }
}

/// The digit `d` as text.
fn digit_str(d: u64) -> (r: &'static str)
    requires
        d < 10,
    ensures
        r@ == seq![digit_char(d as int)],
{
    proof {
        reveal_strlit("0");
        reveal_strlit("1");
        reveal_strlit("2");
        reveal_strlit("3");
        reveal_strlit("4");
        reveal_strlit("5");
        reveal_strlit("6");
        reveal_strlit("7");
        reveal_strlit("8");
        reveal_strlit("9");
    }
    let r = if d == 0 {
        "0"
    } else if d == 1 {
        "1"
    } else if d == 2 {
        "2"
    } else if d == 3 {
        "3"
    } else if d == 4 {
        "4"
    } else if d == 5 {
        "5"
    } else if d == 6 {
        "6"
    } else if d == 7 {
        "7"
    } else if d == 8 {
        "8"
    } else {
        "9"
    };
    assert(r@ =~= seq![digit_char(d as int)]);
    r
}

/// Writes `n` in decimal.
pub fn decimal(n: u64) -> (r: String)
    ensures
        r@ == decimal_text(n as nat),
    decreases n,
{
    if n < 10 {
        String::from_str(digit_str(n))
    } else {
        let mut s = decimal(n / 10);
        s.append(digit_str(n % 10));
        s
    }
}

/// Writes `n` in decimal, with a minus sign where it is negative.
pub fn signed_decimal(n: i64) -> (r: String)
    ensures
        r@ == signed_text(n as int),
{
    if n < 0 {
        let magnitude: u64 = ((-(n + 1)) as u64) + 1;
        let digits = decimal(magnitude);
        let mut s = String::from_str("-");
        proof {
            reveal_strlit("-");
            assert("-"@ =~= seq!['-']);
        }
        s.append(digits.as_str());
        s
    } else {
        decimal(n as u64)
    }
}

/// The opening line: `Guess the number! in N seconds`.
pub fn banner(seconds: u64) -> (r: String)
    ensures
        r@ == banner_text(seconds as nat),
{
    let mut s = String::from_str("Guess the number! in ");
    s.append(decimal(seconds).as_str());
    s.append(" seconds");
    s
}

/// The heading of the menu.
pub fn menu_heading() -> (r: &'static str)
    ensures
        r@ == "Choose a difficulty level:"@,
{
    "Choose a difficulty level:"
}

/// The menu line of the easy tier.
pub fn menu_easy() -> (r: &'static str)
    ensures
        r@ == "1. Easy"@,
{
    "1. Easy"
}

/// The menu line of the medium tier.
pub fn menu_medium() -> (r: &'static str)
    ensures
        r@ == "2. Medium"@,
{
    "2. Medium"
}

/// The menu line of the hard tier.
pub fn menu_hard() -> (r: &'static str)
    ensures
        r@ == "3. Hard"@,
{
    "3. Hard"
}

/// The notice that the menu line named no tier.
pub fn fallback_notice() -> (r: &'static str)
    ensures
        r@ == "Invalid difficulty level, defaulting to easy"@,
{
    "Invalid difficulty level, defaulting to easy"
}

/// The request for a guess.
pub fn guess_prompt() -> (r: &'static str)
    ensures
        r@ == "Please input your guess."@,
{
    "Please input your guess."
}

/// The line that ends a lost game.
pub fn time_up() -> (r: &'static str)
    ensures
        r@ == "Time's up!"@,
{
    "Time's up!"
}

/// The line that reports a win with the given final score after
/// `seconds` whole seconds.
pub fn win_message(score: i64, seconds: u64) -> (r: String)
    ensures
        r@ == win_text(score as int, seconds as nat),
{
    let mut s = String::from_str("You win! Your score is ");
    s.append(signed_decimal(score).as_str());
    s.append(" and you took ");
    s.append(decimal(seconds).as_str());
    s.append(" seconds to complete the game.");
    s
}

/// The line that answers a guess: `Too low!`, `Too high!` or the report
/// of the win. A game that was over before the guess says nothing.
pub fn reply_message(reply: Reply) -> (r: Option<String>)
    ensures
        r is Some <==> reply_text(reply) is Some,
        r is Some ==> r->0@ == reply_text(reply)->0,
{
    match reply {
        Reply::TooLow => Some(String::from_str("Too low!")),
        Reply::TooHigh => Some(String::from_str("Too high!")),
        Reply::Win { score, seconds } => Some(win_message(score, seconds)),
        Reply::Over => None,
    }
}

} // verus!
