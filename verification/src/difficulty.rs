//! The difficulty tiers and the menu choice that selects one.

use crate::text::{chars_of, trim_span, trimmed};
use vstd::prelude::*;

verus! {

/// A tier of the game. Each carries the inclusive range, low bound then
/// high bound, from which the secret is drawn.
#[derive(Clone, Copy, Debug, PartialEq, Eq)]
pub enum Difficulty {
    Easy((u32, u32)),
    Medium((u32, u32)),
    Hard((u32, u32)),
}

/// What a menu line selected.
#[derive(Clone, Copy, Debug, PartialEq, Eq)]
pub struct Selection {
    /// The tier to play.
    pub difficulty: Difficulty,
    /// Whether the line named no tier, so that the easy one was taken
    /// and the player is owed a notice.
    pub fell_back: bool,
}

/// Whether `range` has at least one number in it.
pub open spec fn valid_range(range: (u32, u32)) -> bool {
    range.0 <= range.1
}

/// Whether `n` lies in `range`, bounds included.
pub open spec fn in_range(n: u32, range: (u32, u32)) -> bool {
    range.0 <= n <= range.1
}

/// The easy tier as the menu offers it.
pub open spec fn easy() -> Difficulty {
    Difficulty::Easy((1u32, 100u32))
}

/// The medium tier as the menu offers it.
pub open spec fn medium() -> Difficulty {
    Difficulty::Medium((1u32, 500u32))
}

/// The hard tier as the menu offers it.
pub open spec fn hard() -> Difficulty {
    Difficulty::Hard((1u32, 1000u32))
}

/// The tier that a menu line names: the trimmed line must be exactly
/// `1`, `2` or `3`.
pub open spec fn named_tier(line: Seq<char>) -> Option<Difficulty> {
    let t = trimmed(line);
    if t.len() != 1 {
        None
    } else if t[0] == '1' {
        Some(easy())
    } else if t[0] == '2' {
        Some(medium())
    } else if t[0] == '3' {
        Some(hard())
    } else {
        None
    }
}

/// The outcome of a menu line: the tier it names, or the easy tier
/// with a notice where it names none.
pub open spec fn selection_of(line: Seq<char>) -> Selection {
    match named_tier(line) {
        Some(d) => Selection { difficulty: d, fell_back: false },
        None => Selection { difficulty: easy(), fell_back: true },
    }
}

impl Difficulty {
    /// The range that this tier carries.
    pub open spec fn spec_range(self) -> (u32, u32) {
        match self {
            Difficulty::Easy(r) => r,
            Difficulty::Medium(r) => r,
            Difficulty::Hard(r) => r,
        }
    }

    /// The range that this tier carries.
    #[verifier::when_used_as_spec(spec_range)]
    pub fn range(self) -> (r: (u32, u32))
        ensures
            r == self.spec_range(),
    {
        match self {
            Difficulty::Easy(r) => r,
            Difficulty::Medium(r) => r,
            Difficulty::Hard(r) => r,
        }
    }
}

/// Maps a menu line to a tier. `1` is easy with 1 to 100, `2` medium
/// with 1 to 500, `3` hard with 1 to 1000; anything else, the empty line
/// included, falls back to easy.
pub fn select_difficulty(line: &str) -> (r: Selection)
    ensures
        r == selection_of(line@),
        valid_range(r.difficulty.spec_range()),
{
    let chars = chars_of(line);
    let (a, b) = trim_span(&chars);
    if b - a == 1 {
        let c: char = chars[a];
        assert(trimmed(line@)[0] == c);
        if c == '1' {
            return Selection { difficulty: Difficulty::Easy((1, 100)), fell_back: false };
        } else if c == '2' {
            return Selection { difficulty: Difficulty::Medium((1, 500)), fell_back: false };
        } else if c == '3' {
            return Selection { difficulty: Difficulty::Hard((1, 1000)), fell_back: false };
        }
    }
    Selection { difficulty: Difficulty::Easy((1, 100)), fell_back: true }
}

} // verus!
