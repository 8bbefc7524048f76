//! The score: points that fall with every miss and a multiplier that
//! rises at the fifth and the tenth.

use vstd::prelude::*;

verus! {

/// Points and multiplier of a game in progress.
#[derive(Clone, Copy, Debug, PartialEq, Eq, Structural)]
pub struct Score {
    pub points: i64,
    pub multiplier: u32,
}

/// The points that stand after `count` misses.
pub open spec fn points_after(count: int) -> int {
    100 - 10 * count
}

/// The multiplier after the miss that brought the count to `count`,
/// given the multiplier before it: only the counts 5 and 10 change it.
pub open spec fn stepped_multiplier(current: u32, count: int) -> u32 {
    if count == 10 {
        3
    } else if count == 5 {
        2
    } else {
        current
    }
}

/// The multiplier of a game in which the count rose one miss at a time.
pub open spec fn tier_multiplier(count: int) -> u32 {
    if count < 5 {
        1
    } else if count < 10 {
        2
    } else {
        3
    }
}

impl Score {
    /// The multiplier is 1, 2 or 3, and the points are those of some
    /// count of misses that fits in 32 bits, or of none.
    pub open spec fn wf(self) -> bool {
        &&& 1 <= self.multiplier <= 3
        &&& points_after(u32::MAX as int) <= self.points <= 100
    }

    /// The final score that a win would bring: points times multiplier.
    pub open spec fn spec_total(self) -> int {
        self.points * self.multiplier
    }

    /// The score at the start of a game: no points, multiplier 1.
    pub fn new() -> (s: Score)
        ensures
            s == (Score { points: 0, multiplier: 1 }),
            s.wf(),
    {
        Score { points: 0, multiplier: 1 }
    }

    /// Takes note of a miss that brought the count of misses to `count`.
    /// The multiplier becomes 3 where `count` is exactly 10 and 2 where it
    /// is exactly 5, and stays otherwise; then the points become
    /// `100 - 10 * count`, which is negative from the eleventh miss on.
    pub fn record_miss(&mut self, count: u32)
        requires
            old(self).wf(),
        ensures
            final(self).multiplier == stepped_multiplier(old(self).multiplier, count as int),
            final(self).points == points_after(count as int),
            final(self).wf(),
    {
        if count == 10 {
            self.multiplier = 3;
        } else if count == 5 {
            self.multiplier = 2;
        }
        self.points = 100 - 10 * (count as i64);
    }

    /// The final score: points times multiplier.
    pub fn total(&self) -> (r: i64)
        requires
            self.wf(),
        ensures
            r == self.spec_total(),
    {
        assert(self.points * self.multiplier >= -3 * 0x1_0000_0000_0000
            && self.points * self.multiplier <= 300) by (nonlinear_arith)
            requires
                1 <= self.multiplier <= 3,
                -0x1_0000_0000_0000 <= self.points <= 100,
        ;
        self.points * (self.multiplier as i64)
    }
}

/// A count that rises by one from a multiplier in step with it leaves the
/// multiplier in step: 1 below five misses, 2 from five to nine, 3 from
/// ten on.
pub proof fn lemma_single_steps_keep_tier(count: int)
    requires
        count >= 1,
    ensures
        stepped_multiplier(tier_multiplier(count - 1), count) == tier_multiplier(count),
{
}

/// A miss whose count is neither 5 nor 10 leaves the multiplier as it
/// was, whatever it was: a count that skips 5 keeps the multiplier of 4.
pub proof fn lemma_other_counts_keep_multiplier(current: u32, count: int)
    requires
        count != 5,
        count != 10,
    ensures
        stepped_multiplier(current, count) == current,
{
}

} // verus!
