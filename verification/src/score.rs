//! Points per judgment and the running score: a frame's judgments are
//! summed once per tick and added to a total that never decreases.

use vstd::prelude::*;

use crate::hit_score::HitResult;

verus! {

/// The point value of one judgment: a failure or a tick with no event is
/// worth nothing.
pub open spec fn points_spec(j: HitResult) -> int {
    match j {
        HitResult::NoHit => 0,
        HitResult::Miss => 0,
        HitResult::Hit50 => 50,
        HitResult::Hit100 => 100,
        HitResult::Hit300 => 300,
    }
}

/// The points of a whole frame: the sum of `points_spec` over its
/// judgments.
pub open spec fn total_points_spec(s: Seq<HitResult>) -> int
    decreases s.len(),
{
    if s.len() == 0 {
        0
    } else {
        total_points_spec(s.drop_last()) + points_spec(s.last())
    }
}

/// A frame's points lie between zero and 300 per judgment.
pub proof fn lemma_total_points_bounds(s: Seq<HitResult>)
    ensures
        0 <= total_points_spec(s) <= 300 * s.len(),
    decreases s.len(),
{
    if s.len() > 0 {
        lemma_total_points_bounds(s.drop_last());
    }
}

/// The point value of one judgment.
pub fn points_for(judgment: HitResult) -> (points: u32)
    ensures
        points == points_spec(judgment),
{
    match judgment {
        HitResult::Miss | HitResult::NoHit => 0,
        HitResult::Hit50 => 50,
        HitResult::Hit100 => 100,
        HitResult::Hit300 => 300,
    }
}

/// The running score: an unsigned accumulator that only ever grows.
pub struct ScoreAggregator {
    /// The score so far.
    pub total: u64,
}

impl ScoreAggregator {
    /// A fresh aggregator with nothing scored yet.
    pub fn new() -> (aggregator: ScoreAggregator)
        ensures
            aggregator.total == 0,
    {
        ScoreAggregator { total: 0 }
    }

    /// Adds one tick's worth of judgments: the returned delta is the sum
    /// of their point values, the total grows by exactly that delta, and
    /// in particular it never decreases.
    pub fn accumulate(&mut self, judgments: &Vec<HitResult>) -> (delta: u64)
        requires
            old(self).total + 300 * judgments@.len() <= u64::MAX,
        ensures
            delta == total_points_spec(judgments@),
            final(self).total == old(self).total + delta,
            old(self).total <= final(self).total,
    {
        proof {
            lemma_total_points_bounds(judgments@);
        }
        let mut delta: u64 = 0;
        let mut i: usize = 0;
        while i < judgments.len()
            invariant
                i <= judgments@.len(),
                delta == total_points_spec(judgments@.take(i as int)),
                old(self).total + 300 * judgments@.len() <= u64::MAX,
                *self == *old(self),
            decreases judgments@.len() - i,
        {
            proof {
                lemma_total_points_bounds(judgments@.take(i as int));
                assert(judgments@.take(i + 1).drop_last() == judgments@.take(i as int));
                assert(judgments@.take(i + 1).last() == judgments@[i as int]);
            }
            delta = delta + (points_for(judgments[i]) as u64);
            i = i + 1;
        }
        proof {
            assert(judgments@.take(judgments@.len() as int) == judgments@);
        }
        self.total = self.total + delta;
        delta
    }
}

} // verus!
