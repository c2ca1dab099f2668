//! Aggregate score of a play session.
use vstd::prelude::*;

use crate::consts::THRESHOLD;

verus! {

/// Points for a hit at signed distance `distance` (micro-pixels) from the
/// target: `100 * (threshold - |distance|) / threshold`, rounded down and
/// held between 10 and 100.
pub open spec fn points_for(distance: int) -> int {
    let a = if distance < 0 {
        -distance
    } else {
        distance
    };
    let p = (THRESHOLD - a) * 100 / (THRESHOLD as int);
    if p < 10 {
        10
    } else {
        p
    }
}

/// Points for a hit at signed distance `distance` from the target.
pub fn hit_points(distance: i64) -> (r: usize)
    ensures
        r == points_for(distance as int),
        10 <= r <= 100,
{
    let d = distance as i128;
    let a: i128 = if d < 0 {
        -d
    } else {
        d
    };
    let t = THRESHOLD as i128;
    let p: i128 = if a >= t {
        0
    } else {
        (t - a) * 100 / t
    };
    assert((a as int) >= (t as int) ==> ((t as int) - (a as int)) * 100 / (t as int) <= 0)
        by (nonlinear_arith)
        requires
            t == THRESHOLD,
    ;
    assert((a as int) < (t as int) ==> 0 <= ((t as int) - (a as int)) * 100 / (t as int)
        <= 100) by (nonlinear_arith)
        requires
            t == THRESHOLD,
            a >= 0,
    ;
    if p < 10 {
        10
    } else {
        p as usize
    }
}

/// `a + b`, held at `usize::MAX`.
pub open spec fn sat_add(a: int, b: int) -> int {
    if a + b > usize::MAX {
        usize::MAX as int
    } else {
        a + b
    }
}

/// Hit count, miss count and accumulated points. Counters stop at
/// `usize::MAX` instead of wrapping.
#[derive(Debug, Clone, Copy, PartialEq, Eq, Structural)]
pub struct ScoreResource {
    corrects: usize,
    fails: usize,
    score: usize,
}

impl ScoreResource {
    pub closed spec fn corrects_spec(&self) -> usize {
        self.corrects
    }

    pub closed spec fn fails_spec(&self) -> usize {
        self.fails
    }

    pub closed spec fn score_spec(&self) -> usize {
        self.score
    }

    /// A score with no hits, no misses and no points.
    pub fn new() -> (r: ScoreResource)
        ensures
            r.corrects_spec() == 0,
            r.fails_spec() == 0,
            r.score_spec() == 0,
    {
        ScoreResource { corrects: 0, fails: 0, score: 0 }
    }

    /// Records a hit at `distance` from the target and returns its points.
    pub fn increase_correct(&mut self, distance: i64) -> (r: usize)
        ensures
            r == points_for(distance as int),
            10 <= r <= 100,
            final(self).corrects_spec() == sat_add(old(self).corrects_spec() as int, 1),
            final(self).score_spec() == sat_add(old(self).score_spec() as int, r as int),
            final(self).fails_spec() == old(self).fails_spec(),
    {
        self.corrects = self.corrects.saturating_add(1);
        let points = hit_points(distance);
        self.score = self.score.saturating_add(points);
        points
    }

    /// Records a miss.
    pub fn increase_fails(&mut self)
        ensures
            final(self).fails_spec() == sat_add(old(self).fails_spec() as int, 1),
            final(self).corrects_spec() == old(self).corrects_spec(),
            final(self).score_spec() == old(self).score_spec(),
    {
        self.fails = self.fails.saturating_add(1);
    }

    /// Accumulated points.
    pub fn score(&self) -> (r: usize)
        ensures
            r == self.score_spec(),
    {
        self.score
    }

    /// Number of hits.
    pub fn corrects(&self) -> (r: usize)
        ensures
            r == self.corrects_spec(),
    {
        self.corrects
    }

    /// Number of misses.
    pub fn fails(&self) -> (r: usize)
        ensures
            r == self.fails_spec(),
    {
        self.fails
    }
}

} // verus!
