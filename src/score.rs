use vstd::prelude::*;
use crate::consts::{MAX_POINTS, MIN_POINTS, TARGET_POSITION, THRESHOLD};

verus! {

/// Whether a note at `x` lies inside the hit window, bounds included.
pub open spec fn spec_in_window(x: int) -> bool {
    TARGET_POSITION - THRESHOLD <= x <= TARGET_POSITION + THRESHOLD
}

pub open spec fn spec_abs(x: int) -> int {
    if x < 0 {
        -x
    } else {
        x
    }
}

/// Bonus for a press `distance` micro-pixels away from the target: it
/// falls linearly from `MAX_POINTS` on the target and is never below
/// `MIN_POINTS`.
pub open spec fn spec_hit_points(distance: int) -> int {
    let a = spec_abs(distance);
    if a >= THRESHOLD {
        MIN_POINTS as int
    } else {
        let p = (MAX_POINTS * (THRESHOLD - a)) / THRESHOLD as int;
        if p < MIN_POINTS {
            MIN_POINTS as int
        } else {
            p
        }
    }
}

/// Whether a note at `x` lies inside the hit window, bounds included.
pub fn in_window(x: i64) -> (r: bool)
    ensures
        r == spec_in_window(x as int),
{
    TARGET_POSITION - THRESHOLD <= x && x <= TARGET_POSITION + THRESHOLD
}

/// Bonus for a press `distance` micro-pixels away from the target.
pub fn hit_points(distance: i64) -> (r: u64)
    ensures
        r == spec_hit_points(distance as int),
        MIN_POINTS <= r <= MAX_POINTS,
{
    if distance >= THRESHOLD || distance <= -THRESHOLD {
        return MIN_POINTS;
    }
    let a: i64 = if distance < 0 {
        -distance
    } else {
        distance
    };
    let p: i64 = (100 * (THRESHOLD - a)) / THRESHOLD;
    assert(p <= 100) by (nonlinear_arith)
        requires
            0 <= a,
            p == (100 * (THRESHOLD - a)) / THRESHOLD as int,
            THRESHOLD > 0,
    ;
    assert(p >= 0) by (nonlinear_arith)
        requires
            a < THRESHOLD,
            p == (100 * (THRESHOLD - a)) / THRESHOLD as int,
            THRESHOLD > 0,
    ;
    if p < 10 {
        MIN_POINTS
    } else {
        p as u64
    }
}

/// What the score state holds.
pub struct ScoreView {
    pub score: nat,
    pub corrects: nat,
    pub fails: nat,
}

/// Running score of a play session: total bonus, hits and misses.
#[derive(Clone, Copy, Debug, PartialEq, Eq, Structural)]
pub struct ScoreResource {
    score: u128,
    corrects: usize,
    fails: usize,
}

impl View for ScoreResource {
    type V = ScoreView;

    closed spec fn view(&self) -> ScoreView {
        ScoreView {
            score: self.score as nat,
            corrects: self.corrects as nat,
            fails: self.fails as nat,
        }
    }
}

impl ScoreResource {
    /// Zero points, no hits, no misses.
    pub fn new() -> (r: ScoreResource)
        ensures
            r@ == (ScoreView { score: 0, corrects: 0, fails: 0 }),
    {
        ScoreResource { score: 0, corrects: 0, fails: 0 }
    }

    /// Counts a hit `distance` micro-pixels off the target and returns the
    /// bonus it earned.
    pub fn increase_correct(&mut self, distance: i64) -> (points: u64)
        requires
            old(self)@.corrects < usize::MAX,
            old(self)@.score + MAX_POINTS <= u128::MAX,
        ensures
            points == spec_hit_points(distance as int),
            final(self)@ == (ScoreView {
                score: old(self)@.score + points as nat,
                corrects: old(self)@.corrects + 1,
                fails: old(self)@.fails,
            }),
    {
        let points = hit_points(distance);
        self.corrects = self.corrects + 1;
        self.score = self.score + points as u128;
        points
    }

    /// Counts a miss.
    pub fn increase_fails(&mut self)
        requires
            old(self)@.fails < usize::MAX,
        ensures
            final(self)@ == (ScoreView {
                score: old(self)@.score,
                corrects: old(self)@.corrects,
                fails: old(self)@.fails + 1,
            }),
    {
        self.fails = self.fails + 1;
    }

    /// Total bonus so far.
    pub fn score(&self) -> (r: u128)
        ensures
            r == self@.score,
    {
        self.score
    }

    /// Number of hits so far.
    pub fn corrects(&self) -> (r: usize)
        ensures
            r == self@.corrects,
    {
        self.corrects
    }

    /// Number of misses so far.
    pub fn fails(&self) -> (r: usize)
        ensures
            r == self@.fails,
    {
        self.fails
    }
}

/// A press exactly on the target earns the largest bonus; any press in the
/// window earns a positive bonus that never grows with the distance.
pub proof fn lemma_bonus_curve(d1: int, d2: int)
    requires
        spec_abs(d1) <= spec_abs(d2),
    ensures
        spec_hit_points(0) == MAX_POINTS,
        spec_hit_points(d2) <= spec_hit_points(d1),
        MIN_POINTS <= spec_hit_points(d1) <= MAX_POINTS,
{
    assert((100 * THRESHOLD) / THRESHOLD as int == 100) by (nonlinear_arith);
    let a1 = spec_abs(d1);
    let a2 = spec_abs(d2);
    if a2 < THRESHOLD {
        assert((100 * (THRESHOLD - a2)) / THRESHOLD as int <= (100 * (THRESHOLD - a1)) / THRESHOLD as int)
            by (nonlinear_arith)
            requires
                0 <= a1 <= a2,
        {
            vstd::arithmetic::div_mod::lemma_div_is_ordered(
                100 * (THRESHOLD - a2),
                100 * (THRESHOLD - a1),
                THRESHOLD as int,
            );
        }
    }
    if a1 < THRESHOLD {
        assert((100 * (THRESHOLD - a1)) / THRESHOLD as int <= 100) by (nonlinear_arith)
            requires
                0 <= a1,
        {
            vstd::arithmetic::div_mod::lemma_div_is_ordered(
                100 * (THRESHOLD - a1),
                100 * THRESHOLD,
                THRESHOLD as int,
            );
        }
    }
}

/// The hit window holds both of its bounds and nothing beyond them.
pub proof fn lemma_window_bounds(e: int)
    requires
        e > 0,
    ensures
        spec_in_window(TARGET_POSITION as int),
        spec_in_window(TARGET_POSITION + THRESHOLD),
        spec_in_window(TARGET_POSITION - THRESHOLD),
        !spec_in_window(TARGET_POSITION + THRESHOLD + e),
        !spec_in_window(TARGET_POSITION - THRESHOLD - e),
{
}

} // verus!
