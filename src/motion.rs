use vstd::prelude::*;
use crate::consts::{DECAY_START, FULL_SCALE, MIN_SCALE, MISS_POSITION, SPAWN_POSITION};
use crate::lane::{
    Directions, Speed, spec_lane_rotation, spec_lane_y, spec_multiplier, spec_velocity,
};

verus! {

/// Horizontal position of a note of tier `s` that has been in flight for
/// `age` microseconds.
pub open spec fn spec_position(s: Speed, age: int) -> int {
    SPAWN_POSITION + spec_velocity(s) * age
}

/// How far `x` lies past the start of the decay band (zero before it).
pub open spec fn spec_overshoot(x: int) -> int {
    if x > DECAY_START {
        x - DECAY_START
    } else {
        0
    }
}

/// How far a note of tier `s` at `x` has fallen below its row: the pull
/// rate is twice the overshoot, and this is its exact integral over the
/// time since the note passed the decay band.
pub open spec fn spec_drop(s: Speed, x: int) -> int {
    let d = spec_overshoot(x);
    (d * d) / (1_000_000 * spec_velocity(s))
}

/// Size of a note at `x`, in thousandths: it shrinks with the overshoot and
/// never below `MIN_SCALE`.
pub open spec fn spec_scale(x: int) -> int {
    let s = FULL_SCALE - (10 * spec_overshoot(x)) / 3_000_000;
    if s < MIN_SCALE {
        MIN_SCALE as int
    } else {
        s
    }
}

/// Orientation (micro-radians) of a note of lane `d` and tier `s` at `x`:
/// past the decay band it spins away from the target, in proportion to the
/// overshoot and the tier's multiplier.
pub open spec fn spec_note_rotation(d: Directions, s: Speed, x: int) -> int {
    spec_lane_rotation(d) - (spec_overshoot(x) * spec_multiplier(s)) / 46_000
}

/// A note in flight. Its position and look follow from its tier and its age
/// alone.
#[derive(Clone, Copy, Debug, PartialEq, Eq, Structural)]
pub struct ActiveNote {
    pub lane: Directions,
    pub speed: Speed,
    /// Microseconds since the start of the frame that activated it.
    pub age: u64,
}

/// Where a note of tier `s` and age `age` stands after `dt` more microseconds.
pub fn reach(s: Speed, age: u64, dt: u64) -> (x: i128)
    ensures
        x == spec_position(s, age + dt),
{
    let v = s.value();
    let t: i128 = age as i128 + dt as i128;
    assert((v as i128) * t <= 300 * 40_000_000_000_000_000_000) by (nonlinear_arith)
        requires
            0 <= v <= 300,
            0 <= t <= 40_000_000_000_000_000_000,
    ;
    SPAWN_POSITION as i128 + (v as i128) * t
}

impl ActiveNote {
    /// The note has not reached the miss line.
    pub open spec fn wf(&self) -> bool {
        spec_position(self.speed, self.age as int) < MISS_POSITION
    }

    pub open spec fn spec_x(&self) -> int {
        spec_position(self.speed, self.age as int)
    }

    /// A note just activated for lane `lane` and tier `speed`.
    pub fn spawn(lane: Directions, speed: Speed) -> (n: ActiveNote)
        ensures
            n == (ActiveNote { lane, speed, age: 0 }),
            n.wf(),
            n.spec_x() == SPAWN_POSITION,
    {
        ActiveNote { lane, speed, age: 0 }
    }

    /// Horizontal position, in micro-pixels.
    pub fn x(&self) -> (r: i64)
        requires
            self.wf(),
        ensures
            r == self.spec_x(),
            SPAWN_POSITION <= r < MISS_POSITION,
    {
        let v = self.speed.value();
        let age = self.age;
        assert(age < 4_000_000) by (nonlinear_arith)
            requires
                v >= 200,
                SPAWN_POSITION + v * age < MISS_POSITION,
        ;
        SPAWN_POSITION + v * (age as i64)
    }

    /// Vertical position, in micro-pixels.
    pub fn y(&self) -> (r: i64)
        requires
            self.wf(),
        ensures
            r == spec_lane_y(self.lane) - spec_drop(self.speed, self.spec_x()),
    {
        let x = self.x();
        let d: i64 = if x > DECAY_START {
            x - DECAY_START
        } else {
            0
        };
        let v = self.speed.value();
        assert(d * d < 40_000_000_000_000_000) by (nonlinear_arith)
            requires
                0 <= d < 200_000_000,
        ;
        assert(0 <= (d * d) / (1_000_000 * v) <= d * d) by (nonlinear_arith)
            requires
                d * d >= 0,
                v >= 200,
        ;
        self.lane.y() - (d * d) / (1_000_000 * v)
    }

    /// Size, in thousandths.
    pub fn scale(&self) -> (r: i64)
        requires
            self.wf(),
        ensures
            r == spec_scale(self.spec_x()),
            MIN_SCALE <= r <= FULL_SCALE,
    {
        let x = self.x();
        let d: i64 = if x > DECAY_START {
            x - DECAY_START
        } else {
            0
        };
        let s = FULL_SCALE - (10 * d) / 3_000_000;
        if s < MIN_SCALE {
            MIN_SCALE
        } else {
            s
        }
    }

    /// Orientation, in micro-radians.
    pub fn rotation(&self) -> (r: i64)
        requires
            self.wf(),
        ensures
            r == spec_note_rotation(self.lane, self.speed, self.spec_x()),
    {
        let x = self.x();
        let d: i64 = if x > DECAY_START {
            x - DECAY_START
        } else {
            0
        };
        let m = self.speed.multiplier();
        assert(0 <= d * m <= 200_000_000 * 150) by (nonlinear_arith)
            requires
                0 <= d < 200_000_000,
                0 <= m <= 150,
        ;
        self.lane.rotation() - (d * m) / 46_000
    }
}

/// Two notes of one lane and tier with the same age stand at the same place
/// and look the same: the motion depends on nothing else.
pub proof fn lemma_motion_depends_on_age(a: ActiveNote, b: ActiveNote)
    requires
        a.lane == b.lane,
        a.speed == b.speed,
        a.age == b.age,
    ensures
        a.spec_x() == b.spec_x(),
        spec_drop(a.speed, a.spec_x()) == spec_drop(b.speed, b.spec_x()),
        spec_scale(a.spec_x()) == spec_scale(b.spec_x()),
        spec_note_rotation(a.lane, a.speed, a.spec_x()) == spec_note_rotation(
            b.lane,
            b.speed,
            b.spec_x(),
        ),
{
}

/// Before the decay band a note only moves sideways at its tier's speed;
/// its row, size and orientation stay those of its lane.
pub proof fn lemma_no_decay_before_band(n: ActiveNote)
    requires
        n.spec_x() <= DECAY_START,
    ensures
        spec_drop(n.speed, n.spec_x()) == 0,
        spec_scale(n.spec_x()) == FULL_SCALE,
        spec_note_rotation(n.lane, n.speed, n.spec_x()) == spec_lane_rotation(n.lane),
{
}

/// Past the decay band a note shrinks as it goes on, never below the floor.
pub proof fn lemma_scale_shrinks(x1: int, x2: int)
    requires
        x1 <= x2,
    ensures
        spec_scale(x2) <= spec_scale(x1),
        MIN_SCALE <= spec_scale(x2),
{
    let d1 = spec_overshoot(x1);
    let d2 = spec_overshoot(x2);
    assert(d1 <= d2);
    vstd::arithmetic::div_mod::lemma_div_is_ordered(10 * d1, 10 * d2, 3_000_000);
}

} // verus!
