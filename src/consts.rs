use vstd::prelude::*;

verus! {

/// Microseconds in one second.
pub const MICROS_PER_SECOND: i64 = 1_000_000;

/// Time between the start of a session and the start of the song.
pub const LEAD_IN_US: i64 = 3_000_000;

/// Horizontal coordinate (micro-pixels) at which a note appears.
pub const SPAWN_POSITION: i64 = -400_000_000;

/// Horizontal coordinate (micro-pixels) of the target markers.
pub const TARGET_POSITION: i64 = 200_000_000;

/// Half width (micro-pixels) of the hit window around the target.
pub const THRESHOLD: i64 = 20_000_000;

/// A note that reaches this coordinate unhit counts as a miss.
pub const MISS_POSITION: i64 = 2 * TARGET_POSITION;

/// Past this coordinate a note starts to fall away.
pub const DECAY_START: i64 = TARGET_POSITION + THRESHOLD;

/// Bonus for a press exactly on the target.
pub const MAX_POINTS: u64 = 100;

/// Bonus for any other press inside the hit window, at least.
pub const MIN_POINTS: u64 = 10;

/// Full size of a note, in thousandths.
pub const FULL_SCALE: i64 = 1000;

/// A falling note never shrinks below this size, in thousandths.
pub const MIN_SCALE: i64 = 200;

/// Largest clock reading, in microseconds, that a session accepts.
pub const MAX_CLOCK_US: u64 = 9_223_372_036_854_775_807;

} // verus!
