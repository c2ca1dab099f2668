//! Fixed geometry and timing of the playfield.
//!
//! Lengths are in micro-pixels, times in microseconds, angles in
//! microradians and scales in millionths, so that every quantity of the
//! game is an exact integer.
use vstd::prelude::*;

verus! {

/// Height of the game window (600 px).
pub const WINDOW_HEIGHT: i64 = 600_000_000;

/// Base travel speed of a cue, in pixels per second.
pub const BASE_SPEED: u64 = 200;

/// Travel-axis coordinate at which a cue appears (-400 px).
pub const SPAWN_POSITION: i64 = -400_000_000;

/// Travel-axis coordinate of the target zone (200 px).
pub const TARGET_POSITION: i64 = 200_000_000;

/// Radius of the hit window around the target (20 px).
pub const THRESHOLD: i64 = 20_000_000;

/// Distance from the spawn position to the target (600 px).
pub const DISTANCE: i64 = 600_000_000;

/// Overshoot past the hit window below which a cue is not eased (0.02 px).
pub const EASE_EPSILON: i64 = 20_000;

/// Scale of a cue that has not been eased (1.0).
pub const FULL_SCALE: i64 = 1_000_000;

/// Smallest scale an eased cue shrinks to (0.2).
pub const MIN_SCALE: i64 = 200_000;

/// Session time at which the song starts playing (3 s).
pub const SONG_START_DELAY: u64 = 3_000_000;

} // verus!
