//! Timing and scoring core of a four-lane rhythm game: a controlled clock,
//! the chart model and loader, the cue scheduler, the motion model of active
//! cues, and hit/miss judgment with scoring.
pub mod arrows;
pub mod consts;
pub mod map_maker;
pub mod score;
pub mod session;
pub mod shaders;
pub mod time;
pub mod types;
