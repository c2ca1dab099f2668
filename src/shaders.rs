//! State behind the shader effects: the background quad that fills the
//! window, and the per-lane pulse after a correct hit.
use vstd::prelude::*;

use crate::arrows::{Outcome, Resolution};
use crate::types::{all_directions, Directions};

verus! {

/// Size of the game window, in pixels.
#[derive(Debug, Clone, Copy, PartialEq, Eq, Structural)]
pub struct WindowSize {
    pub width: u32,
    pub height: u32,
}

/// The background quad, scaled to cover the window.
#[derive(Debug, Clone, Copy, PartialEq, Eq, Structural)]
pub struct Background {
    pub scale_x: u32,
    pub scale_y: u32,
}

/// Inputs handed to a shader: session time in microseconds and the aspect
/// ratio of the window as `aspect_width : aspect_height`.
#[derive(Debug, Clone, Copy, PartialEq, Eq, Structural)]
pub struct ShaderInputs {
    pub time: u64,
    pub aspect_width: u32,
    pub aspect_height: u32,
}

/// The background for a window of size `window`, with its shader inputs
/// at time zero.
pub fn setup_background(window: &WindowSize) -> (r: (Background, ShaderInputs))
    ensures
        r.0 == (Background { scale_x: window.width, scale_y: window.height }),
        r.1 == (ShaderInputs { time: 0, aspect_width: window.width, aspect_height: window.height }),
{
    let background = Background { scale_x: window.width, scale_y: window.height };
    let inputs = ShaderInputs { time: 0, aspect_width: window.width, aspect_height: window.height };
    (background, inputs)
}

/// Follows the window's resize events: when there is any, every background
/// takes the size of the last one; otherwise nothing changes.
pub fn update_background_size(resize_events: &Vec<WindowSize>, backgrounds: &mut Vec<Background>)
    ensures
        final(backgrounds)@.len() == old(backgrounds)@.len(),
        resize_events@.len() == 0 ==> final(backgrounds)@ == old(backgrounds)@,
        resize_events@.len() > 0 ==> forall|i: int|
            0 <= i < final(backgrounds)@.len() ==> #[trigger] final(backgrounds)@[i] == (Background {
                scale_x: resize_events@.last().width,
                scale_y: resize_events@.last().height,
            }),
{
    let mut e: usize = 0;
    while e < resize_events.len()
        invariant
            0 <= e <= resize_events@.len(),
            backgrounds@.len() == old(backgrounds)@.len(),
            e == 0 ==> backgrounds@ == old(backgrounds)@,
            e > 0 ==> forall|i: int|
                0 <= i < backgrounds@.len() ==> #[trigger] backgrounds@[i] == (Background {
                    scale_x: resize_events@[e - 1].width,
                    scale_y: resize_events@[e - 1].height,
                }),
        decreases resize_events.len() - e,
    {
        let size = resize_events[e];
        let mut i: usize = 0;
        while i < backgrounds.len()
            invariant
                0 <= i <= backgrounds@.len(),
                backgrounds@.len() == old(backgrounds)@.len(),
                forall|j: int|
                    0 <= j < i ==> #[trigger] backgrounds@[j] == (Background {
                        scale_x: size.width,
                        scale_y: size.height,
                    }),
            decreases backgrounds.len() - i,
        {
            backgrounds.set(i, Background { scale_x: size.width, scale_y: size.height });
            i += 1;
        }
        e += 1;
    }
}

/// A correct hit in a lane, worth `points`.
#[derive(Debug, Clone, Copy, PartialEq, Eq, Structural)]
pub struct CorrectArrowEvent {
    pub direction: Directions,
    pub points: usize,
}

/// The target of one lane, which pulses after a correct hit.
#[derive(Debug, Clone, Copy, PartialEq, Eq, Structural)]
pub struct TargetArrowSparkle {
    pub direction: Directions,
}

/// When the lane's last correct hit happened (microseconds of session time;
/// `None` before the first) and what it was worth.
#[derive(Debug, Clone, Copy, PartialEq, Eq, Structural)]
pub struct TimeSinceLastCorrect {
    pub last_time: Option<u64>,
    pub points: usize,
}

/// The targets of the four lanes, top to bottom, none of which has pulsed.
pub fn setup_target_arrows() -> (r: Vec<(TargetArrowSparkle, TimeSinceLastCorrect)>)
    ensures
        r@.len() == 4,
        forall|i: int|
            0 <= i < 4 ==> #[trigger] r@[i] == (
                TargetArrowSparkle { direction: all_directions()[i] },
                TimeSinceLastCorrect { last_time: None, points: 0 },
            ),
{
    let directions = Directions::directions();
    let mut r: Vec<(TargetArrowSparkle, TimeSinceLastCorrect)> = Vec::new();
    let mut i: usize = 0;
    while i < directions.len()
        invariant
            0 <= i <= 4,
            directions@ == all_directions(),
            r@.len() == i,
            forall|j: int|
                0 <= j < i ==> #[trigger] r@[j] == (
                    TargetArrowSparkle { direction: all_directions()[j] },
                    TimeSinceLastCorrect { last_time: None, points: 0 },
                ),
        decreases directions.len() - i,
    {
        r.push(
            (
                TargetArrowSparkle { direction: directions[i] },
                TimeSinceLastCorrect { last_time: None, points: 0 },
            ),
        );
        i += 1;
    }
    r
}

/// The correct-hit events of a list of resolutions: one per hit, in order.
pub open spec fn hits_of(rs: Seq<Resolution>) -> Seq<CorrectArrowEvent>
    decreases rs.len(),
{
    if rs.len() == 0 {
        Seq::empty()
    } else {
        match rs.last().outcome {
            Outcome::Hit { points } => hits_of(rs.drop_last()).push(
                CorrectArrowEvent { direction: rs.last().direction, points },
            ),
            Outcome::Miss => hits_of(rs.drop_last()),
        }
    }
}

/// The correct-hit events of a tick's resolutions.
pub fn hit_events(resolved: &Vec<Resolution>) -> (r: Vec<CorrectArrowEvent>)
    ensures
        r@ == hits_of(resolved@),
{
    let mut r: Vec<CorrectArrowEvent> = Vec::new();
    let mut i: usize = 0;
    while i < resolved.len()
        invariant
            0 <= i <= resolved@.len(),
            r@ == hits_of(resolved@.take(i as int)),
        decreases resolved.len() - i,
    {
        let x = resolved[i];
        proof {
            assert(resolved@.take(i + 1).drop_last() =~= resolved@.take(i as int));
            assert(resolved@.take(i + 1).last() == x);
        }
        match x.outcome {
            Outcome::Hit { points } => {
                r.push(CorrectArrowEvent { direction: x.direction, points });
            },
            Outcome::Miss => {},
        }
        i += 1;
    }
    assert(resolved@.take(resolved@.len() as int) =~= resolved@);
    r
}

/// The pulse state of a lane targeted by `target` after the events `events`
/// at time `now`: that of the last event in its direction, if any.
pub open spec fn pulse_after(
    target: TargetArrowSparkle,
    pulse: TimeSinceLastCorrect,
    events: Seq<CorrectArrowEvent>,
    now: u64,
) -> TimeSinceLastCorrect
    decreases events.len(),
{
    if events.len() == 0 {
        pulse
    } else if events.last().direction == target.direction {
        TimeSinceLastCorrect { last_time: Some(now), points: events.last().points }
    } else {
        pulse_after(target, pulse, events.drop_last(), now)
    }
}

/// Records this tick's correct hits at time `now` in the lanes of their
/// direction.
pub fn correct_event(
    events: &Vec<CorrectArrowEvent>,
    lanes: &mut Vec<(TargetArrowSparkle, TimeSinceLastCorrect)>,
    now: u64,
)
    ensures
        final(lanes)@.len() == old(lanes)@.len(),
        forall|i: int|
            0 <= i < final(lanes)@.len() ==> (#[trigger] final(lanes)@[i]).0 == old(lanes)@[i].0
                && final(lanes)@[i].1 == pulse_after(
                old(lanes)@[i].0,
                old(lanes)@[i].1,
                events@,
                now,
            ),
{
    let mut e: usize = 0;
    while e < events.len()
        invariant
            0 <= e <= events@.len(),
            lanes@.len() == old(lanes)@.len(),
            forall|i: int|
                0 <= i < lanes@.len() ==> (#[trigger] lanes@[i]).0 == old(lanes)@[i].0
                    && lanes@[i].1 == pulse_after(
                    old(lanes)@[i].0,
                    old(lanes)@[i].1,
                    events@.take(e as int),
                    now,
                ),
        decreases events.len() - e,
    {
        let ev = events[e];
        let ghost mid = lanes@;
        let mut i: usize = 0;
        while i < lanes.len()
            invariant
                0 <= i <= lanes@.len(),
                lanes@.len() == mid.len(),
                ev == events@[e as int],
                forall|j: int|
                    i <= j < lanes@.len() ==> #[trigger] lanes@[j] == mid[j],
                forall|j: int|
                    0 <= j < i ==> (#[trigger] lanes@[j]).0 == mid[j].0 && lanes@[j].1 == if mid[j].0.direction
                        == ev.direction {
                        TimeSinceLastCorrect { last_time: Some(now), points: ev.points }
                    } else {
                        mid[j].1
                    },
            decreases lanes.len() - i,
        {
            let lane = lanes[i];
            if lane.0.direction == ev.direction {
                lanes.set(i, (lane.0, TimeSinceLastCorrect { last_time: Some(now), points: ev.points }));
            }
            i += 1;
        }
        proof {
            assert(events@.take(e + 1).drop_last() =~= events@.take(e as int));
            assert(events@.take(e + 1).last() == ev);
        }
        e += 1;
    }
    assert(events@.take(events@.len() as int) =~= events@);
}

} // verus!
