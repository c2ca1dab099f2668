//! Active cues: activation by the scheduler, motion, and judgment.
use vstd::prelude::*;

use crate::consts::{
    EASE_EPSILON, FULL_SCALE, MIN_SCALE, SPAWN_POSITION, TARGET_POSITION, THRESHOLD,
};
use crate::score::{hit_points, points_for, sat_add, ScoreResource};
use crate::types::{ArrowTime, Directions, Key, Speed};

verus! {

/// A cue on screen. `x` is the travel-axis position and `y` the lane axis
/// (micro-pixels), `rotation` in microradians, `scale` in millionths.
#[derive(Debug, Clone, Copy, PartialEq, Eq, Structural)]
pub struct ActiveCue {
    pub id: usize,
    pub direction: Directions,
    pub speed: Speed,
    pub x: i64,
    pub y: i64,
    pub rotation: i64,
    pub scale: i64,
}

/// Whether `t` lies in the frame window `(sec - delta, sec]`.
pub open spec fn in_window(t: int, sec: int, delta: int) -> bool {
    sec - delta < t <= sec
}

/// The cue that activating `a` creates, at the spawn position of its lane.
pub open spec fn activate(a: ArrowTime, id: usize) -> ActiveCue {
    ActiveCue {
        id,
        direction: a.direction,
        speed: a.speed,
        x: SPAWN_POSITION,
        y: a.direction.y_spec(),
        rotation: a.direction.rotation_spec(),
        scale: FULL_SCALE,
    }
}

/// Activates the cues at the front of `pending` whose spawn time lies in
/// `(sec - delta, sec]`, stopping at the first that does not, and removes
/// them from `pending`. The `j`-th activated cue gets id `first_id + j`.
pub fn spawn_arrows(pending: &mut Vec<ArrowTime>, sec: u64, delta: u64, first_id: usize) -> (r: Vec<
    ActiveCue,
>)
    requires
        first_id + old(pending)@.len() <= usize::MAX,
    ensures
        r@.len() <= old(pending)@.len(),
        forall|j: int|
            0 <= j < r@.len() ==> in_window(
                #[trigger] old(pending)@[j].spawn_time as int,
                sec as int,
                delta as int,
            ),
        r@.len() < old(pending)@.len() ==> !in_window(
            old(pending)@[r@.len() as int].spawn_time as int,
            sec as int,
            delta as int,
        ),
        forall|j: int|
            0 <= j < r@.len() ==> #[trigger] r@[j] == activate(
                old(pending)@[j],
                (first_id + j) as usize,
            ),
        final(pending)@ == old(pending)@.skip(r@.len() as int),
{
    let mut k: usize = 0;
    let mut out: Vec<ActiveCue> = Vec::new();
    while k < pending.len() && pending[k].spawn_time > sec as i128 - delta as i128
        && pending[k].spawn_time <= sec as i128
        invariant
            0 <= k <= pending@.len(),
            pending@ == old(pending)@,
            first_id + pending@.len() <= usize::MAX,
            out@.len() == k,
            forall|j: int|
                0 <= j < k ==> in_window(
                    #[trigger] pending@[j].spawn_time as int,
                    sec as int,
                    delta as int,
                ),
            forall|j: int|
                0 <= j < k ==> #[trigger] out@[j] == activate(pending@[j], (first_id + j) as usize),
        decreases pending.len() - k,
    {
        let a = pending[k];
        out.push(
            ActiveCue {
                id: first_id + k,
                direction: a.direction,
                speed: a.speed,
                x: SPAWN_POSITION,
                y: a.direction.y(),
                rotation: a.direction.rotation(),
                scale: FULL_SCALE,
            },
        );
        k += 1;
    }
    let rest = pending.split_off(k);
    *pending = rest;
    out
}

/// `x` held to the range of `i64`.
pub open spec fn clamp_i64(x: int) -> i64 {
    if x < i64::MIN {
        i64::MIN
    } else if x > i64::MAX {
        i64::MAX
    } else {
        x as i64
    }
}

/// How far `x` is past the far edge of the hit window.
pub open spec fn overshoot(x: int) -> int {
    x - (TARGET_POSITION + THRESHOLD)
}

/// One motion step of `c` over `delta` microseconds, each coordinate held
/// to the range of `i64`. The cue advances by `delta * speed`. Once it is at
/// least `EASE_EPSILON` past the hit window, with `ov` that overshoot, it
/// drops by `delta * ov * 2` in seconds and pixels (`delta * ov / 500_000`
/// micro-pixels), turns by `-delta * ov * multiplier / 720` radians
/// (`delta * ov * tenths / 7_200_000_000` microradians, rounded down) and
/// shrinks to `max(0.2, 1 - ov / 300)`.
pub open spec fn step(c: ActiveCue, delta: u64) -> ActiveCue {
    let x = clamp_i64(c.x + delta * c.speed.value_spec());
    let ov = overshoot(x as int);
    if ov >= EASE_EPSILON {
        ActiveCue {
            x,
            y: clamp_i64(c.y - (delta * ov) / 500_000),
            rotation: clamp_i64(c.rotation - (delta * ov * c.speed.multiplier_spec()) / 7_200_000_000),
            scale: if FULL_SCALE - ov / 300 < MIN_SCALE {
                MIN_SCALE
            } else {
                (FULL_SCALE - ov / 300) as i64
            },
            ..c
        }
    } else {
        ActiveCue { x, ..c }
    }
}

fn clamp_to_i64(x: i128) -> (r: i64)
    ensures
        r == clamp_i64(x as int),
{
    if x < i64::MIN as i128 {
        i64::MIN
    } else if x > i64::MAX as i128 {
        i64::MAX
    } else {
        x as i64
    }
}

/// Advances one cue by `delta` microseconds.
pub fn move_arrow(c: &mut ActiveCue, delta: u64)
    ensures
        *final(c) == step(*old(c), delta),
{
    let v = c.speed.value();
    let m = c.speed.multiplier();
    assert(0 <= delta * v <= 18_446_744_073_709_551_615 * 300) by (nonlinear_arith)
        requires
            v <= 300,
            delta <= u64::MAX,
    ;
    let x = clamp_to_i64(c.x as i128 + delta as i128 * v as i128);
    let ov: i128 = x as i128 - (TARGET_POSITION + THRESHOLD) as i128;
    if ov >= EASE_EPSILON as i128 {
        assert(delta * ov <= 18_446_744_073_709_551_615 * 9_223_372_036_854_775_807) by (nonlinear_arith)
            requires
                0 <= ov <= i64::MAX,
                0 <= delta <= u64::MAX,
        ;
        let p: u128 = delta as u128 * ov as u128;
        let drop: u128 = p / 500_000;
        let y = clamp_to_i64(c.y as i128 - drop as i128);
        let rotation = match p.checked_mul(m as u128) {
            Some(q) => clamp_to_i64(c.rotation as i128 - (q / 7_200_000_000) as i128),
            None => {
                assert(p * m / 7_200_000_000 > 20_000_000_000_000_000_000) by (nonlinear_arith)
                    requires
                        p * m > u128::MAX,
                ;
                i64::MIN
            },
        };
        let shrink: i128 = FULL_SCALE as i128 - ov / 300;
        let scale: i64 = if shrink < MIN_SCALE as i128 {
            MIN_SCALE
        } else {
            shrink as i64
        };
        c.x = x;
        c.y = y;
        c.rotation = rotation;
        c.scale = scale;
    } else {
        c.x = x;
    }
}

/// Advances every active cue by `delta` microseconds.
pub fn move_arrows(active: &mut Vec<ActiveCue>, delta: u64)
    ensures
        final(active)@ == old(active)@.map_values(|c: ActiveCue| step(c, delta)),
{
    let mut i: usize = 0;
    while i < active.len()
        invariant
            0 <= i <= active@.len(),
            active@.len() == old(active)@.len(),
            forall|j: int| 0 <= j < i ==> active@[j] == step(#[trigger] old(active)@[j], delta),
            forall|j: int| i <= j < active@.len() ==> active@[j] == old(active)@[j],
        decreases active.len() - i,
    {
        let mut c = active[i];
        move_arrow(&mut c, delta);
        active.set(i, c);
        i += 1;
    }
    assert(active@ =~= old(active)@.map_values(|c: ActiveCue| step(c, delta)));
}

/// How a resolved cue ended.
#[derive(Debug, Clone, Copy, PartialEq, Eq, Structural)]
pub enum Outcome {
    /// Hit inside the window, worth `points`.
    Hit { points: usize },
    /// Flew past the off-screen bound unhit.
    Miss,
}

/// A cue taken off screen by judgment.
#[derive(Debug, Clone, Copy, PartialEq, Eq, Structural)]
pub struct Resolution {
    pub id: usize,
    pub direction: Directions,
    pub outcome: Outcome,
}

/// Whether `x` lies in the hit window `[target - threshold, target + threshold]`.
pub open spec fn in_hit_window(x: int) -> bool {
    TARGET_POSITION - THRESHOLD <= x <= TARGET_POSITION + THRESHOLD
}

/// Judgment of one cue against the keys pressed this tick: a hit when it is
/// in the window and its key is pressed, else a miss once it reaches twice
/// the target position, else nothing.
pub open spec fn judge(c: ActiveCue, pressed: Seq<Key>) -> Option<Outcome> {
    if in_hit_window(c.x as int) && c.direction.pressed_in(pressed) {
        Some(Outcome::Hit { points: points_for(TARGET_POSITION - c.x) as usize })
    } else if c.x >= 2 * TARGET_POSITION {
        Some(Outcome::Miss)
    } else {
        None
    }
}

/// The cues of `s` that judgment leaves on screen, in order.
pub open spec fn survivors(s: Seq<ActiveCue>, pressed: Seq<Key>) -> Seq<ActiveCue>
    decreases s.len(),
{
    if s.len() == 0 {
        s
    } else if judge(s.last(), pressed) is None {
        survivors(s.drop_last(), pressed).push(s.last())
    } else {
        survivors(s.drop_last(), pressed)
    }
}

/// The resolutions that judgment makes of the cues of `s`, in order.
pub open spec fn resolutions(s: Seq<ActiveCue>, pressed: Seq<Key>) -> Seq<Resolution>
    decreases s.len(),
{
    if s.len() == 0 {
        Seq::empty()
    } else {
        let r = resolutions(s.drop_last(), pressed);
        match judge(s.last(), pressed) {
            Some(o) => r.push(Resolution { id: s.last().id, direction: s.last().direction, outcome: o }),
            None => r,
        }
    }
}

/// Hits, misses and points after recording outcome `o`.
pub open spec fn record(t: (int, int, int), o: Outcome) -> (int, int, int) {
    match o {
        Outcome::Hit { points } => (sat_add(t.0, 1), t.1, sat_add(t.2, points as int)),
        Outcome::Miss => (t.0, sat_add(t.1, 1), t.2),
    }
}

/// Hits, misses and points after recording every resolution of `rs` in order.
pub open spec fn record_all(t: (int, int, int), rs: Seq<Resolution>) -> (int, int, int)
    decreases rs.len(),
{
    if rs.len() == 0 {
        t
    } else {
        record(record_all(t, rs.drop_last()), rs.last().outcome)
    }
}

/// Judgment never lowers a counter: hits, misses and points after any run
/// of resolutions are at least what they were before.
pub proof fn lemma_record_all_monotone(t: (int, int, int), rs: Seq<Resolution>)
    requires
        t.0 <= usize::MAX,
        t.1 <= usize::MAX,
        t.2 <= usize::MAX,
    ensures
        t.0 <= record_all(t, rs).0 <= usize::MAX,
        t.1 <= record_all(t, rs).1 <= usize::MAX,
        t.2 <= record_all(t, rs).2 <= usize::MAX,
    decreases rs.len(),
{
    if rs.len() > 0 {
        lemma_record_all_monotone(t, rs.drop_last());
    }
}

/// The counters of a score as a triple (hits, misses, points).
pub open spec fn tally(s: ScoreResource) -> (int, int, int) {
    (s.corrects_spec() as int, s.fails_spec() as int, s.score_spec() as int)
}

/// A cue exactly on the target whose key is pressed is a hit worth the
/// full 100 points, and adds one hit.
pub proof fn lemma_hit_on_target(c: ActiveCue, pressed: Seq<Key>, t: (int, int, int))
    requires
        c.x == TARGET_POSITION,
        c.direction.pressed_in(pressed),
    ensures
        judge(c, pressed) == Some(Outcome::Hit { points: 100 }),
        record(t, Outcome::Hit { points: 100 }) == (sat_add(t.0, 1), t.1, sat_add(t.2, 100)),
{
}

/// A cue on either edge of the hit window whose key is pressed is a hit
/// worth the minimum of 10 points.
pub proof fn lemma_hit_on_edge(c: ActiveCue, pressed: Seq<Key>)
    requires
        c.x == TARGET_POSITION + THRESHOLD || c.x == TARGET_POSITION - THRESHOLD,
        c.direction.pressed_in(pressed),
    ensures
        judge(c, pressed) == Some(Outcome::Hit { points: 10 }),
{
}

/// A cue that reaches twice the target position unhit is a miss: it adds one
/// miss and leaves hits and points alone.
pub proof fn lemma_miss_past_bound(c: ActiveCue, pressed: Seq<Key>, t: (int, int, int))
    requires
        c.x >= 2 * TARGET_POSITION,
    ensures
        judge(c, pressed) == Some(Outcome::Miss),
        record(t, Outcome::Miss) == (t.0, sat_add(t.1, 1), t.2),
{
}

/// Judges one cue against the keys pressed this tick.
pub fn judge_arrow(c: &ActiveCue, pressed: &Vec<Key>) -> (r: Option<Outcome>)
    ensures
        r == judge(*c, pressed@),
        r matches Some(Outcome::Hit { points }) ==> 10 <= points <= 100,
{
    if TARGET_POSITION - THRESHOLD <= c.x && c.x <= TARGET_POSITION + THRESHOLD
        && c.direction.key_just_pressed(pressed) {
        let d = TARGET_POSITION - c.x;
        let points = hit_points(d);
        Some(Outcome::Hit { points })
    } else if c.x >= 2 * TARGET_POSITION {
        Some(Outcome::Miss)
    } else {
        None
    }
}

/// Judges every active cue: hit cues add their points and a hit, cues past
/// the off-screen bound add a miss, and both leave `active`; the rest stay,
/// in order. Returns the resolutions in the order of `active`.
pub fn despawn_arrows(active: &mut Vec<ActiveCue>, pressed: &Vec<Key>, score: &mut ScoreResource) -> (r: Vec<
    Resolution,
>)
    ensures
        final(active)@ == survivors(old(active)@, pressed@),
        r@ == resolutions(old(active)@, pressed@),
        tally(*final(score)) == record_all(tally(*old(score)), r@),
{
    let mut keep: Vec<ActiveCue> = Vec::new();
    let mut out: Vec<Resolution> = Vec::new();
    let mut i: usize = 0;
    while i < active.len()
        invariant
            0 <= i <= active@.len(),
            active@ == old(active)@,
            keep@ == survivors(active@.take(i as int), pressed@),
            out@ == resolutions(active@.take(i as int), pressed@),
            tally(*score) == record_all(tally(*old(score)), out@),
        decreases active.len() - i,
    {
        let c = active[i];
        let j = judge_arrow(&c, pressed);
        proof {
            assert(active@.take(i + 1).drop_last() =~= active@.take(i as int));
            assert(active@.take(i + 1).last() == c);
        }
        match j {
            Some(o) => {
                match o {
                    Outcome::Hit { points } => {
                        let p = score.increase_correct(TARGET_POSITION - c.x);
                        assert(p == points);
                    },
                    Outcome::Miss => {
                        score.increase_fails();
                    },
                }
                let ghost before = out@;
                let res = Resolution { id: c.id, direction: c.direction, outcome: o };
                out.push(res);
                assert(out@.drop_last() =~= before);
            },
            None => {
                keep.push(c);
            },
        }
        i += 1;
    }
    assert(active@.take(active@.len() as int) =~= active@);
    *active = keep;
    out
}

} // verus!
