//! One play-through of a chart: clock, pending queue, active cues, score.
use vstd::prelude::*;

use crate::arrows::{
    activate, despawn_arrows, in_window, move_arrows, record_all, resolutions, spawn_arrows, step,
    survivors, tally, ActiveCue, Resolution,
};
use crate::consts::SONG_START_DELAY;
use crate::score::ScoreResource;
use crate::time::{ticked, ControlledTime};
use crate::types::{sorted_by_spawn, ArrowTime, Key, SongConfig};

verus! {

/// What one tick did: whether the song is to start now, the cues that
/// appeared, and the cues that were hit or missed.
pub struct TickReport {
    pub song_started: bool,
    pub activated: Vec<ActiveCue>,
    pub resolved: Vec<Resolution>,
}

/// Whether the song start delay falls in the tick window `[sec - delta, sec)`.
pub open spec fn song_start_due(sec: int, delta: int) -> bool {
    sec - delta <= SONG_START_DELAY < sec
}

/// A play session over one chart. Its cue ids stay below `usize::MAX`.
pub struct Session {
    clock: ControlledTime,
    pending: Vec<ArrowTime>,
    active: Vec<ActiveCue>,
    score: ScoreResource,
    next_id: usize,
}

impl Session {
    /// The session's clock.
    pub closed spec fn clock_view(&self) -> ControlledTime {
        self.clock
    }

    /// Chart cues not yet activated, in activation order.
    pub closed spec fn pending_view(&self) -> Seq<ArrowTime> {
        self.pending@
    }

    /// Cues on screen.
    pub closed spec fn active_view(&self) -> Seq<ActiveCue> {
        self.active@
    }

    /// The session's score.
    pub closed spec fn score_view(&self) -> ScoreResource {
        self.score
    }

    /// Id that the next activated cue gets.
    pub closed spec fn next_id_view(&self) -> usize {
        self.next_id
    }

    /// Ids of the cues still to come fit in `usize`.
    pub closed spec fn wf(&self) -> bool {
        self.next_id + self.pending@.len() <= usize::MAX
    }

    /// Starts a session on `chart` at instant `now`: the clock is reset, the
    /// chart's cues are pending, nothing is on screen and the score is zero.
    pub fn begin(chart: SongConfig, now: u64) -> (r: Session)
        ensures
            r.wf(),
            r.clock_view() == ControlledTime::new_spec(now),
            r.pending_view() == chart.arrows@,
            r.active_view().len() == 0,
            tally(r.score_view()) == (0int, 0int, 0int),
            r.next_id_view() == 0,
    {
        let n: usize = chart.arrows.len();
        assert(0 + chart.arrows@.len() == n);
        Session {
            clock: ControlledTime::new(now),
            pending: chart.arrows,
            active: Vec::new(),
            score: ScoreResource::new(),
            next_id: 0,
        }
    }

    /// A snapshot of the score.
    pub fn current_score(&self) -> (r: ScoreResource)
        ensures
            r == self.score_view(),
    {
        self.score
    }

    /// Time since the clock's last reset, in microseconds.
    pub fn elapsed(&self) -> (r: u64)
        ensures
            r == self.clock_view().seconds_since_startup,
    {
        self.clock.seconds_since_startup()
    }

    /// Cues on screen.
    pub fn active(&self) -> (r: &Vec<ActiveCue>)
        ensures
            r@ == self.active_view(),
    {
        &self.active
    }

    /// Number of chart cues not yet activated.
    pub fn pending_len(&self) -> (r: usize)
        ensures
            r == self.pending_view().len(),
    {
        self.pending.len()
    }

    /// Restarts the clock at `now`. Pending cues, cues on screen and the
    /// score are left as they are.
    pub fn reset_clock(&mut self, now: u64)
        requires
            old(self).wf(),
        ensures
            final(self).wf(),
            final(self).clock_view() == ControlledTime::new_spec(now),
            final(self).clock_view().seconds_since_startup == 0,
            final(self).pending_view() == old(self).pending_view(),
            final(self).active_view() == old(self).active_view(),
            final(self).score_view() == old(self).score_view(),
            final(self).next_id_view() == old(self).next_id_view(),
    {
        self.clock.reset_time(now);
    }

    /// One frame at instant `now` with the keys pressed since the last
    /// frame. In order: the clock ticks; the pending cues due in
    /// `(elapsed - delta, elapsed]` are activated from the front of the
    /// queue; the cues already on screen move by `delta` and are judged;
    /// the new cues join the screen after them, at their spawn position.
    pub fn tick(&mut self, now: u64, pressed: &Vec<Key>) -> (r: TickReport)
        requires
            old(self).wf(),
        ensures
            final(self).wf(),
            ({
                let clk = ticked(old(self).clock_view(), now);
                let sec = clk.seconds_since_startup as int;
                let delta = clk.delta as int;
                let k = r.activated@.len() as int;
                let q = old(self).pending_view();
                let moved = old(self).active_view().map_values(|c: ActiveCue| step(c, clk.delta));
                &&& final(self).clock_view() == clk
                &&& r.song_started == song_start_due(sec, delta)
                &&& k <= q.len()
                &&& forall|j: int| 0 <= j < k ==> in_window(#[trigger] q[j].spawn_time as int, sec, delta)
                &&& k < q.len() ==> !in_window(q[k].spawn_time as int, sec, delta)
                &&& forall|j: int| 0 <= j < k ==> #[trigger] r.activated@[j] == activate(
                    q[j],
                    (old(self).next_id_view() + j) as usize,
                )
                &&& final(self).pending_view() == q.skip(k)
                &&& final(self).next_id_view() == old(self).next_id_view() + k
                &&& r.resolved@ == resolutions(moved, pressed@)
                &&& final(self).active_view() == survivors(moved, pressed@) + r.activated@
                &&& tally(final(self).score_view()) == record_all(
                    tally(old(self).score_view()),
                    r.resolved@,
                )
            }),
    {
        self.clock.update_with_instant(now);
        let sec = self.clock.seconds_since_startup();
        let delta = self.clock.delta_seconds_f64();
        let song_started = (sec as i128) - (delta as i128) <= SONG_START_DELAY as i128
            && SONG_START_DELAY < sec;
        let mut activated = spawn_arrows(&mut self.pending, sec, delta, self.next_id);
        self.next_id = self.next_id + activated.len();
        move_arrows(&mut self.active, self.clock.delta_seconds());
        let resolved = despawn_arrows(&mut self.active, pressed, &mut self.score);
        let spawned = activated.clone();
        let mut fresh = spawned;
        self.active.append(&mut fresh);
        TickReport { song_started, activated, resolved }
    }
}

/// The pending queue of a session begun on a loaded chart stays in order
/// of spawn time as ticks take cues off its front.
pub proof fn lemma_queue_stays_sorted(q: Seq<ArrowTime>, k: int)
    requires
        sorted_by_spawn(q),
        0 <= k <= q.len(),
    ensures
        sorted_by_spawn(q.skip(k)),
{
    assert forall|i: int, j: int| 0 <= i < j < q.skip(k).len() implies q.skip(k)[i].spawn_time
        <= q.skip(k)[j].spawn_time by {
        assert(q.skip(k)[i] == q[i + k] && q.skip(k)[j] == q[j + k]);
    }
}

/// Reading the score twice with no tick in between gives the same values:
/// every result of `current_score` on one session is that session's score.
pub proof fn lemma_current_score_stable(s: Session, r1: ScoreResource, r2: ScoreResource)
    requires
        r1 == s.score_view(),
        r2 == s.score_view(),
    ensures
        r1 == r2,
        tally(r1) == tally(r2),
{
}

/// Resetting the clock restarts elapsed time at zero and leaves the score,
/// the pending queue and the cues on screen as they were; a later tick then
/// measures time from the reset.
pub proof fn lemma_reset_keeps_session(before: Session, after: Session, now: u64, later: u64)
    requires
        after.clock_view() == ControlledTime::new_spec(now),
        after.pending_view() == before.pending_view(),
        after.active_view() == before.active_view(),
        after.score_view() == before.score_view(),
    ensures
        after.clock_view().seconds_since_startup == 0,
        tally(after.score_view()) == tally(before.score_view()),
        after.pending_view() == before.pending_view(),
        ticked(after.clock_view(), later).delta == 0,
        ticked(after.clock_view(), later).seconds_since_startup == if later >= now {
            later - now
        } else {
            0
        },
{
}

} // verus!
