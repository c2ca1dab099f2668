//! Directions, speed classes and the chart model.
use vstd::prelude::*;

use crate::consts::{BASE_SPEED, DISTANCE, WINDOW_HEIGHT};

verus! {

/// Lane of a cue.
#[derive(Debug, Clone, Copy, PartialEq, Eq, Structural)]
pub enum Directions {
    Up,
    Down,
    Left,
    Right,
}

/// Physical keys read by the game: each direction accepts an arrow key and
/// a letter key.
#[derive(Debug, Clone, Copy, PartialEq, Eq, Structural)]
pub enum Key {
    ArrowUp,
    W,
    ArrowDown,
    S,
    ArrowLeft,
    A,
    ArrowRight,
    D,
}

/// The four lanes, top to bottom.
pub open spec fn all_directions() -> Seq<Directions> {
    seq![Directions::Up, Directions::Down, Directions::Left, Directions::Right]
}

impl Directions {
    /// The four lanes, top to bottom.
    pub fn directions() -> (r: Vec<Directions>)
        ensures
            r@ == all_directions(),
    {
        let r = vec![Directions::Up, Directions::Down, Directions::Left, Directions::Right];
        assert(r@ =~= all_directions());
        r
    }

    /// Whether `k` is one of the two keys of this direction.
    pub open spec fn accepts(self, k: Key) -> bool {
        match self {
            Directions::Up => k == Key::ArrowUp || k == Key::W,
            Directions::Down => k == Key::ArrowDown || k == Key::S,
            Directions::Left => k == Key::ArrowLeft || k == Key::A,
            Directions::Right => k == Key::ArrowRight || k == Key::D,
        }
    }

    /// Whether some key pressed this tick belongs to this direction.
    pub open spec fn pressed_in(self, pressed: Seq<Key>) -> bool {
        exists|i: int| 0 <= i < pressed.len() && self.accepts(#[trigger] pressed[i])
    }

    /// Rotation of a cue of this lane, in microradians; cues point right
    /// when unrotated.
    pub open spec fn rotation_spec(self) -> i64 {
        match self {
            Directions::Up => 1_570_796,
            Directions::Down => (-1_570_796) as i64,
            Directions::Left => 3_141_593,
            Directions::Right => 0,
        }
    }

    /// Lane offset on the axis across the track, in micro-pixels.
    pub open spec fn y_spec(self) -> i64 {
        match self {
            Directions::Up => (WINDOW_HEIGHT / 4) as i64,
            Directions::Down => (WINDOW_HEIGHT / 12) as i64,
            Directions::Left => (-(WINDOW_HEIGHT / 12)) as i64,
            Directions::Right => (-(WINDOW_HEIGHT / 4)) as i64,
        }
    }

    /// True when one of this direction's keys is among the keys pressed
    /// this tick.
    pub fn key_just_pressed(&self, pressed: &Vec<Key>) -> (r: bool)
        ensures
            r == self.pressed_in(pressed@),
    {
        let mut i: usize = 0;
        while i < pressed.len()
            invariant
                0 <= i <= pressed.len(),
                forall|j: int| 0 <= j < i ==> !self.accepts(#[trigger] pressed@[j]),
            decreases pressed.len() - i,
        {
            let k = pressed[i];
            let hit = match self {
                Directions::Up => k == Key::ArrowUp || k == Key::W,
                Directions::Down => k == Key::ArrowDown || k == Key::S,
                Directions::Left => k == Key::ArrowLeft || k == Key::A,
                Directions::Right => k == Key::ArrowRight || k == Key::D,
            };
            if hit {
                assert(self.accepts(pressed@[i as int]));
                return true;
            }
            i += 1;
        }
        false
    }

    /// Rotation of this lane's cues, in microradians.
    pub fn rotation(&self) -> (r: i64)
        ensures
            r == self.rotation_spec(),
    {
        match self {
            Directions::Up => 1_570_796,
            Directions::Down => -1_570_796,
            Directions::Left => 3_141_593,
            Directions::Right => 0,
        }
    }

    /// Lane offset of this direction, in micro-pixels.
    pub fn y(&self) -> (r: i64)
        ensures
            r == self.y_spec(),
    {
        match self {
            Directions::Up => WINDOW_HEIGHT / 4,
            Directions::Down => WINDOW_HEIGHT / 12,
            Directions::Left => -(WINDOW_HEIGHT / 12),
            Directions::Right => -(WINDOW_HEIGHT / 4),
        }
    }
}

/// Speed class of a cue.
#[derive(Debug, Clone, Copy, PartialEq, Eq, Structural)]
pub enum Speed {
    Slow,
    Medium,
    Fast,
}

impl Speed {
    /// Multiplier of the base speed, in tenths (1.0, 1.2, 1.5).
    pub open spec fn multiplier_spec(self) -> u64 {
        match self {
            Speed::Slow => 10,
            Speed::Medium => 12,
            Speed::Fast => 15,
        }
    }

    /// Absolute travel speed, in pixels per second (equally, micro-pixels
    /// per microsecond).
    pub open spec fn value_spec(self) -> u64 {
        (BASE_SPEED * self.multiplier_spec() / 10) as u64
    }

    /// Time a cue of this class takes from spawn to target, in microseconds.
    pub open spec fn travel_time_spec(self) -> int {
        (DISTANCE as int) / (self.value_spec() as int)
    }

    /// Travel speed in pixels per second.
    pub fn value(&self) -> (r: u64)
        ensures
            r == self.value_spec(),
            r > 0,
    {
        BASE_SPEED * self.multiplier() / 10
    }

    /// Multiplier of the base speed, in tenths.
    pub fn multiplier(&self) -> (r: u64)
        ensures
            r == self.multiplier_spec(),
    {
        match self {
            Speed::Slow => 10,
            Speed::Medium => 12,
            Speed::Fast => 15,
        }
    }
}

/// The travel time of every speed class covers the spawn-to-target distance
/// exactly: `travel_time * speed == distance`, with no rounding.
pub proof fn lemma_travel_time_exact(s: Speed)
    ensures
        s.travel_time_spec() * (s.value_spec() as int) == DISTANCE as int,
        s.travel_time_spec() == match s {
            Speed::Slow => 3_000_000int,
            Speed::Medium => 2_500_000int,
            Speed::Fast => 2_000_000int,
        },
{
    match s {
        Speed::Slow => assert(s.value_spec() == 200 && 600_000_000int / 200 == 3_000_000),
        Speed::Medium => assert(s.value_spec() == 240 && 600_000_000int / 240 == 2_500_000),
        Speed::Fast => assert(s.value_spec() == 300 && 600_000_000int / 300 == 2_000_000),
    }
}

/// One authored cue: when the player should act, in which lane, how fast.
/// `click_time` is in microseconds since the session's start.
#[derive(Debug, Clone, Copy, PartialEq, Eq, Structural)]
pub struct ArrowTimeToml {
    pub click_time: u64,
    pub speed: Speed,
    pub direction: Directions,
}

/// A cue of a loaded chart, with the session time (microseconds) at which
/// it must appear.
#[derive(Debug, Clone, Copy, PartialEq, Eq, Structural)]
pub struct ArrowTime {
    pub spawn_time: i128,
    pub speed: Speed,
    pub direction: Directions,
}

/// Spawn time of a cue hit at `click_time`: the hit time less the time the
/// cue needs to travel from the spawn position to the target.
pub open spec fn spawn_time_of(click_time: int, speed: Speed) -> int {
    click_time - speed.travel_time_spec()
}

/// The chart cue that an authored cue becomes.
pub open spec fn arrow_of(a: ArrowTimeToml) -> ArrowTime {
    ArrowTime {
        spawn_time: spawn_time_of(a.click_time as int, a.speed) as i128,
        speed: a.speed,
        direction: a.direction,
    }
}

impl ArrowTime {
    /// Derives the spawn time of an authored cue.
    pub fn new(arrow: &ArrowTimeToml) -> (r: ArrowTime)
        ensures
            r == arrow_of(*arrow),
            r.spawn_time == spawn_time_of(arrow.click_time as int, arrow.speed),
    {
        let travel = DISTANCE as u64 / arrow.speed.value();
        ArrowTime {
            spawn_time: arrow.click_time as i128 - travel as i128,
            speed: arrow.speed,
            direction: arrow.direction,
        }
    }
}

/// The chart cues of an authored list, in authored order.
pub open spec fn arrows_of(s: Seq<ArrowTimeToml>) -> Seq<ArrowTime> {
    s.map_values(|a: ArrowTimeToml| arrow_of(a))
}

/// Whether cues are in non-decreasing order of spawn time.
pub open spec fn sorted_by_spawn(s: Seq<ArrowTime>) -> bool {
    forall|i: int, j: int| 0 <= i < j < s.len() ==> s[i].spawn_time <= s[j].spawn_time
}

/// Where `a` goes in `s` when placed after every trailing cue that spawns
/// strictly later than it.
pub open spec fn insert_pos(s: Seq<ArrowTime>, a: ArrowTime) -> nat
    decreases s.len(),
{
    if s.len() == 0 {
        0
    } else if s.last().spawn_time <= a.spawn_time {
        s.len()
    } else {
        insert_pos(s.drop_last(), a)
    }
}

/// Stable insertion sort by spawn time: each cue, in authored order, goes
/// after every cue already placed that spawns no later than it.
pub open spec fn sort_by_spawn(s: Seq<ArrowTime>) -> Seq<ArrowTime>
    decreases s.len(),
{
    if s.len() == 0 {
        s
    } else {
        let done = sort_by_spawn(s.drop_last());
        done.insert(insert_pos(done, s.last()) as int, s.last())
    }
}

proof fn lemma_insert_pos(s: Seq<ArrowTime>, a: ArrowTime)
    ensures
        insert_pos(s, a) <= s.len(),
        forall|k: int| insert_pos(s, a) <= k < s.len() ==> s[k].spawn_time > a.spawn_time,
        insert_pos(s, a) > 0 ==> s[insert_pos(s, a) - 1].spawn_time <= a.spawn_time,
    decreases s.len(),
{
    if s.len() > 0 && s.last().spawn_time > a.spawn_time {
        lemma_insert_pos(s.drop_last(), a);
        assert forall|k: int| insert_pos(s, a) <= k < s.len() implies s[k].spawn_time
            > a.spawn_time by {
            if k < s.len() - 1 {
                assert(s[k] == s.drop_last()[k]);
            }
        }
    }
}

/// Any position with the two properties of `insert_pos` is `insert_pos`.
proof fn lemma_insert_pos_unique(s: Seq<ArrowTime>, a: ArrowTime, p: int)
    requires
        0 <= p <= s.len(),
        forall|k: int| p <= k < s.len() ==> s[k].spawn_time > a.spawn_time,
        p > 0 ==> s[p - 1].spawn_time <= a.spawn_time,
    ensures
        p == insert_pos(s, a),
{
    lemma_insert_pos(s, a);
    let q = insert_pos(s, a) as int;
    if p < q {
        assert(s[q - 1].spawn_time <= a.spawn_time);
    } else if q < p {
        assert(s[p - 1].spawn_time <= a.spawn_time);
    }
}

proof fn lemma_insert_sorted(s: Seq<ArrowTime>, a: ArrowTime)
    requires
        sorted_by_spawn(s),
    ensures
        sorted_by_spawn(s.insert(insert_pos(s, a) as int, a)),
        s.insert(insert_pos(s, a) as int, a).to_multiset() =~= s.to_multiset().insert(a),
{
    lemma_insert_pos(s, a);
    let p = insert_pos(s, a) as int;
    let r = s.insert(p, a);
    assert forall|i: int, j: int| 0 <= i < j < r.len() implies r[i].spawn_time
        <= r[j].spawn_time by {
        if j < p {
        } else if j == p {
            if i < p - 1 {
                assert(s[i].spawn_time <= s[p - 1].spawn_time);
            }
        } else if i < p {
            assert(s[i].spawn_time <= s[j - 1].spawn_time);
        } else if i == p {
        } else {
        }
    }
    s.to_multiset_ensures();
    r.to_multiset_ensures();
    vstd::seq_lib::lemma_seq_union_to_multiset_commutative(s.take(p), s.skip(p));
    assert(s =~= s.take(p) + s.skip(p));
    assert(r =~= s.take(p).push(a) + s.skip(p));
    vstd::seq_lib::lemma_multiset_commutative(s.take(p).push(a), s.skip(p));
    vstd::seq_lib::lemma_multiset_commutative(s.take(p), s.skip(p));
    s.take(p).to_multiset_ensures();
}

/// A loaded chart is sorted by spawn time and holds exactly the authored
/// cues, whatever order they were authored in.
pub proof fn lemma_sort_by_spawn(s: Seq<ArrowTime>)
    ensures
        sorted_by_spawn(sort_by_spawn(s)),
        sort_by_spawn(s).to_multiset() =~= s.to_multiset(),
        sort_by_spawn(s).len() == s.len(),
    decreases s.len(),
{
    if s.len() > 0 {
        lemma_sort_by_spawn(s.drop_last());
        lemma_insert_sorted(sort_by_spawn(s.drop_last()), s.last());
        s.to_multiset_ensures();
        s.drop_last().to_multiset_ensures();
        assert(s =~= s.drop_last().push(s.last()));
        sort_by_spawn(s).to_multiset_ensures();
    }
}

/// Why a chart could not be loaded.
#[derive(Debug, Clone, Copy, PartialEq, Eq, Structural)]
pub enum LoadError {
    /// The chart source could not be read.
    Unreadable,
    /// The chart source does not have the expected shape.
    Malformed,
    /// The chart names no audio file.
    MissingAudio,
}

/// A loaded chart: display name, audio file name, and cues in ascending
/// order of spawn time.
pub struct SongConfig {
    pub name: String,
    pub filename: String,
    pub arrows: Vec<ArrowTime>,
}

impl SongConfig {
    /// Builds a chart from its authored description: derives each cue's
    /// spawn time and sorts the cues stably by it. Fails exactly when no
    /// audio file is named.
    pub fn load_config(name: String, filename: String, arrows: &Vec<ArrowTimeToml>) -> (r: Result<
        SongConfig,
        LoadError,
    >)
        ensures
            r is Err <==> filename@.len() == 0,
            r matches Err(e) ==> e == LoadError::MissingAudio,
            r matches Ok(c) ==> c.name@ == name@ && c.filename@ == filename@ && c.arrows@
                == sort_by_spawn(arrows_of(arrows@)),
    {
        if filename.as_str().is_empty() {
            return Err(LoadError::MissingAudio);
        }
        let mut out: Vec<ArrowTime> = Vec::new();
        let mut i: usize = 0;
        while i < arrows.len()
            invariant
                0 <= i <= arrows.len(),
                out@ == sort_by_spawn(arrows_of(arrows@.take(i as int))),
            decreases arrows.len() - i,
        {
            let a = ArrowTime::new(&arrows[i]);
            let mut pos: usize = out.len();
            while pos > 0 && out[pos - 1].spawn_time > a.spawn_time
                invariant
                    0 <= pos <= out.len(),
                    forall|k: int| pos <= k < out.len() ==> out@[k].spawn_time > a.spawn_time,
                decreases pos,
            {
                pos -= 1;
            }
            proof {
                lemma_insert_pos_unique(out@, a, pos as int);
                let t = arrows_of(arrows@.take(i + 1));
                assert(arrows@.take(i + 1).drop_last() =~= arrows@.take(i as int));
                assert(t.drop_last() =~= arrows_of(arrows@.take(i as int)));
                assert(t.last() == a);
            }
            out.insert(pos, a);
            i += 1;
        }
        assert(arrows@.take(arrows@.len() as int) =~= arrows@);
        Ok(SongConfig { name, filename, arrows: out })
    }
}

} // verus!
