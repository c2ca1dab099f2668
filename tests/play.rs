use rhythm::arrows::{despawn_arrows, move_arrow, spawn_arrows, ActiveCue, Outcome};
use rhythm::consts::{SPAWN_POSITION, TARGET_POSITION, THRESHOLD};
use rhythm::score::{hit_points, ScoreResource};
use rhythm::session::Session;
use rhythm::time::ControlledTime;
use rhythm::types::{ArrowTime, ArrowTimeToml, Directions, Key, SongConfig, Speed};

fn cue(x: i64, direction: Directions, speed: Speed) -> ActiveCue {
    ActiveCue {
        id: 0,
        direction,
        speed,
        x,
        y: direction.y(),
        rotation: direction.rotation(),
        scale: 1_000_000,
    }
}

fn chart(arrows: Vec<ArrowTimeToml>) -> SongConfig {
    SongConfig::load_config("Song".to_string(), "song.ogg".to_string(), &arrows).unwrap()
}

#[test]
fn clock_first_tick_has_zero_delta() {
    let mut c = ControlledTime::new(1_000);
    c.update_with_instant(4_000);
    assert_eq!(c.delta_seconds(), 0);
    assert_eq!(c.seconds_since_startup(), 3_000);
    c.update_with_instant(4_500);
    assert_eq!(c.delta_seconds(), 500);
    assert_eq!(c.delta_seconds_f64(), 500);
    assert_eq!(c.seconds_since_startup(), 3_500);
}

#[test]
fn clock_reset_restarts_timeline() {
    let mut c = ControlledTime::new(0);
    c.update_with_instant(10_000);
    c.update_with_instant(20_000);
    c.reset_time(25_000);
    assert_eq!(c.seconds_since_startup(), 0);
    assert_eq!(c.delta_seconds(), 0);
    c.update_with_instant(30_000);
    assert_eq!(c.seconds_since_startup(), 5_000);
    assert_eq!(c.delta_seconds(), 0);
}

#[test]
fn cue_due_in_window_is_activated_once() {
    // A slow cue hit at 8 s spawns at 5 s.
    let mut s = Session::begin(chart(vec![ArrowTimeToml {
        click_time: 8_000_000,
        speed: Speed::Slow,
        direction: Directions::Up,
    }]), 0);
    let r = s.tick(4_900_000, &vec![]);
    assert!(r.activated.is_empty());
    let r = s.tick(5_000_000, &vec![]);
    assert_eq!(r.activated.len(), 1);
    assert_eq!(r.activated[0].x, SPAWN_POSITION);
    assert_eq!(r.activated[0].y, Directions::Up.y());
    assert_eq!(s.pending_len(), 0);
    let r = s.tick(5_100_000, &vec![]);
    assert!(r.activated.is_empty());
    assert_eq!(s.active().len(), 1);
}

#[test]
fn cues_due_in_one_slow_frame_all_activate_in_order() {
    let mut pending = vec![
        ArrowTime { spawn_time: 1_000, speed: Speed::Slow, direction: Directions::Up },
        ArrowTime { spawn_time: 2_000, speed: Speed::Fast, direction: Directions::Down },
        ArrowTime { spawn_time: 2_000, speed: Speed::Fast, direction: Directions::Left },
        ArrowTime { spawn_time: 9_000, speed: Speed::Fast, direction: Directions::Right },
    ];
    let out = spawn_arrows(&mut pending, 5_000, 4_500, 7);
    assert_eq!(out.len(), 3);
    assert_eq!(out[0].direction, Directions::Up);
    assert_eq!(out[1].direction, Directions::Down);
    assert_eq!(out[2].direction, Directions::Left);
    assert_eq!(out[0].id, 7);
    assert_eq!(out[2].id, 9);
    assert_eq!(pending.len(), 1);
    assert_eq!(pending[0].direction, Directions::Right);
}

#[test]
fn window_is_open_below() {
    let mut pending = vec![ArrowTime { spawn_time: 4_000, speed: Speed::Slow, direction: Directions::Up }];
    let out = spawn_arrows(&mut pending, 5_000, 1_000, 0);
    assert!(out.is_empty());
    assert_eq!(pending.len(), 1);
}

#[test]
fn hit_on_target_scores_full() {
    let mut active = vec![cue(TARGET_POSITION, Directions::Left, Speed::Slow)];
    let mut score = ScoreResource::new();
    let r = despawn_arrows(&mut active, &vec![Key::A], &mut score);
    assert_eq!(r.len(), 1);
    assert_eq!(r[0].outcome, Outcome::Hit { points: 100 });
    assert_eq!(score.corrects(), 1);
    assert_eq!(score.score(), 100);
    assert_eq!(score.fails(), 0);
    assert!(active.is_empty());
}

#[test]
fn hit_on_window_edge_scores_minimum() {
    let mut active = vec![cue(TARGET_POSITION + THRESHOLD, Directions::Up, Speed::Fast)];
    let mut score = ScoreResource::new();
    let r = despawn_arrows(&mut active, &vec![Key::W], &mut score);
    assert_eq!(r[0].outcome, Outcome::Hit { points: 10 });
    assert_eq!(score.score(), 10);
}

#[test]
fn unhit_cue_past_bound_is_a_miss() {
    let mut active = vec![cue(2 * TARGET_POSITION, Directions::Right, Speed::Slow)];
    let mut score = ScoreResource::new();
    let r = despawn_arrows(&mut active, &vec![], &mut score);
    assert_eq!(r[0].outcome, Outcome::Miss);
    assert_eq!(score.fails(), 1);
    assert_eq!(score.score(), 0);
    assert_eq!(score.corrects(), 0);
    assert!(active.is_empty());
}

#[test]
fn wrong_key_or_outside_window_stays() {
    let mut active = vec![
        cue(TARGET_POSITION, Directions::Left, Speed::Slow),
        cue(TARGET_POSITION - THRESHOLD - 1, Directions::Up, Speed::Slow),
    ];
    let mut score = ScoreResource::new();
    let r = despawn_arrows(&mut active, &vec![Key::W], &mut score);
    assert!(r.is_empty());
    assert_eq!(active.len(), 2);
    assert_eq!(score.corrects(), 0);
}

#[test]
fn one_press_resolves_every_cue_of_its_lane_in_window() {
    let mut active = vec![
        cue(TARGET_POSITION - 10_000_000, Directions::Down, Speed::Slow),
        cue(TARGET_POSITION + 5_000_000, Directions::Down, Speed::Slow),
        cue(0, Directions::Down, Speed::Slow),
    ];
    let mut score = ScoreResource::new();
    let r = despawn_arrows(&mut active, &vec![Key::ArrowDown], &mut score);
    assert_eq!(r.len(), 2);
    assert_eq!(r[0].outcome, Outcome::Hit { points: 50 });
    assert_eq!(r[1].outcome, Outcome::Hit { points: 75 });
    assert_eq!(score.score(), 125);
    assert_eq!(score.corrects(), 2);
    assert_eq!(active.len(), 1);
}

#[test]
fn points_formula() {
    assert_eq!(hit_points(0), 100);
    assert_eq!(hit_points(10_000_000), 50);
    assert_eq!(hit_points(-10_000_000), 50);
    assert_eq!(hit_points(19_000_000), 10);
    assert_eq!(hit_points(17_000_000), 15);
    assert_eq!(hit_points(THRESHOLD), 10);
    assert_eq!(hit_points(100_000_000), 10);
}

#[test]
fn score_counters() {
    let mut s = ScoreResource::new();
    assert_eq!(s.increase_correct(-5_000_000), 75);
    s.increase_fails();
    s.increase_fails();
    assert_eq!(s.score(), 75);
    assert_eq!(s.corrects(), 1);
    assert_eq!(s.fails(), 2);
}

#[test]
fn motion_before_target() {
    let mut c = cue(SPAWN_POSITION, Directions::Up, Speed::Slow);
    move_arrow(&mut c, 1_000_000);
    assert_eq!(c.x, -200_000_000);
    assert_eq!(c.y, Directions::Up.y());
    assert_eq!(c.rotation, Directions::Up.rotation());
    assert_eq!(c.scale, 1_000_000);
}

#[test]
fn motion_easing_past_window() {
    // 230 px moving at 200 px/s for 0.1 s reaches 250 px: 30 px past the window.
    let mut c = cue(230_000_000, Directions::Right, Speed::Slow);
    c.y = 0;
    c.rotation = 0;
    move_arrow(&mut c, 100_000);
    assert_eq!(c.x, 250_000_000);
    assert_eq!(c.y, -6_000_000);
    assert_eq!(c.rotation, -4_166);
    assert_eq!(c.scale, 900_000);
}

#[test]
fn scale_has_a_floor() {
    let mut c = cue(500_000_000, Directions::Right, Speed::Fast);
    move_arrow(&mut c, 0);
    assert_eq!(c.scale, 200_000);
}

#[test]
fn reset_keeps_score_and_queue() {
    let mut s = Session::begin(chart(vec![
        ArrowTimeToml { click_time: 3_000_050, speed: Speed::Slow, direction: Directions::Up },
        ArrowTimeToml { click_time: 30_000_000, speed: Speed::Slow, direction: Directions::Down },
    ]), 0);
    s.tick(0, &vec![]);
    s.tick(100, &vec![]);
    assert_eq!(s.active().len(), 1);
    // Drive the first cue to the target and hit it.
    s.tick(3_000_100, &vec![Key::W]);
    let before = s.current_score();
    assert_eq!(before.corrects(), 1);
    assert_eq!(s.elapsed(), 3_000_100);
    s.reset_clock(4_000_000);
    assert_eq!(s.elapsed(), 0);
    assert_eq!(s.current_score(), before);
    assert_eq!(s.pending_len(), 1);
}

#[test]
fn current_score_is_stable() {
    let mut s = Session::begin(chart(vec![]), 0);
    s.tick(10, &vec![]);
    let a = s.current_score();
    let b = s.current_score();
    assert_eq!(a, b);
}

#[test]
fn song_starts_once_when_delay_is_crossed() {
    let mut s = Session::begin(chart(vec![]), 0);
    assert!(!s.tick(1_000_000, &vec![]).song_started);
    assert!(!s.tick(2_999_000, &vec![]).song_started);
    assert!(s.tick(3_001_000, &vec![]).song_started);
    assert!(!s.tick(3_100_000, &vec![]).song_started);
}

#[test]
fn missed_cue_counts_in_session() {
    let mut s = Session::begin(chart(vec![ArrowTimeToml {
        click_time: 3_000_050,
        speed: Speed::Slow,
        direction: Directions::Up,
    }]), 0);
    s.tick(0, &vec![]);
    s.tick(100, &vec![]);
    let r = s.tick(4_000_100, &vec![]);
    assert_eq!(r.resolved.len(), 1);
    assert_eq!(r.resolved[0].outcome, Outcome::Miss);
    assert_eq!(s.current_score().fails(), 1);
    assert!(s.active().is_empty());
}
