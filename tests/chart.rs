use rhythm::types::{ArrowTime, ArrowTimeToml, Directions, Key, LoadError, SongConfig, Speed};

fn authored(click_time: u64, speed: Speed, direction: Directions) -> ArrowTimeToml {
    ArrowTimeToml { click_time, speed, direction }
}

#[test]
fn spawn_time_per_speed_class() {
    let slow = ArrowTime::new(&authored(5_000_000, Speed::Slow, Directions::Up));
    let medium = ArrowTime::new(&authored(5_000_000, Speed::Medium, Directions::Up));
    let fast = ArrowTime::new(&authored(5_000_000, Speed::Fast, Directions::Up));
    assert_eq!(slow.spawn_time, 2_000_000);
    assert_eq!(medium.spawn_time, 2_500_000);
    assert_eq!(fast.spawn_time, 3_000_000);
    assert_eq!(fast.speed, Speed::Fast);
    assert_eq!(fast.direction, Directions::Up);
}

#[test]
fn spawn_time_may_precede_session_start() {
    let a = ArrowTime::new(&authored(1_000_000, Speed::Slow, Directions::Left));
    assert_eq!(a.spawn_time, -2_000_000);
}

#[test]
fn speed_values_and_multipliers() {
    assert_eq!(Speed::Slow.value(), 200);
    assert_eq!(Speed::Medium.value(), 240);
    assert_eq!(Speed::Fast.value(), 300);
    assert_eq!(Speed::Slow.multiplier(), 10);
    assert_eq!(Speed::Medium.multiplier(), 12);
    assert_eq!(Speed::Fast.multiplier(), 15);
}

#[test]
fn loaded_chart_is_sorted_by_spawn_time() {
    // Authored by hit time; the later slow cue spawns before the fast one.
    let arrows = vec![
        authored(4_000_000, Speed::Fast, Directions::Down),
        authored(4_500_000, Speed::Slow, Directions::Up),
        authored(6_000_000, Speed::Medium, Directions::Left),
    ];
    let chart = SongConfig::load_config("Song".to_string(), "song.mp3".to_string(), &arrows)
        .unwrap();
    let times: Vec<i128> = chart.arrows.iter().map(|a| a.spawn_time).collect();
    assert_eq!(times, vec![1_500_000, 2_000_000, 3_500_000]);
    assert_eq!(chart.arrows[0].direction, Directions::Up);
    assert_eq!(chart.arrows[1].direction, Directions::Down);
    assert_eq!(chart.arrows[2].direction, Directions::Left);
    assert_eq!(chart.name, "Song");
    assert_eq!(chart.filename, "song.mp3");
}

#[test]
fn equal_spawn_times_keep_authored_order() {
    // Slow at 5.0 s and fast at 4.0 s both spawn at 2.0 s; medium at 3.0 s spawns at 0.5 s.
    let arrows = vec![
        authored(5_000_000, Speed::Slow, Directions::Right),
        authored(3_000_000, Speed::Medium, Directions::Up),
        authored(4_000_000, Speed::Fast, Directions::Left),
    ];
    let chart = SongConfig::load_config("S".to_string(), "a.ogg".to_string(), &arrows).unwrap();
    let got: Vec<(i128, Directions)> =
        chart.arrows.iter().map(|a| (a.spawn_time, a.direction)).collect();
    assert_eq!(
        got,
        vec![
            (500_000, Directions::Up),
            (2_000_000, Directions::Right),
            (2_000_000, Directions::Left),
        ]
    );
}

#[test]
fn empty_chart_loads() {
    let chart = SongConfig::load_config("E".to_string(), "e.ogg".to_string(), &vec![]).unwrap();
    assert!(chart.arrows.is_empty());
}

#[test]
fn missing_audio_is_rejected() {
    let arrows = vec![authored(4_000_000, Speed::Slow, Directions::Up)];
    let r = SongConfig::load_config("Song".to_string(), String::new(), &arrows);
    assert!(matches!(r, Err(LoadError::MissingAudio)));
}

#[test]
fn direction_keys() {
    assert!(Directions::Up.key_just_pressed(&vec![Key::W]));
    assert!(Directions::Up.key_just_pressed(&vec![Key::S, Key::ArrowUp]));
    assert!(!Directions::Up.key_just_pressed(&vec![Key::S, Key::ArrowDown]));
    assert!(Directions::Down.key_just_pressed(&vec![Key::S]));
    assert!(Directions::Left.key_just_pressed(&vec![Key::A]));
    assert!(Directions::Right.key_just_pressed(&vec![Key::ArrowRight]));
    assert!(!Directions::Right.key_just_pressed(&vec![]));
}

#[test]
fn lane_offsets_and_rotations() {
    assert_eq!(Directions::Up.y(), 150_000_000);
    assert_eq!(Directions::Down.y(), 50_000_000);
    assert_eq!(Directions::Left.y(), -50_000_000);
    assert_eq!(Directions::Right.y(), -150_000_000);
    assert_eq!(Directions::Up.rotation(), 1_570_796);
    assert_eq!(Directions::Down.rotation(), -1_570_796);
    assert_eq!(Directions::Left.rotation(), 3_141_593);
    assert_eq!(Directions::Right.rotation(), 0);
    assert_eq!(
        Directions::directions(),
        vec![Directions::Up, Directions::Down, Directions::Left, Directions::Right]
    );
}
