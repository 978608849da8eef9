use overheat::difficulty::{Difficulty, LEVEL_MAX};
use overheat::economy::Economy;
use overheat::feedback::{ease_time_scale, fade_step, shake_step};
use overheat::timer::Countdown;
use overheat::units::{clamp_i64, clamp_u64};

#[test]
fn clamp_twice_changes_nothing() {
    for v in [0u64, 5, 99, 100, 101, 1_000] {
        let once = clamp_u64(v, 5, 100);
        assert_eq!(clamp_u64(once, 5, 100), once);
    }
    assert_eq!(clamp_u64(42, 5, 100), 42);
    assert_eq!(clamp_i64(-400, -320, 320), -320);
    assert_eq!(clamp_i64(clamp_i64(-400, -320, 320), -320, 320), -320);
}

#[test]
fn repeating_countdown_reports_each_completion_once() {
    let mut t = Countdown::new_repeating(100);
    t.tick(60);
    assert!(!t.just_finished());
    t.tick(60);
    assert!(t.just_finished());
    assert_eq!(t.elapsed, 20);
    t.tick(10);
    assert!(!t.just_finished());
    t.tick(250);
    assert!(t.just_finished());
    assert_eq!(t.completions, 2);
    assert_eq!(t.elapsed, 80);
}

#[test]
fn countdown_keeps_progress_on_new_duration() {
    let mut t = Countdown::new_repeating(100);
    t.tick(70);
    t.set_duration(200);
    assert_eq!(t.elapsed, 70);
    t.tick(70);
    assert!(!t.just_finished());
    t.tick(60);
    assert!(t.just_finished());
    t.tick(30);
    t.reset();
    assert_eq!(t.elapsed, 0);
    assert!(!t.finished);
}

#[test]
fn one_shot_countdown_stops_at_its_end() {
    let mut t = Countdown::new_once(150_000);
    t.tick(100_000);
    assert!(!t.finished);
    t.tick(100_000);
    assert!(t.finished && t.just_finished());
    assert_eq!(t.elapsed, 150_000);
    t.tick(100_000);
    assert!(t.finished && !t.just_finished());
    t.reset();
    assert!(!t.finished);
}

#[test]
fn difficulty_grows_by_tier() {
    let mut d = Difficulty::new();
    d.advance(1_000_000, 1_000_000);
    assert_eq!(d.level, 1_002_000_000);
    assert_eq!(d.time_alive, 1_000_000);
    let mut late = Difficulty { level: 1_500_000_000, time_alive: 70_000_000 };
    late.advance(1_000_000, 0);
    assert_eq!(late.level, 1_504_000_000);
    let mut hot = Difficulty { level: 1_500_000_000, time_alive: 130_000_000 };
    hot.advance(1_000_000, 1_000_000);
    assert_eq!(hot.level, 1_500_000_000 + 6_000_000 + 3_000_000);
    let mut top = Difficulty { level: LEVEL_MAX, time_alive: 130_000_000 };
    top.advance(1_000_000, 1_000_000);
    assert_eq!(top.level, LEVEL_MAX);
}

#[test]
fn heat_feeds_difficulty_only_after_ninety_seconds() {
    let mut d = Difficulty { level: 1_000_000_000, time_alive: 80_000_000 };
    d.advance(0, 1_000_000);
    assert_eq!(d.level, 1_000_000_000);
    let mut e = Difficulty { level: 1_000_000_000, time_alive: 90_000_000 };
    e.advance(1_000, 500_000);
    assert_eq!(e.level, 1_000_000_000 + 4_000 + 1_500_000);
}

#[test]
fn short_ticks_still_grow_difficulty() {
    let mut d = Difficulty::new();
    for _ in 0..1_000 {
        d.advance(400, 0);
    }
    assert_eq!(d.level, 1_000_800_000);
    assert_eq!(d.time_alive, 400_000);
}

#[test]
fn overload_heats_and_release_cools() {
    let mut e = Economy::new();
    e.apply_overload(true);
    assert_eq!((e.heat, e.speed_multiplier, e.overloading), (800, 2, true));
    e.apply_overload(false);
    assert_eq!((e.heat, e.speed_multiplier, e.overloading), (400, 1, false));
    e.apply_overload(false);
    e.apply_overload(false);
    assert_eq!(e.heat, 0);
    e.heat = 99_500;
    e.apply_overload(true);
    assert_eq!(e.heat, 100_000);
}

#[test]
fn score_awards_depend_on_overload() {
    let mut e = Economy::new();
    e.collect_present();
    assert_eq!(e.score, 10);
    e.overloading = true;
    e.collect_present();
    assert_eq!(e.score, 35);
    e.score = u64::MAX - 3;
    e.collect_present();
    assert_eq!(e.score, u64::MAX);
}

#[test]
fn shake_grows_decays_and_snaps() {
    assert_eq!(shake_step(0, true), 800_000);
    assert_eq!(shake_step(5_500_000, true), 6_000_000);
    assert_eq!(shake_step(1_000_000, false), 900_000);
    assert_eq!(shake_step(11_000, false), 0);
}

#[test]
fn time_scale_eases_and_slows_near_ceiling() {
    assert_eq!(ease_time_scale(0, 0), 50_000);
    assert_eq!(ease_time_scale(1_000_000, 84_999), 1_000_000);
    assert_eq!(ease_time_scale(1_000_000, 85_000), 1_000_000);
    assert_eq!(ease_time_scale(1_000_000, 92_500), 750_000);
    assert_eq!(ease_time_scale(1_000_000, 100_000), 500_000);
    assert_eq!(ease_time_scale(999_990, 0), 999_991);
    let mut v = 0;
    for _ in 0..1_000 {
        v = ease_time_scale(v, 0);
    }
    assert_eq!(v, 1_000_000);
}

#[test]
fn fade_ramps_to_its_ceiling() {
    assert_eq!(fade_step(0, 1_000_000), 600_000);
    assert_eq!(fade_step(600_000, 1_000_000), 850_000);
    assert_eq!(fade_step(0, 16_000), 9_600);
}
