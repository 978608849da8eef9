use overheat::difficulty::{Difficulty, LEVEL_MAX, LEVEL_MIN};
use overheat::entity::{spawn_interval, Entity, EntityKind, Motion};
use overheat::game::{Game, GameState, SpawnDraws, TickInput, PLAYER_HEIGHT};

fn draws() -> SpawnDraws {
    SpawnDraws {
        present_x: 100_000,
        fan_x: -100_000,
        bit_x: 200_000,
        snow_x: 0,
        snow_size: 3_000,
        snow_speed: 50_000,
    }
}

fn input(dt: u32) -> TickInput {
    TickInput {
        dt,
        confirm_pressed: false,
        reboot_pressed: false,
        overload_pressed: false,
        overload_held: false,
        left_held: false,
        right_held: false,
        heat_curve: 0,
    }
}

fn playing() -> Game {
    let mut g = Game::new();
    g.core.state = GameState::Playing;
    g
}

fn at_player(kind: EntityKind, x: i64) -> Entity {
    Entity { kind, x, y: PLAYER_HEIGHT, speed: 0, size: 0 }
}

#[test]
fn overload_for_one_second_heats_to_eight() {
    let mut g = playing();
    let mut i = input(100_000);
    i.overload_held = true;
    for _ in 0..10 {
        g.step(&i, &draws());
    }
    assert_eq!(g.core.difficulty.level >= LEVEL_MIN, true);
    assert_eq!(g.core.economy.heat, 8_000);
    assert_eq!(g.core.economy.speed_multiplier, 2);
    assert!(g.core.economy.overloading);
    assert_eq!(g.core.economy.score, 0);
}

#[test]
fn corrupted_bit_freezes_then_crashes_after_fifteen_hundredths() {
    let mut g = playing();
    g.entities.push(at_player(EntityKind::CorruptedBit, 0));
    let i = input(50_000);
    g.step(&i, &draws());
    assert!(g.core.freeze.active);
    assert!(g.events.bit_hit);
    assert_eq!(g.core.state, GameState::Playing);
    assert!(g.entities.iter().all(|e| e.kind != EntityKind::CorruptedBit));
    g.step(&i, &draws());
    assert_eq!(g.core.state, GameState::Playing);
    g.step(&i, &draws());
    assert_eq!(g.core.state, GameState::Playing);
    assert!(g.core.freeze.active);
    g.step(&i, &draws());
    assert_eq!(g.core.state, GameState::Crashed);
    assert!(!g.core.freeze.active);
    assert!(g.events.crashed);
    assert!(g.events.crash_sound);
}

#[test]
fn second_bit_is_ignored_while_frozen() {
    let mut g = playing();
    g.core.freeze.active = true;
    g.entities.push(at_player(EntityKind::CorruptedBit, 0));
    g.hit_corrupted_bits();
    assert_eq!(g.entities.len(), 1);
    assert!(!g.events.bit_hit);
}

#[test]
fn fan_cools_by_twenty_five_once() {
    let mut g = playing();
    g.core.economy.heat = 50_000;
    g.entities.push(at_player(EntityKind::Fan, 0));
    g.collect_fans();
    assert_eq!(g.core.economy.heat, 25_000);
    assert!(g.events.fan_collected);
    assert_eq!(g.entities.len(), 0);
    g.collect_fans();
    assert_eq!(g.core.economy.heat, 25_000);
}

#[test]
fn fan_cooling_stops_at_zero() {
    let mut g = playing();
    g.core.economy.heat = 10_000;
    g.entities.push(at_player(EntityKind::Fan, 10_000));
    g.collect_fans();
    assert_eq!(g.core.economy.heat, 0);
}

#[test]
fn only_first_of_two_presents_in_range_is_caught() {
    let mut g = playing();
    g.entities.push(at_player(EntityKind::Present, 30_000));
    g.entities.push(at_player(EntityKind::Present, 0));
    g.collect_presents();
    assert_eq!(g.core.economy.score, 10);
    assert_eq!(g.entities.len(), 1);
    assert_eq!(g.entities[0].x, 0);
}

#[test]
fn present_scores_more_while_overloading() {
    let mut g = playing();
    g.core.economy.overloading = true;
    g.entities.push(at_player(EntityKind::Present, 0));
    g.collect_presents();
    assert_eq!(g.core.economy.score, 25);
}

#[test]
fn present_out_of_range_is_not_caught() {
    let mut g = playing();
    g.entities.push(at_player(EntityKind::Present, 40_000));
    g.entities.push(at_player(EntityKind::Fan, 30_000));
    g.collect_presents();
    assert_eq!(g.core.economy.score, 0);
    assert_eq!(g.entities.len(), 2);
}

#[test]
fn full_heat_crashes_on_next_tick() {
    let mut g = playing();
    g.core.economy.heat = 100_000;
    let mut i = input(16_000);
    i.overload_held = true;
    g.step(&i, &draws());
    assert_eq!(g.core.state, GameState::Crashed);
    assert!(g.events.crashed);
}

#[test]
fn full_heat_crashes_while_frozen() {
    let mut g = playing();
    g.core.economy.heat = 100_000;
    g.core.freeze.active = true;
    g.crash_check();
    assert_eq!(g.core.state, GameState::Crashed);
    assert!(g.core.freeze.active);
}

#[test]
fn reboot_resets_the_run() {
    let mut g = playing();
    g.core.state = GameState::Crashed;
    g.core.economy.score = 340;
    g.core.economy.heat = 100_000;
    g.core.difficulty = Difficulty { level: 2_500_000_000, time_alive: 95_000_000 };
    g.core.fade = 600_000;
    g.core.crash_sound_played = true;
    g.core.freeze.active = true;
    g.core.freeze.timer.elapsed = 100_000;
    let mut i = input(16_000);
    i.reboot_pressed = true;
    g.step(&i, &draws());
    assert_eq!(g.core.state, GameState::Playing);
    assert_eq!(g.core.economy.score, 0);
    assert_eq!(g.core.economy.heat, 0);
    assert_eq!(g.core.difficulty.level, LEVEL_MIN);
    assert_eq!(g.core.difficulty.time_alive, 0);
    assert_eq!(g.core.fade, 0);
    assert!(!g.core.crash_sound_played);
    assert!(!g.core.freeze.active);
    assert_eq!(g.core.freeze.timer.elapsed, 0);
    assert!(g.events.rebooted);
}

#[test]
fn run_after_reboot_does_not_inherit_a_hit_freeze() {
    let mut g = playing();
    g.core.economy.heat = 99_500;
    g.entities.push(at_player(EntityKind::CorruptedBit, 0));
    let mut i = input(50_000);
    i.overload_held = true;
    g.step(&i, &draws());
    assert!(g.events.bit_hit);
    assert_eq!(g.core.state, GameState::Crashed);
    i.overload_held = false;
    i.reboot_pressed = true;
    g.step(&i, &draws());
    assert_eq!(g.core.state, GameState::Playing);
    i.reboot_pressed = false;
    for _ in 0..5 {
        g.step(&i, &draws());
        assert_eq!(g.core.state, GameState::Playing);
    }
}

#[test]
fn freeze_expiry_crashes_in_the_freeze_step_alone() {
    let mut g = playing();
    g.core.freeze.active = true;
    g.core.freeze.timer.elapsed = 140_000;
    g.crash_check();
    assert_eq!(g.core.state, GameState::Playing);
    g.hit_freeze_system(5_000);
    assert_eq!(g.core.state, GameState::Playing);
    assert!(g.core.freeze.active);
    assert_eq!(g.core.freeze.timer.elapsed, 145_000);
    g.hit_freeze_system(5_000);
    assert_eq!(g.core.state, GameState::Crashed);
    assert!(!g.core.freeze.active);
    assert!(g.events.crashed);
}

#[test]
fn crash_check_only_looks_at_heat() {
    let mut g = playing();
    g.core.economy.heat = 99_999;
    g.crash_check();
    assert_eq!(g.core.state, GameState::Playing);
    g.core.economy.heat = 100_000;
    g.crash_check();
    assert_eq!(g.core.state, GameState::Crashed);
}

#[test]
fn new_game_timers_start_fresh() {
    let g = Game::new();
    assert_eq!(g.core.present_timer.duration, 1_200_000);
    assert_eq!(g.core.fan_timer.duration, 5_000_000);
    assert_eq!(g.core.bit_timer.duration, 2_500_000);
    assert_eq!(g.core.snow_timer.duration, 50_000);
    assert!(g.core.present_timer.repeating && g.core.snow_timer.repeating);
    assert_eq!(g.core.freeze.timer.duration, 150_000);
    assert!(!g.core.freeze.timer.repeating);
    assert_eq!(g.core.freeze.timer.elapsed, 0);
}

#[test]
fn menu_waits_for_confirm() {
    let mut g = Game::new();
    assert_eq!(g.core.state, GameState::Menu);
    let mut i = input(16_000);
    i.reboot_pressed = true;
    i.overload_held = true;
    g.step(&i, &draws());
    assert_eq!(g.core.state, GameState::Menu);
    assert_eq!(g.core.economy.heat, 0);
    assert_eq!(g.core.time_scale, 0);
    i.confirm_pressed = true;
    g.step(&i, &draws());
    assert_eq!(g.core.state, GameState::Playing);
    assert!(g.events.started);
    assert_eq!(g.core.economy.heat, 800);
}

#[test]
fn crashed_stays_crashed_without_reboot() {
    let mut g = playing();
    g.core.state = GameState::Crashed;
    let mut i = input(1_000_000);
    i.confirm_pressed = true;
    g.step(&i, &draws());
    assert_eq!(g.core.state, GameState::Crashed);
    assert_eq!(g.core.fade, 600_000);
    g.step(&i, &draws());
    assert_eq!(g.core.fade, 850_000);
}

#[test]
fn spawn_intervals_shrink_with_level_within_bounds() {
    assert_eq!(spawn_interval(EntityKind::Present, LEVEL_MIN), 1_200_000);
    assert_eq!(spawn_interval(EntityKind::Present, 2_000_000_000), 600_000);
    assert_eq!(spawn_interval(EntityKind::Present, LEVEL_MAX), 375_000);
    assert_eq!(spawn_interval(EntityKind::CorruptedBit, LEVEL_MIN), 2_500_000);
    assert_eq!(spawn_interval(EntityKind::CorruptedBit, LEVEL_MAX), 781_250);
    assert_eq!(spawn_interval(EntityKind::Snowflake, LEVEL_MAX), 50_000);
    let mut last_present = u64::MAX;
    let mut last_bit = u64::MAX;
    let mut level = LEVEL_MIN;
    while level <= LEVEL_MAX {
        let p = spawn_interval(EntityKind::Present, level);
        let b = spawn_interval(EntityKind::CorruptedBit, level);
        assert!(p <= last_present && (300_000..=1_200_000).contains(&p));
        assert!(b <= last_bit && (600_000..=2_500_000).contains(&b));
        let f = spawn_interval(EntityKind::Fan, level);
        assert!((3_000_000..=8_000_000).contains(&f));
        last_present = p;
        last_bit = b;
        level += 50_000_000;
    }
}

#[test]
fn fan_interval_grows_with_level() {
    assert_eq!(spawn_interval(EntityKind::Fan, LEVEL_MIN), 5_000_000);
    assert_eq!(spawn_interval(EntityKind::Fan, 1_200_000_000), 6_000_000);
    assert_eq!(spawn_interval(EntityKind::Fan, LEVEL_MAX), 8_000_000);
}

#[test]
fn present_spawns_after_its_period() {
    let mut g = playing();
    let i = input(600_000);
    g.step(&i, &draws());
    assert!(g.entities.iter().all(|e| e.kind != EntityKind::Present));
    g.step(&i, &draws());
    let presents: Vec<&Entity> =
        g.entities.iter().filter(|e| e.kind == EntityKind::Present).collect();
    assert_eq!(presents.len(), 1);
    assert_eq!(presents[0].x, 100_000);
    // 1.2 s of play raised the level to 1.0024, so it fell 3.0072.
    assert_eq!(g.core.difficulty.level, 1_002_400_000);
    assert_eq!(presents[0].y, 300_000 - 3_007);
}

#[test]
fn entities_fall_by_kind() {
    let m = Motion { level: LEVEL_MIN, multiplier: 2, time_scale: 1_000_000, dt: 100_000 };
    let e = |kind, speed| Entity { kind, x: 0, y: 0, speed, size: 0 };
    assert_eq!(e(EntityKind::Present, 0).fallen(m).y, -6_000);
    assert_eq!(e(EntityKind::Fan, 0).fallen(m).y, -2_000);
    assert_eq!(e(EntityKind::CorruptedBit, 0).fallen(m).y, -9_000);
    assert_eq!(e(EntityKind::Snowflake, 50_000).fallen(m).y, -5_000);
    let half = Motion { level: 2_000_000_000, multiplier: 1, time_scale: 500_000, dt: 0 };
    assert_eq!(e(EntityKind::Present, 0).fallen(half).y, -3_000);
}

#[test]
fn entities_past_the_floor_are_removed() {
    let mut g = playing();
    g.entities.push(Entity { kind: EntityKind::Present, x: 0, y: -349_000, speed: 0, size: 0 });
    g.entities.push(Entity { kind: EntityKind::Snowflake, x: 0, y: -370_000, speed: 40_000, size: 2_000 });
    g.entities.push(Entity { kind: EntityKind::Fan, x: 0, y: -347_000, speed: 0, size: 0 });
    g.move_entities(100_000);
    assert_eq!(g.entities.len(), 2);
    assert_eq!(g.entities[0].kind, EntityKind::Snowflake);
    assert_eq!(g.entities[0].y, -374_000);
    assert_eq!(g.entities[1].y, -349_000);
}

#[test]
fn nothing_moves_outside_play() {
    let mut g = playing();
    g.core.state = GameState::Crashed;
    g.entities.push(Entity { kind: EntityKind::Present, x: 0, y: 0, speed: 0, size: 0 });
    g.move_entities(100_000);
    assert_eq!(g.entities[0].y, 0);
}

#[test]
fn player_moves_and_stays_in_bounds() {
    let mut g = playing();
    g.player_movement(false, true);
    assert_eq!(g.core.player_x, 5_000);
    g.player_movement(true, true);
    assert_eq!(g.core.player_x, 5_000);
    g.core.player_x = -318_000;
    g.player_movement(true, false);
    assert_eq!(g.core.player_x, -320_000);
}

#[test]
fn bounds_hold_over_a_long_run() {
    let mut g = Game::new();
    let mut i = input(16_667);
    i.confirm_pressed = true;
    for n in 0..20_000u32 {
        i.overload_held = n % 7 < 4;
        i.left_held = n % 11 < 3;
        i.right_held = n % 13 < 5;
        i.reboot_pressed = n % 500 == 0;
        i.heat_curve = 600_000;
        let d = g.tick(&i);
        assert!(-300_000 <= d.present_x && d.present_x < 300_000);
        let c = &g.core;
        assert!(c.economy.heat <= 100_000);
        assert!((LEVEL_MIN..=LEVEL_MAX).contains(&c.difficulty.level));
        assert!(c.time_scale <= 1_000_000);
        assert!(c.fade <= 850_000);
        assert!(c.shake <= 6_000_000);
        assert!((-320_000..=320_000).contains(&c.player_x));
    }
}

#[test]
fn draws_spread_over_their_ranges() {
    let mut xs = Vec::new();
    for _ in 0..200 {
        let d = SpawnDraws::draw();
        assert!(-380_000 <= d.snow_x && d.snow_x < 380_000);
        assert!(2_000 <= d.snow_size && d.snow_size < 4_000);
        assert!(30_000 <= d.snow_speed && d.snow_speed < 80_000);
        xs.push(d.present_x);
    }
    assert!(xs.iter().any(|&x| x != -300_000));
    assert!(xs.iter().any(|&x| x != xs[0]));
}
