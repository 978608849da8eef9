use vstd::prelude::*;
use crate::units::{clamp, clamp_i64};
use crate::timer::Countdown;
use crate::difficulty::Difficulty;
use crate::economy::{Economy, HEAT_MAX};
use crate::feedback::{
    SCALE_FULL, SHAKE_MAX, FADE_MAX, shaken, eased, faded, shake_step, ease_time_scale, fade_step,
};
use crate::entity::{
    Entity, EntityKind, Motion, interval, interval_bounds, lemma_interval_monotone, spawn_interval, advanced_all, first_hit, all_wf,
    lemma_advanced_all_wf, lemma_first_hit_is_first, hits, FIELD_HALF_WIDTH, SNOW_HALF_WIDTH, SPAWN_HEIGHT, SNOW_SPAWN_HEIGHT,
    SNOW_PERIOD,
};

verus! {

/// The hit-freeze lasts 0.15 s.
pub const FREEZE_PERIOD: u64 = 150_000;
/// How far the player moves per tick and held direction.
pub const PLAYER_STEP: i64 = 5_000;
/// How far from the middle the player may go.
pub const PLAYER_BOUND: i64 = 320_000;
/// The height at which the player stands.
pub const PLAYER_HEIGHT: i64 = -250_000;
/// The first spawn period of presents, 1.2 s.
pub const PRESENT_START_PERIOD: u64 = 1_200_000;
/// The first spawn period of fans, 5 s.
pub const FAN_START_PERIOD: u64 = 5_000_000;
/// The first spawn period of corrupted bits, 2.5 s.
pub const BIT_START_PERIOD: u64 = 2_500_000;
/// The smallest snowflake, 2 units across.
pub const SNOW_SIZE_MIN: i64 = 2_000;
/// Snowflakes are less than 4 units across.
pub const SNOW_SIZE_END: i64 = 4_000;
/// The slowest snowflake falls 30 units a second.
pub const SNOW_SPEED_MIN: i64 = 30_000;
/// Snowflakes fall less than 80 units a second.
pub const SNOW_SPEED_END: i64 = 80_000;

#[derive(Clone, Copy, Debug, PartialEq, Eq, Structural)]
pub enum GameState {
    Menu,
    Playing,
    Crashed,
}

/// The short stall between a corrupted-bit hit and the crash.
#[derive(Clone, Copy, Debug, PartialEq, Eq, Structural)]
pub struct HitFreeze {
    pub timer: Countdown,
    pub active: bool,
}

/// Every value of the simulation but the entities.
#[derive(Clone, Copy, Debug, PartialEq, Eq, Structural)]
pub struct Core {
    pub state: GameState,
    pub economy: Economy,
    pub difficulty: Difficulty,
    /// The speed of play in millionths: zero while not playing.
    pub time_scale: u64,
    /// The screen-shake intensity in millionths.
    pub shake: u64,
    /// The game-over overlay's alpha in millionths.
    pub fade: u64,
    pub freeze: HitFreeze,
    /// Whether the crash sound of this run was already asked for.
    pub crash_sound_played: bool,
    pub player_x: i64,
    pub present_timer: Countdown,
    pub fan_timer: Countdown,
    pub bit_timer: Countdown,
    pub snow_timer: Countdown,
}

/// The decoded input signals of one tick, its length in microseconds, and
/// the heat curve `(heat / 100)^1.8` in millionths, read before the tick.
#[derive(Clone, Copy, Debug, PartialEq, Eq, Structural)]
pub struct TickInput {
    pub dt: u32,
    pub confirm_pressed: bool,
    pub reboot_pressed: bool,
    pub overload_pressed: bool,
    pub overload_held: bool,
    pub left_held: bool,
    pub right_held: bool,
    pub heat_curve: u32,
}

/// The random values a tick may use to place new entities.
#[derive(Clone, Copy, Debug, PartialEq, Eq, Structural)]
pub struct SpawnDraws {
    pub present_x: i64,
    pub fan_x: i64,
    pub bit_x: i64,
    pub snow_x: i64,
    pub snow_size: i64,
    pub snow_speed: i64,
}

/// What happened during the last tick, for sound and display.
#[derive(Clone, Copy, Debug, PartialEq, Eq, Structural)]
pub struct Events {
    pub started: bool,
    pub overload_started: bool,
    pub present_collected: bool,
    pub fan_collected: bool,
    pub bit_hit: bool,
    pub crashed: bool,
    pub crash_sound: bool,
    pub rebooted: bool,
}

/// The whole simulation.
pub struct Game {
    pub core: Core,
    pub entities: Vec<Entity>,
    pub events: Events,
}

pub struct GameView {
    pub core: Core,
    pub entities: Seq<Entity>,
    pub events: Events,
}

impl View for Game {
    type V = GameView;

    open spec fn view(&self) -> GameView {
        GameView { core: self.core, entities: self.entities@, events: self.events }
    }
}

impl SpawnDraws {
    pub open spec fn wf(self) -> bool {
        &&& -FIELD_HALF_WIDTH <= self.present_x < FIELD_HALF_WIDTH
        &&& -FIELD_HALF_WIDTH <= self.fan_x < FIELD_HALF_WIDTH
        &&& -FIELD_HALF_WIDTH <= self.bit_x < FIELD_HALF_WIDTH
        &&& -SNOW_HALF_WIDTH <= self.snow_x < SNOW_HALF_WIDTH
        &&& SNOW_SIZE_MIN <= self.snow_size < SNOW_SIZE_END
        &&& SNOW_SPEED_MIN <= self.snow_speed < SNOW_SPEED_END
    }
}

pub open spec fn no_events() -> Events {
    Events {
        started: false,
        overload_started: false,
        present_collected: false,
        fan_collected: false,
        bit_hit: false,
        crashed: false,
        crash_sound: false,
        rebooted: false,
    }
}


/// The entity a spawner of the kind places with the given draws.
pub open spec fn spawned_entity(kind: EntityKind, d: SpawnDraws) -> Entity {
    match kind {
        EntityKind::Present => Entity { kind, x: d.present_x, y: SPAWN_HEIGHT, speed: 0, size: 0 },
        EntityKind::Fan => Entity { kind, x: d.fan_x, y: SPAWN_HEIGHT, speed: 0, size: 0 },
        EntityKind::CorruptedBit => Entity { kind, x: d.bit_x, y: SPAWN_HEIGHT, speed: 0, size: 0 },
        EntityKind::Snowflake => Entity {
            kind,
            x: d.snow_x,
            y: SNOW_SPAWN_HEIGHT,
            speed: d.snow_speed,
            size: d.snow_size,
        },
    }
}

/// A spawner's countdown after a tick: it runs, then takes the period of
/// the current level (snowflakes keep theirs).
pub open spec fn spawner_ticked(t: Countdown, kind: EntityKind, level: int, dt: int) -> Countdown {
    if kind == EntityKind::Snowflake {
        t.ticked(dt)
    } else {
        Countdown { duration: interval(kind, level) as u64, ..t.ticked(dt) }
    }
}

/// The entities after a spawner's tick: one more at the end when its
/// countdown completed.
pub open spec fn spawner_output(s: Seq<Entity>, t: Countdown, kind: EntityKind, level: int, dt: int, d: SpawnDraws) -> Seq<Entity> {
    if spawner_ticked(t, kind, level, dt).just_finished_spec() {
        s.push(spawned_entity(kind, d))
    } else {
        s
    }
}

/// Runs a spawner's countdown for `dt`, gives it the period of `level`
/// (snowflakes keep theirs), and places an entity when it completed.
fn spawner_tick(
    t: &mut Countdown,
    entities: &mut Vec<Entity>,
    kind: EntityKind,
    level: u64,
    dt: u32,
    d: &SpawnDraws,
)
    requires
        spawner_wf(*old(t), kind),
        all_wf(old(entities)@),
        d.wf(),
        crate::difficulty::LEVEL_MIN <= level <= crate::difficulty::LEVEL_MAX,
    ensures
        *final(t) == spawner_ticked(*old(t), kind, level as int, dt as int),
        spawner_wf(*final(t), kind),
        final(entities)@ == spawner_output(old(entities)@, *old(t), kind, level as int, dt as int, *d),
        all_wf(final(entities)@),
{
    proof {
        lemma_interval_monotone(kind, level as int, level as int);
    }
    t.tick(dt);
    if kind != EntityKind::Snowflake {
        t.set_duration(spawn_interval(kind, level));
    }
    if t.just_finished() {
        let e = match kind {
            EntityKind::Present => Entity { kind, x: d.present_x, y: SPAWN_HEIGHT, speed: 0, size: 0 },
            EntityKind::Fan => Entity { kind, x: d.fan_x, y: SPAWN_HEIGHT, speed: 0, size: 0 },
            EntityKind::CorruptedBit => Entity { kind, x: d.bit_x, y: SPAWN_HEIGHT, speed: 0, size: 0 },
            EntityKind::Snowflake => Entity {
                kind,
                x: d.snow_x,
                y: SNOW_SPAWN_HEIGHT,
                speed: d.snow_speed,
                size: d.snow_size,
            },
        };
        proof {
            lemma_push_keeps_wf(entities@, e);
        }
        entities.push(e);
    }
}

/// A spawner's countdown repeats, with a period within its kind's bounds.
pub open spec fn spawner_wf(t: Countdown, kind: EntityKind) -> bool {
    &&& t.wf()
    &&& t.repeating
    &&& interval_bounds(kind).0 <= t.duration <= interval_bounds(kind).1
}

/// A countdown of the given period with no progress.
pub open spec fn fresh_countdown(duration: u64, repeating: bool) -> Countdown {
    Countdown { duration, elapsed: 0, repeating, finished: false, completions: 0 }
}

/// The simulation at program start: at the menu, level 1.0, nothing
/// heated, full speed, no shake or fade, no hit-freeze armed, the player in
/// the middle, and every countdown at its start period with no progress.
pub open spec fn initial_core() -> Core {
    Core {
        state: GameState::Menu,
        economy: Economy::initial(),
        difficulty: Difficulty { level: crate::difficulty::LEVEL_MIN, time_alive: 0 },
        time_scale: SCALE_FULL,
        shake: 0,
        fade: 0,
        freeze: HitFreeze { timer: fresh_countdown(FREEZE_PERIOD, false), active: false },
        crash_sound_played: false,
        player_x: 0,
        present_timer: fresh_countdown(PRESENT_START_PERIOD, true),
        fan_timer: fresh_countdown(FAN_START_PERIOD, true),
        bit_timer: fresh_countdown(BIT_START_PERIOD, true),
        snow_timer: fresh_countdown(SNOW_PERIOD, true),
    }
}

impl Core {
    pub open spec fn wf(self) -> bool {
        &&& self.economy.wf()
        &&& self.difficulty.wf()
        &&& self.time_scale <= SCALE_FULL
        &&& self.shake <= SHAKE_MAX
        &&& self.fade <= FADE_MAX
        &&& self.freeze.timer.wf()
        &&& !self.freeze.timer.repeating
        &&& self.freeze.timer.duration == FREEZE_PERIOD
        &&& self.freeze.active ==> !self.freeze.timer.finished && self.freeze.timer.elapsed
            < FREEZE_PERIOD
        &&& spawner_wf(self.present_timer, EntityKind::Present)
        &&& spawner_wf(self.fan_timer, EntityKind::Fan)
        &&& spawner_wf(self.bit_timer, EntityKind::CorruptedBit)
        &&& spawner_wf(self.snow_timer, EntityKind::Snowflake)
        &&& -PLAYER_BOUND <= self.player_x <= PLAYER_BOUND
        &&& self.state == GameState::Menu ==> self.economy.heat == 0 && !self.freeze.active
    }

    pub open spec fn playing(self) -> bool {
        self.state == GameState::Playing
    }

    pub open spec fn motion(self, dt: int) -> Motion {
        Motion {
            level: self.difficulty.level,
            multiplier: self.economy.speed_multiplier,
            time_scale: self.time_scale,
            dt: dt as u32,
        }
    }
}

impl GameView {
    pub open spec fn wf(self) -> bool {
        self.core.wf() && all_wf(self.entities)
    }

    pub open spec fn with_core(self, core: Core) -> GameView {
        GameView { core, ..self }
    }

    /// The confirm input leaves the menu.
    pub open spec fn menu_step(self, confirm: bool) -> GameView {
        if self.core.state == GameState::Menu && confirm {
            GameView {
                core: Core { state: GameState::Playing, ..self.core },
                events: Events { started: true, ..self.events },
                ..self
            }
        } else {
            self
        }
    }

    /// While armed during play, the hit-freeze countdown runs; when it
    /// completes, the run crashes and the hit-freeze is disarmed.
    pub open spec fn freeze_step(self, dt: int) -> GameView {
        if self.core.playing() && self.core.freeze.active {
            let t = self.core.freeze.timer.ticked(dt);
            if t.finished {
                GameView {
                    core: Core {
                        state: GameState::Crashed,
                        freeze: HitFreeze { timer: t, active: false },
                        ..self.core
                    },
                    events: Events { crashed: true, ..self.events },
                    ..self
                }
            } else {
                self.with_core(Core { freeze: HitFreeze { timer: t, ..self.core.freeze }, ..self.core })
            }
        } else {
            self
        }
    }

    pub open spec fn difficulty_step(self, dt: int, curve: int) -> GameView {
        if self.core.playing() {
            self.with_core(Core { difficulty: self.core.difficulty.advanced(dt, curve), ..self.core })
        } else {
            self
        }
    }

    pub open spec fn movement_step(self, left: bool, right: bool) -> GameView {
        if self.core.playing() {
            let d: int = (if right { PLAYER_STEP as int } else { 0 }) - (if left { PLAYER_STEP as int } else { 0 });
            self.with_core(
                Core {
                    player_x: clamp(self.core.player_x + d, -PLAYER_BOUND as int, PLAYER_BOUND as int) as i64,
                    ..self.core
                },
            )
        } else {
            self
        }
    }

    pub open spec fn timer_of(self, kind: EntityKind) -> Countdown {
        match kind {
            EntityKind::Present => self.core.present_timer,
            EntityKind::Fan => self.core.fan_timer,
            EntityKind::CorruptedBit => self.core.bit_timer,
            EntityKind::Snowflake => self.core.snow_timer,
        }
    }

    pub open spec fn with_timer(self, kind: EntityKind, t: Countdown) -> GameView {
        match kind {
            EntityKind::Present => self.with_core(Core { present_timer: t, ..self.core }),
            EntityKind::Fan => self.with_core(Core { fan_timer: t, ..self.core }),
            EntityKind::CorruptedBit => self.with_core(Core { bit_timer: t, ..self.core }),
            EntityKind::Snowflake => self.with_core(Core { snow_timer: t, ..self.core }),
        }
    }

    /// During play, the spawner of the kind runs its countdown and, when it
    /// completes, places one entity.
    pub open spec fn spawn_step(self, kind: EntityKind, dt: int, d: SpawnDraws) -> GameView {
        if self.core.playing() {
            let level = self.core.difficulty.level as int;
            let t = self.timer_of(kind);
            GameView {
                entities: spawner_output(self.entities, t, kind, level, dt, d),
                ..self.with_timer(kind, spawner_ticked(t, kind, level, dt))
            }
        } else {
            self
        }
    }

    /// During play, every entity falls, and those past their floor go.
    pub open spec fn fall_step(self, dt: int) -> GameView {
        if self.core.playing() {
            GameView { entities: advanced_all(self.entities, self.core.motion(dt)), ..self }
        } else {
            self
        }
    }

    /// The index of the first entity of the kind in catch range of the
    /// player, or the number of entities.
    pub open spec fn hit_index(self, kind: EntityKind) -> int {
        first_hit(self.entities, kind, self.core.player_x as int, PLAYER_HEIGHT as int, 0)
    }

    /// During play, the first present in range is caught and scores.
    pub open spec fn present_step(self) -> GameView {
        let j = self.hit_index(EntityKind::Present);
        if self.core.playing() && j < self.entities.len() {
            GameView {
                core: Core { economy: self.core.economy.with_present(), ..self.core },
                entities: self.entities.remove(j),
                events: Events { present_collected: true, ..self.events },
            }
        } else {
            self
        }
    }

    /// During play, the first fan in range is caught and cools.
    pub open spec fn fan_step(self) -> GameView {
        let j = self.hit_index(EntityKind::Fan);
        if self.core.playing() && j < self.entities.len() {
            GameView {
                core: Core { economy: self.core.economy.with_fan(), ..self.core },
                entities: self.entities.remove(j),
                events: Events { fan_collected: true, ..self.events },
            }
        } else {
            self
        }
    }

    /// During play and while no hit-freeze is armed, the first corrupted bit
    /// in range is removed and arms it from the start.
    pub open spec fn bit_step(self) -> GameView {
        let j = self.hit_index(EntityKind::CorruptedBit);
        if self.core.playing() && !self.core.freeze.active && j < self.entities.len() {
            GameView {
                core: Core {
                    freeze: HitFreeze { timer: self.core.freeze.timer.cleared(), active: true },
                    ..self.core
                },
                entities: self.entities.remove(j),
                events: Events { bit_hit: true, ..self.events },
            }
        } else {
            self
        }
    }

    /// During play, full heat crashes the run.
    pub open spec fn crash_step(self) -> GameView {
        if self.core.playing() && self.core.economy.heat >= HEAT_MAX {
            GameView {
                core: Core { state: GameState::Crashed, ..self.core },
                events: Events { crashed: true, ..self.events },
                ..self
            }
        } else {
            self
        }
    }

    /// After a crash the crash sound is asked for once.
    pub open spec fn crash_sound_step(self) -> GameView {
        if self.core.state == GameState::Crashed && !self.core.crash_sound_played {
            GameView {
                core: Core { crash_sound_played: true, ..self.core },
                events: Events { crash_sound: true, ..self.events },
                ..self
            }
        } else {
            self
        }
    }

    /// The shake moves only during play; the time scale eases during play
    /// and is zero otherwise; the fade darkens after a crash and is zero
    /// otherwise.
    pub open spec fn feedback_step(self, dt: int) -> GameView {
        let c = self.core;
        self.with_core(
            Core {
                shake: if c.playing() {
                    shaken(c.shake as int, c.economy.overloading) as u64
                } else {
                    c.shake
                },
                time_scale: if c.playing() {
                    eased(c.time_scale as int, c.economy.heat as int) as u64
                } else {
                    0
                },
                fade: if c.state == GameState::Crashed {
                    faded(c.fade as int, dt) as u64
                } else {
                    0
                },
                ..c
            },
        )
    }

    /// The reboot input after a crash starts a new run: score, heat, level,
    /// survival time, fade and the crash-sound latch go back to their start,
    /// and a hit-freeze still armed is disarmed and cleared.
    pub open spec fn restart_step(self, reboot: bool) -> GameView {
        if self.core.state == GameState::Crashed && reboot {
            GameView {
                core: Core {
                    state: GameState::Playing,
                    economy: Economy::initial(),
                    difficulty: Difficulty { level: crate::difficulty::LEVEL_MIN, time_alive: 0 },
                    fade: 0,
                    crash_sound_played: false,
                    freeze: HitFreeze { timer: self.core.freeze.timer.cleared(), active: false },
                    ..self.core
                },
                events: Events { rebooted: true, ..self.events },
                ..self
            }
        } else {
            self
        }
    }

    /// The stages of a tick up to the overload: the menu input, the
    /// hit-freeze countdown, the difficulty, the player and the overload, with
    /// the events of the last tick cleared first.
    pub open spec fn control_stages(self, input: TickInput) -> GameView {
        let dt = input.dt as int;
        let v0 = GameView { events: no_events(), ..self };
        let v1 = v0.menu_step(input.confirm_pressed);
        let v2 = v1.freeze_step(dt);
        let v3 = v2.difficulty_step(dt, input.heat_curve as int);
        let v4 = v3.movement_step(input.left_held, input.right_held);
        v4.overload_step(input.overload_pressed, input.overload_held)
    }

    /// The stages of a tick from the crash check on: the crash check, the
    /// crash sound, the feedback values and the restart.
    pub open spec fn outcome_stages(self, input: TickInput) -> GameView {
        let v14 = self.crash_step();
        let v15 = v14.crash_sound_step();
        let v16 = v15.feedback_step(input.dt as int);
        v16.restart_step(input.reboot_pressed)
    }

    /// One tick of the simulation, stage by stage.
    pub open spec fn next(self, input: TickInput, d: SpawnDraws) -> GameView {
        let dt = input.dt as int;
        let v5 = self.control_stages(input);
        let v6 = v5.spawn_step(EntityKind::Present, dt, d);
        let v7 = v6.spawn_step(EntityKind::Fan, dt, d);
        let v8 = v7.spawn_step(EntityKind::CorruptedBit, dt, d);
        let v9 = v8.spawn_step(EntityKind::Snowflake, dt, d);
        let v10 = v9.fall_step(dt);
        let v11 = v10.present_step();
        let v12 = v11.fan_step();
        let v13 = v12.bit_step();
        v13.outcome_stages(input)
    }

    pub open spec fn overload_step(self, pressed: bool, held: bool) -> GameView {
        if self.core.playing() {
            GameView {
                core: Core { economy: self.core.economy.overloaded(held), ..self.core },
                events: Events { overload_started: self.events.overload_started || pressed, ..self.events },
                ..self
            }
        } else {
            self
        }
    }
}

impl Game {
    /// A new simulation at the menu: no entities, level 1.0, nothing heated.
    pub fn new() -> (r: Game)
        ensures
            r@.wf(),
            r@.core == initial_core(),
            r@.entities.len() == 0,
            r@.events == no_events(),
    {
        let core = Core {
            state: GameState::Menu,
            economy: Economy::new(),
            difficulty: Difficulty::new(),
            time_scale: SCALE_FULL,
            shake: 0,
            fade: 0,
            freeze: HitFreeze { timer: Countdown::new_once(FREEZE_PERIOD), active: false },
            crash_sound_played: false,
            player_x: 0,
            present_timer: Countdown::new_repeating(PRESENT_START_PERIOD),
            fan_timer: Countdown::new_repeating(FAN_START_PERIOD),
            bit_timer: Countdown::new_repeating(BIT_START_PERIOD),
            snow_timer: Countdown::new_repeating(SNOW_PERIOD),
        };
        Game { core, entities: Vec::new(), events: Events::none() }
    }

    /// Leaves the menu for play on the confirm input.
    pub fn menu_input(&mut self, confirm: bool)
        requires
            old(self)@.wf(),
        ensures
            final(self)@ == old(self)@.menu_step(confirm),
            final(self)@.wf(),
    {
        if self.core.state == GameState::Menu && confirm {
            self.core.state = GameState::Playing;
            self.events.started = true;
        }
    }

    /// Runs the armed hit-freeze countdown during play; when it completes,
    /// the run crashes and the hit-freeze is disarmed.
    pub fn hit_freeze_system(&mut self, dt: u32)
        requires
            old(self)@.wf(),
        ensures
            final(self)@ == old(self)@.freeze_step(dt as int),
            final(self)@.wf(),
    {
        if self.core.state == GameState::Playing && self.core.freeze.active {
            self.core.freeze.timer.tick(dt);
            if self.core.freeze.timer.finished {
                self.core.freeze.active = false;
                self.core.state = GameState::Crashed;
                self.events.crashed = true;
            }
        }
    }

    /// Grows the difficulty during play.
    pub fn update_difficulty(&mut self, dt: u32, heat_curve: u32)
        requires
            old(self)@.wf(),
        ensures
            final(self)@ == old(self)@.difficulty_step(dt as int, heat_curve as int),
            final(self)@.wf(),
    {
        if self.core.state == GameState::Playing {
            self.core.difficulty.advance(dt, heat_curve);
        }
    }

    /// Moves the player by a step per held direction, within bounds.
    pub fn player_movement(&mut self, left: bool, right: bool)
        requires
            old(self)@.wf(),
        ensures
            final(self)@ == old(self)@.movement_step(left, right),
            final(self)@.wf(),
    {
        if self.core.state == GameState::Playing {
            let mut x = self.core.player_x;
            if left {
                x = x - PLAYER_STEP;
            }
            if right {
                x = x + PLAYER_STEP;
            }
            self.core.player_x = clamp_i64(x, -PLAYER_BOUND, PLAYER_BOUND);
        }
    }

    /// Runs one spawner during play.
    fn run_spawner(&mut self, kind: EntityKind, dt: u32, d: &SpawnDraws)
        requires
            old(self)@.wf(),
            d.wf(),
        ensures
            final(self)@ == old(self)@.spawn_step(kind, dt as int, *d),
            final(self)@.wf(),
    {
        if self.core.state != GameState::Playing {
            return;
        }
        let level = self.core.difficulty.level;
        match kind {
            EntityKind::Present => spawner_tick(&mut self.core.present_timer, &mut self.entities, kind, level, dt, d),
            EntityKind::Fan => spawner_tick(&mut self.core.fan_timer, &mut self.entities, kind, level, dt, d),
            EntityKind::CorruptedBit => spawner_tick(&mut self.core.bit_timer, &mut self.entities, kind, level, dt, d),
            EntityKind::Snowflake => spawner_tick(&mut self.core.snow_timer, &mut self.entities, kind, level, dt, d),
        }
    }

    /// Spawns a present when the present countdown completes: every
    /// `1.2 / level` s, within `[0.3, 1.2]` s.
    pub fn spawn_presents(&mut self, dt: u32, d: &SpawnDraws)
        requires
            old(self)@.wf(),
            d.wf(),
        ensures
            final(self)@ == old(self)@.spawn_step(EntityKind::Present, dt as int, *d),
            final(self)@.wf(),
    {
        self.run_spawner(EntityKind::Present, dt, d);
    }

    /// Spawns a fan when the fan countdown completes: every `5 * level` s,
    /// within `[3, 8]` s.
    pub fn spawn_fans(&mut self, dt: u32, d: &SpawnDraws)
        requires
            old(self)@.wf(),
            d.wf(),
        ensures
            final(self)@ == old(self)@.spawn_step(EntityKind::Fan, dt as int, *d),
            final(self)@.wf(),
    {
        self.run_spawner(EntityKind::Fan, dt, d);
    }

    /// Spawns a corrupted bit when its countdown completes: every
    /// `2.5 / level` s, within `[0.6, 2.5]` s.
    pub fn spawn_corrupted_bits(&mut self, dt: u32, d: &SpawnDraws)
        requires
            old(self)@.wf(),
            d.wf(),
        ensures
            final(self)@ == old(self)@.spawn_step(EntityKind::CorruptedBit, dt as int, *d),
            final(self)@.wf(),
    {
        self.run_spawner(EntityKind::CorruptedBit, dt, d);
    }

    /// Spawns a snowflake every 0.05 s of play.
    pub fn spawn_snowflakes(&mut self, dt: u32, d: &SpawnDraws)
        requires
            old(self)@.wf(),
            d.wf(),
        ensures
            final(self)@ == old(self)@.spawn_step(EntityKind::Snowflake, dt as int, *d),
            final(self)@.wf(),
    {
        self.run_spawner(EntityKind::Snowflake, dt, d);
    }

    /// During play, lets every entity fall by its kind's rule and removes
    /// those past their floor.
    pub fn move_entities(&mut self, dt: u32)
        requires
            old(self)@.wf(),
        ensures
            final(self)@ == old(self)@.fall_step(dt as int),
            final(self)@.wf(),
    {
        if self.core.state != GameState::Playing {
            return;
        }
        let m = Motion {
            level: self.core.difficulty.level,
            multiplier: self.core.economy.speed_multiplier,
            time_scale: self.core.time_scale,
            dt,
        };
        let ghost s = self.entities@;
        let mut out: Vec<Entity> = Vec::new();
        let mut i: usize = 0;
        while i < self.entities.len()
            invariant
                0 <= i <= s.len(),
                self.entities@ == s,
                all_wf(s),
                m.wf(),
                m == self.core.motion(dt as int),
                out@ == advanced_all(s.take(i as int), m),
            decreases s.len() - i,
        {
            let e = self.entities[i];
            assert(s[i as int].wf());
            let n = e.fallen(m);
            let lowest: i64 = if n.kind == EntityKind::Snowflake {
                crate::entity::SNOW_FLOOR
            } else {
                crate::entity::FLOOR
            };
            if n.y >= lowest {
                out.push(n);
            }
            proof {
                assert(s.take(i + 1).drop_last() =~= s.take(i as int));
                assert(s.take(i + 1).last() == s[i as int]);
            }
            i = i + 1;
        }
        proof {
            assert(s.take(s.len() as int) =~= s);
            lemma_advanced_all_wf(s, m);
        }
        self.entities = out;
    }

    /// The index of the first entity of the kind in catch range of the
    /// player, or the number of entities when there is none.
    pub fn find_hit(&self, kind: EntityKind) -> (r: usize)
        requires
            self@.wf(),
        ensures
            r == self@.hit_index(kind),
            r <= self.entities.len(),
            r < self.entities.len() ==> hits(
                self.entities@[r as int],
                kind,
                self.core.player_x as int,
                PLAYER_HEIGHT as int,
            ),
            forall|k: int|
                0 <= k < r ==> !hits(
                    #[trigger] self.entities@[k],
                    kind,
                    self.core.player_x as int,
                    PLAYER_HEIGHT as int,
                ),
    {
        let ghost s = self.entities@;
        let px = self.core.player_x;
        let mut i: usize = 0;
        while i < self.entities.len()
            invariant
                0 <= i <= s.len(),
                self.entities@ == s,
                all_wf(s),
                -PLAYER_BOUND <= px <= PLAYER_BOUND,
                px == self.core.player_x,
                first_hit(s, kind, px as int, PLAYER_HEIGHT as int, i as int) == self@.hit_index(kind),
            decreases s.len() - i,
        {
            assert(s[i as int].wf());
            if self.entities[i].touches(kind, px, PLAYER_HEIGHT) {
                proof {
                    lemma_first_hit_is_first(s, kind, px as int, PLAYER_HEIGHT as int, 0);
                }
                return i;
            }
            i = i + 1;
        }
        proof {
            lemma_first_hit_is_first(s, kind, px as int, PLAYER_HEIGHT as int, 0);
        }
        i
    }

    fn remove_entity(&mut self, j: usize) -> (r: Entity)
        requires
            old(self)@.wf(),
            j < old(self).entities.len(),
        ensures
            final(self).entities@ == old(self).entities@.remove(j as int),
            final(self).core == old(self).core,
            final(self).events == old(self).events,
            all_wf(final(self).entities@),
            r == old(self).entities@[j as int],
    {
        proof {
            lemma_remove_keeps_wf(self.entities@, j as int);
        }
        self.entities.remove(j)
    }

    /// During play, catches the first present in range: it goes and scores
    /// 25 while overloading, else 10.
    pub fn collect_presents(&mut self)
        requires
            old(self)@.wf(),
        ensures
            final(self)@ == old(self)@.present_step(),
            final(self)@.wf(),
    {
        if self.core.state != GameState::Playing {
            return;
        }
        let j = self.find_hit(EntityKind::Present);
        if j < self.entities.len() {
            self.remove_entity(j);
            self.core.economy.collect_present();
            self.events.present_collected = true;
        }
    }

    /// During play, catches the first fan in range: it goes, and heat drops
    /// by 25 down to zero. Removing it at once keeps it from being caught
    /// twice.
    pub fn collect_fans(&mut self)
        requires
            old(self)@.wf(),
        ensures
            final(self)@ == old(self)@.fan_step(),
            final(self)@.wf(),
    {
        if self.core.state != GameState::Playing {
            return;
        }
        let j = self.find_hit(EntityKind::Fan);
        if j < self.entities.len() {
            self.remove_entity(j);
            self.core.economy.collect_fan();
            self.events.fan_collected = true;
        }
    }

    /// During play with no hit-freeze armed, the first corrupted bit in
    /// range goes and arms the hit-freeze from the start.
    pub fn hit_corrupted_bits(&mut self)
        requires
            old(self)@.wf(),
        ensures
            final(self)@ == old(self)@.bit_step(),
            final(self)@.wf(),
    {
        if self.core.state != GameState::Playing || self.core.freeze.active {
            return;
        }
        let j = self.find_hit(EntityKind::CorruptedBit);
        if j < self.entities.len() {
            self.remove_entity(j);
            self.core.freeze.active = true;
            self.core.freeze.timer.reset();
            self.events.bit_hit = true;
        }
    }

    /// Crashes the run during play at full heat.
    pub fn crash_check(&mut self)
        requires
            old(self)@.wf(),
        ensures
            final(self)@ == old(self)@.crash_step(),
            final(self)@.wf(),
    {
        if self.core.state == GameState::Playing && self.core.economy.heat >= HEAT_MAX {
            self.core.state = GameState::Crashed;
            self.events.crashed = true;
        }
    }

    /// Asks once per crash for the crash sound.
    pub fn crash_sound_latch(&mut self)
        requires
            old(self)@.wf(),
        ensures
            final(self)@ == old(self)@.crash_sound_step(),
            final(self)@.wf(),
    {
        if self.core.state == GameState::Crashed && !self.core.crash_sound_played {
            self.core.crash_sound_played = true;
            self.events.crash_sound = true;
        }
    }

    /// Recomputes the screen shake, the time scale and the game-over fade.
    pub fn update_feedback(&mut self, dt: u32)
        requires
            old(self)@.wf(),
        ensures
            final(self)@ == old(self)@.feedback_step(dt as int),
            final(self)@.wf(),
    {
        let playing = self.core.state == GameState::Playing;
        if playing {
            self.core.shake = shake_step(self.core.shake, self.core.economy.overloading);
            self.core.time_scale = ease_time_scale(self.core.time_scale, self.core.economy.heat);
        } else {
            self.core.time_scale = 0;
        }
        if self.core.state == GameState::Crashed {
            self.core.fade = fade_step(self.core.fade, dt);
        } else {
            self.core.fade = 0;
        }
    }

    /// Starts a new run on the reboot input after a crash.
    pub fn restart_game(&mut self, reboot: bool)
        requires
            old(self)@.wf(),
        ensures
            final(self)@ == old(self)@.restart_step(reboot),
            final(self)@.wf(),
    {
        if self.core.state == GameState::Crashed && reboot {
            self.core.economy = Economy::new();
            self.core.difficulty = Difficulty::new();
            self.core.fade = 0;
            self.core.crash_sound_played = false;
            self.core.freeze.active = false;
            self.core.freeze.timer.reset();
            self.core.state = GameState::Playing;
            self.events.rebooted = true;
        }
    }

    /// Advances the simulation by one tick, in order: the menu input, the
    /// hit-freeze countdown (whose end crashes the run), the difficulty, the
    /// player, the overload, the spawners, the fall of entities, the catches,
    /// the full-heat crash check, the crash sound, the feedback values and
    /// the restart. `events` then holds
    /// what happened during the tick. Every bounded value stays within its
    /// bounds.
    pub fn step(&mut self, input: &TickInput, d: &SpawnDraws)
        requires
            old(self)@.wf(),
            d.wf(),
        ensures
            final(self)@ == old(self)@.next(*input, *d),
            final(self)@.wf(),
    {
        let dt = input.dt;
        self.events = Events::none();
        self.menu_input(input.confirm_pressed);
        self.hit_freeze_system(dt);
        self.update_difficulty(dt, input.heat_curve);
        self.player_movement(input.left_held, input.right_held);
        self.overload_system(input.overload_pressed, input.overload_held);
        self.spawn_presents(dt, d);
        self.spawn_fans(dt, d);
        self.spawn_corrupted_bits(dt, d);
        self.spawn_snowflakes(dt, d);
        self.move_entities(dt);
        self.collect_presents();
        self.collect_fans();
        self.hit_corrupted_bits();
        self.crash_check();
        self.crash_sound_latch();
        self.update_feedback(dt);
        self.restart_game(input.reboot_pressed);
    }

    /// Applies the overload input to the economy during play.
    pub fn overload_system(&mut self, pressed: bool, held: bool)
        requires
            old(self)@.wf(),
        ensures
            final(self)@ == old(self)@.overload_step(pressed, held),
            final(self)@.wf(),
    {
        if self.core.state == GameState::Playing {
            self.core.economy.apply_overload(held);
            self.events.overload_started = self.events.overload_started || pressed;
        }
    }
}

proof fn lemma_remove_keeps_wf(s: Seq<Entity>, j: int)
    requires
        all_wf(s),
        0 <= j < s.len(),
    ensures
        all_wf(s.remove(j)),
{
    assert forall|i: int| 0 <= i < s.remove(j).len() implies #[trigger] s.remove(j)[i].wf() by {
        if i < j {
            assert(s[i].wf());
        } else {
            assert(s[i + 1].wf());
        }
    }
}

proof fn lemma_push_keeps_wf(s: Seq<Entity>, e: Entity)
    requires
        all_wf(s),
        e.wf(),
    ensures
        all_wf(s.push(e)),
{
    assert forall|i: int| 0 <= i < s.push(e).len() implies #[trigger] s.push(e)[i].wf() by {
        if i < s.len() {
            assert(s[i].wf());
        }
    }
}

proof fn lemma_spawn_keeps_wf(v: GameView, kind: EntityKind, dt: int, d: SpawnDraws)
    requires
        v.wf(),
        d.wf(),
        0 <= dt <= u32::MAX,
    ensures
        v.spawn_step(kind, dt, d).wf(),
{
    if v.core.playing() {
        let level = v.core.difficulty.level as int;
        lemma_interval_monotone(kind, level, level);
        if spawner_ticked(v.timer_of(kind), kind, level, dt).just_finished_spec() {
            lemma_push_keeps_wf(v.entities, spawned_entity(kind, d));
        }
    }
}

proof fn lemma_early_stages_keep_wf(v: GameView, input: TickInput)
    requires
        v.wf(),
    ensures
        v.control_stages(input).wf(),
{
}

proof fn lemma_fall_keeps_wf(v: GameView, dt: int)
    requires
        v.wf(),
        0 <= dt <= u32::MAX,
    ensures
        v.fall_step(dt).wf(),
{
    if v.core.playing() {
        lemma_advanced_all_wf(v.entities, v.core.motion(dt));
    }
}

proof fn lemma_catches_keep_wf(v: GameView)
    requires
        v.wf(),
    ensures
        v.present_step().wf(),
        v.present_step().fan_step().wf(),
        v.present_step().fan_step().bit_step().wf(),
{
    let px = v.core.player_x as int;
    let py = PLAYER_HEIGHT as int;
    lemma_first_hit_is_first(v.entities, EntityKind::Present, px, py, 0);
    if v.core.playing() && v.hit_index(EntityKind::Present) < v.entities.len() {
        lemma_remove_keeps_wf(v.entities, v.hit_index(EntityKind::Present));
    }
    let v1 = v.present_step();
    lemma_first_hit_is_first(v1.entities, EntityKind::Fan, px, py, 0);
    if v1.core.playing() && v1.hit_index(EntityKind::Fan) < v1.entities.len() {
        lemma_remove_keeps_wf(v1.entities, v1.hit_index(EntityKind::Fan));
    }
    let v2 = v1.fan_step();
    lemma_first_hit_is_first(v2.entities, EntityKind::CorruptedBit, px, py, 0);
    if v2.core.playing() && !v2.core.freeze.active && v2.hit_index(EntityKind::CorruptedBit)
        < v2.entities.len() {
        lemma_remove_keeps_wf(v2.entities, v2.hit_index(EntityKind::CorruptedBit));
    }
}

proof fn lemma_late_stages_keep_wf(v: GameView, input: TickInput)
    requires
        v.wf(),
    ensures
        v.outcome_stages(input).wf(),
{
}

/// Every tick keeps every bounded value within its bounds: heat in
/// `[0, 100]`, the level in `[1.0, 3.2]`, the time scale in `[0, 1]`, the
/// fade in `[0, 0.85]`, the shake in `[0, 6]`, the player on the field and
/// every entity in bounds.
pub proof fn lemma_tick_keeps_bounds(v: GameView, input: TickInput, d: SpawnDraws)
    requires
        v.wf(),
        d.wf(),
    ensures
        v.next(input, d).wf(),
        v.next(input, d).core.economy.heat <= HEAT_MAX,
        crate::difficulty::LEVEL_MIN <= v.next(input, d).core.difficulty.level
            <= crate::difficulty::LEVEL_MAX,
        v.next(input, d).core.time_scale <= SCALE_FULL,
        v.next(input, d).core.fade <= FADE_MAX,
        v.next(input, d).core.shake <= SHAKE_MAX,
{
    let dt = input.dt as int;
    lemma_early_stages_keep_wf(v, input);
    let v5 = v.control_stages(input);
    lemma_spawn_keeps_wf(v5, EntityKind::Present, dt, d);
    let v6 = v5.spawn_step(EntityKind::Present, dt, d);
    lemma_spawn_keeps_wf(v6, EntityKind::Fan, dt, d);
    let v7 = v6.spawn_step(EntityKind::Fan, dt, d);
    lemma_spawn_keeps_wf(v7, EntityKind::CorruptedBit, dt, d);
    let v8 = v7.spawn_step(EntityKind::CorruptedBit, dt, d);
    lemma_spawn_keeps_wf(v8, EntityKind::Snowflake, dt, d);
    let v9 = v8.spawn_step(EntityKind::Snowflake, dt, d);
    lemma_fall_keeps_wf(v9, dt);
    let v10 = v9.fall_step(dt);
    lemma_catches_keep_wf(v10);
    let v13 = v10.present_step().fan_step().bit_step();
    lemma_late_stages_keep_wf(v13, input);
}

/// An armed hit-freeze lasts exactly its period of 0.15 s. During play, a
/// tick that brings its elapsed time to the period crashes the run and
/// disarms it; a shorter tick keeps play going and the hit-freeze armed,
/// with its elapsed time grown by the tick.
pub proof fn lemma_hit_freeze_timing(v: GameView, dt: int)
    requires
        v.wf(),
        v.core.playing(),
        v.core.freeze.active,
        0 <= dt <= u32::MAX,
    ensures
        v.core.freeze.timer.elapsed + dt >= FREEZE_PERIOD ==> {
            &&& v.freeze_step(dt).core.state == GameState::Crashed
            &&& !v.freeze_step(dt).core.freeze.active
        },
        v.core.freeze.timer.elapsed + dt < FREEZE_PERIOD ==> {
            &&& v.freeze_step(dt).core.state == GameState::Playing
            &&& v.freeze_step(dt).core.freeze.active
            &&& v.freeze_step(dt).core.freeze.timer.elapsed == v.core.freeze.timer.elapsed + dt
        },
{
}

/// A whole tick without the reboot input in which an armed hit-freeze
/// reaches its period ends in a crash with the hit-freeze disarmed.
pub proof fn lemma_hit_freeze_crashes_tick(v: GameView, input: TickInput, d: SpawnDraws)
    requires
        v.wf(),
        v.core.playing(),
        v.core.freeze.active,
        v.core.freeze.timer.elapsed + input.dt >= FREEZE_PERIOD,
        !input.reboot_pressed,
    ensures
        v.next(input, d).core.state == GameState::Crashed,
        !v.next(input, d).core.freeze.active,
        v.next(input, d).events.crashed,
{
}

/// A reboot after a crash is a total reset: the tick ends in play with no
/// score, no heat, level 1.0, no survival time, no fade and the crash-sound
/// latch cleared.
pub proof fn lemma_restart_resets(v: GameView, input: TickInput, d: SpawnDraws)
    requires
        v.wf(),
        v.core.state == GameState::Crashed,
        input.reboot_pressed,
    ensures
        v.next(input, d).core.state == GameState::Playing,
        v.next(input, d).core.economy.score == 0,
        v.next(input, d).core.economy.heat == 0,
        v.next(input, d).core.difficulty.level == crate::difficulty::LEVEL_MIN,
        v.next(input, d).core.difficulty.time_alive == 0,
        v.next(input, d).core.fade == 0,
        !v.next(input, d).core.crash_sound_played,
        !v.next(input, d).core.freeze.active,
{
}

/// The menu is only ever left, never entered; a crash only comes from play;
/// play comes from play, from the menu on confirm, or from a crash on
/// reboot. In particular no tick goes from the menu to a crash.
pub proof fn lemma_state_reachability(v: GameView, input: TickInput, d: SpawnDraws)
    requires
        v.wf(),
    ensures
        v.next(input, d).core.state == GameState::Menu ==> v.core.state == GameState::Menu,
        v.next(input, d).core.state == GameState::Crashed ==> v.core.state != GameState::Menu,
        v.next(input, d).core.state == GameState::Playing ==> {
            ||| v.core.state == GameState::Playing
            ||| (v.core.state == GameState::Menu && input.confirm_pressed)
            ||| (v.core.state == GameState::Crashed && input.reboot_pressed)
        },
{
    let dt = input.dt as int;
    let v5 = v.control_stages(input);
    let v6 = v5.spawn_step(EntityKind::Present, dt, d);
    let v7 = v6.spawn_step(EntityKind::Fan, dt, d);
    let v8 = v7.spawn_step(EntityKind::CorruptedBit, dt, d);
    let v9 = v8.spawn_step(EntityKind::Snowflake, dt, d);
    let v10 = v9.fall_step(dt);
    let v11 = v10.present_step();
    let v12 = v11.fan_step();
    let v13 = v12.bit_step();
    if v.core.state == GameState::Menu {
        assert(v13.core.economy.heat <= 800);
        assert(v13.core.freeze.active ==> !v13.core.freeze.timer.finished);
    }
}

impl Events {
    pub fn none() -> (r: Events)
        ensures
            r == no_events(),
    {
        Events {
            started: false,
            overload_started: false,
            present_collected: false,
            fan_collected: false,
            bit_hit: false,
            crashed: false,
            crash_sound: false,
            rebooted: false,
        }
    }
}

} // verus!
