use vstd::prelude::*;
use vstd::arithmetic::div_mod::{lemma_div_is_ordered_by_denominator};
use crate::units::{clamp, clamp_u64};
use crate::difficulty::{LEVEL_MIN, LEVEL_MAX};
use crate::feedback::SCALE_FULL;

verus! {

/// Half the width of the strip in which gameplay entities appear.
pub const FIELD_HALF_WIDTH: i64 = 300_000;
/// Half the width of the strip in which snowflakes appear.
pub const SNOW_HALF_WIDTH: i64 = 380_000;
/// Where gameplay entities appear.
pub const SPAWN_HEIGHT: i64 = 300_000;
/// Where snowflakes appear.
pub const SNOW_SPAWN_HEIGHT: i64 = 380_000;
/// Gameplay entities below this are removed.
pub const FLOOR: i64 = -350_000;
/// Snowflakes below this are removed.
pub const SNOW_FLOOR: i64 = -380_000;
/// The bound on any coordinate of an entity.
pub const COORD_BOUND: i64 = 1_000_000;
/// The bound on a snowflake's fall speed, in thousandths of a unit a second.
pub const SPEED_BOUND: i64 = 1_000_000;
/// Snowflakes appear every 0.05 s.
pub const SNOW_PERIOD: u64 = 50_000;

#[derive(Clone, Copy, Debug, PartialEq, Eq, Structural)]
pub enum EntityKind {
    Present,
    Fan,
    CorruptedBit,
    Snowflake,
}

/// A falling entity. `speed` (thousandths of a unit a second) and `size`
/// matter for snowflakes only.
#[derive(Clone, Copy, Debug, PartialEq, Eq, Structural)]
pub struct Entity {
    pub kind: EntityKind,
    pub x: i64,
    pub y: i64,
    pub speed: i64,
    pub size: i64,
}

/// What the fall of an entity in one tick depends on.
#[derive(Clone, Copy, Debug, PartialEq, Eq)]
pub struct Motion {
    pub level: u64,
    pub multiplier: u64,
    pub time_scale: u64,
    pub dt: u32,
}

impl Motion {
    pub open spec fn wf(self) -> bool {
        &&& LEVEL_MIN <= self.level <= LEVEL_MAX
        &&& 1 <= self.multiplier <= 2
        &&& self.time_scale <= SCALE_FULL
    }
}

/// The spawn period of a kind at a difficulty level, in microseconds:
/// `1.2 / level` s in `[0.3, 1.2]` for presents, `5.0 * level` s in
/// `[3, 8]` for fans, `2.5 / level` s in `[0.6, 2.5]` for corrupted bits,
/// and a fixed 0.05 s for snowflakes.
pub open spec fn interval(kind: EntityKind, level: int) -> int {
    match kind {
        EntityKind::Present => clamp(1_200_000_000_000_000int / level, 300_000, 1_200_000),
        EntityKind::Fan => clamp(5 * level / 1000, 3_000_000, 8_000_000),
        EntityKind::CorruptedBit => clamp(2_500_000_000_000_000int / level, 600_000, 2_500_000),
        EntityKind::Snowflake => SNOW_PERIOD as int,
    }
}

/// The lowest and highest spawn period of a kind.
pub open spec fn interval_bounds(kind: EntityKind) -> (int, int) {
    match kind {
        EntityKind::Present => (300_000, 1_200_000),
        EntityKind::Fan => (3_000_000, 8_000_000),
        EntityKind::CorruptedBit => (600_000, 2_500_000),
        EntityKind::Snowflake => (SNOW_PERIOD as int, SNOW_PERIOD as int),
    }
}

pub fn spawn_interval(kind: EntityKind, level: u64) -> (r: u64)
    requires
        LEVEL_MIN <= level <= LEVEL_MAX,
    ensures
        r == interval(kind, level as int),
        0 < r <= 8_000_000,
{
    match kind {
        EntityKind::Present => clamp_u64(1_200_000_000_000_000 / level, 300_000, 1_200_000),
        EntityKind::Fan => clamp_u64(5 * level / 1000, 3_000_000, 8_000_000),
        EntityKind::CorruptedBit => clamp_u64(2_500_000_000_000_000 / level, 600_000, 2_500_000),
        EntityKind::Snowflake => SNOW_PERIOD,
    }
}

/// Every spawn period stays within its kind's bounds, and for presents,
/// corrupted bits and snowflakes a higher level never lengthens it. Fans are
/// left out of the second part: their period `5.0 * level` grows with the
/// level.
pub proof fn lemma_interval_monotone(kind: EntityKind, low: int, high: int)
    requires
        LEVEL_MIN <= low <= high <= LEVEL_MAX,
    ensures
        interval_bounds(kind).0 <= interval(kind, low) <= interval_bounds(kind).1,
        interval_bounds(kind).0 <= interval(kind, high) <= interval_bounds(kind).1,
        kind != EntityKind::Fan ==> interval(kind, high) <= interval(kind, low),
{
    lemma_div_is_ordered_by_denominator(1_200_000_000_000_000, low, high);
    lemma_div_is_ordered_by_denominator(2_500_000_000_000_000, low, high);
}

/// The lowest point an entity of a kind may reach before removal.
pub open spec fn floor_of(kind: EntityKind) -> int {
    if kind == EntityKind::Snowflake {
        SNOW_FLOOR as int
    } else {
        FLOOR as int
    }
}

/// The catch radius of a kind: 40 for presents and fans, 35 for corrupted
/// bits; snowflakes are never caught.
pub open spec fn radius_of(kind: EntityKind) -> int {
    match kind {
        EntityKind::Present => 40_000,
        EntityKind::Fan => 40_000,
        EntityKind::CorruptedBit => 35_000,
        EntityKind::Snowflake => 0,
    }
}

/// How far an entity falls in one tick: `3.0 * level * multiplier * scale`
/// for presents, `2.0 * level * scale` for fans, `4.5 * level * multiplier
/// * scale` for corrupted bits, and its own speed over the elapsed time for
/// snowflakes.
pub open spec fn fall(e: Entity, m: Motion) -> int {
    match e.kind {
        EntityKind::Present => scaled(3000, m.level as int, m.multiplier as int, m.time_scale as int),
        EntityKind::Fan => scaled(2000, m.level as int, 1, m.time_scale as int),
        EntityKind::CorruptedBit => scaled(4500, m.level as int, m.multiplier as int, m.time_scale as int),
        EntityKind::Snowflake => e.speed * m.dt / 1_000_000,
    }
}

/// `base * level * multiplier * scale`, with level in billionths and scale
/// in millionths.
pub open spec fn scaled(base: int, level: int, multiplier: int, scale: int) -> int {
    base * level * multiplier * scale / 1_000_000_000_000_000
}

/// `base * level * multiplier * scale` for a base of at most 4500.
pub fn scaled_fall(base: u64, level: u64, multiplier: u64, scale: u64) -> (r: u64)
    requires
        base <= 4500,
        level <= LEVEL_MAX,
        multiplier <= 2,
        scale <= SCALE_FULL,
    ensures
        r == scaled(base as int, level as int, multiplier as int, scale as int),
        r <= 28_800,
{
    let b = base as u128;
    let l = level as u128;
    let m = multiplier as u128;
    let s = scale as u128;
    proof {
        assert(b * l <= 4500 * 3_200_000_000) by (nonlinear_arith)
            requires
                b <= 4500,
                l <= 3_200_000_000,
        ;
        assert(b * l * m <= 4500 * 3_200_000_000 * 2) by (nonlinear_arith)
            requires
                b * l <= 4500 * 3_200_000_000,
                m <= 2,
        ;
        assert(b * l * m * s <= 4500 * 3_200_000_000 * 2 * 1_000_000) by (nonlinear_arith)
            requires
                b * l * m <= 4500 * 3_200_000_000 * 2,
                s <= 1_000_000,
        ;
    }
    (b * l * m * s / 1_000_000_000_000_000) as u64
}

/// A tick's fall is never negative, and at most what the slowest tick lets a
/// snowflake fall.
pub proof fn lemma_fall_bounds(e: Entity, m: Motion)
    requires
        e.wf(),
        m.wf(),
    ensures
        0 <= fall(e, m) <= 5_000_000_000,
{
    match e.kind {
        EntityKind::Snowflake => {
            assert(0 <= e.speed * m.dt <= 1_000_000 * 0xffff_ffff) by (nonlinear_arith)
                requires
                    0 <= e.speed <= 1_000_000,
                    0 <= m.dt <= 0xffff_ffff,
            ;
        },
        _ => {
            let mult: int = if e.kind == EntityKind::Fan { 1 } else { m.multiplier as int };
            let base: int = match e.kind {
                EntityKind::Present => 3000,
                EntityKind::Fan => 2000,
                _ => 4500,
            };
            assert(0 <= base * m.level * mult * m.time_scale <= 4500 * 3_200_000_000 * 2
                * 1_000_000) by (nonlinear_arith)
                requires
                    0 <= base <= 4500,
                    0 <= m.level <= 3_200_000_000,
                    0 <= mult <= 2,
                    0 <= m.time_scale <= 1_000_000,
            ;
        },
    }
}

/// Whether an entity of the kind is within catch range of a point.
pub open spec fn hits(e: Entity, kind: EntityKind, px: int, py: int) -> bool {
    &&& e.kind == kind
    &&& (e.x - px) * (e.x - px) + (e.y - py) * (e.y - py) < radius_of(kind) * radius_of(kind)
}

impl Entity {
    pub open spec fn wf(self) -> bool {
        &&& -COORD_BOUND <= self.x <= COORD_BOUND
        &&& -COORD_BOUND <= self.y <= COORD_BOUND
        &&& 0 <= self.speed <= SPEED_BOUND
    }

    pub open spec fn moved(self, m: Motion) -> Entity {
        Entity { y: (self.y - fall(self, m)) as i64, ..self }
    }

    /// The entity after one tick of falling.
    pub fn fallen(&self, m: Motion) -> (r: Entity)
        requires
            self.wf(),
            m.wf(),
        ensures
            r == self.moved(m),
    {
        proof {
            lemma_fall_bounds(*self, m);
        }
        let d: i64 = match self.kind {
            EntityKind::Present => scaled_fall(3000, m.level, m.multiplier, m.time_scale) as i64,
            EntityKind::Fan => scaled_fall(2000, m.level, 1, m.time_scale) as i64,
            EntityKind::CorruptedBit => scaled_fall(4500, m.level, m.multiplier, m.time_scale) as i64,
            EntityKind::Snowflake => self.speed * (m.dt as i64) / 1_000_000,
        };
        Entity { y: self.y - d, ..*self }
    }

    /// Whether the entity is of the kind and within its catch range of the
    /// point.
    pub fn touches(&self, kind: EntityKind, px: i64, py: i64) -> (r: bool)
        requires
            self.wf(),
            -COORD_BOUND <= px <= COORD_BOUND,
            -COORD_BOUND <= py <= COORD_BOUND,
        ensures
            r == hits(*self, kind, px as int, py as int),
    {
        if self.kind != kind {
            return false;
        }
        let r: i64 = match kind {
            EntityKind::Present => 40_000,
            EntityKind::Fan => 40_000,
            EntityKind::CorruptedBit => 35_000,
            EntityKind::Snowflake => 0,
        };
        let dx = self.x - px;
        let dy = self.y - py;
        proof {
            assert(dx * dx <= 4_000_000_000_000) by (nonlinear_arith)
                requires
                    -2_000_000 <= dx <= 2_000_000,
            ;
            assert(dy * dy <= 4_000_000_000_000) by (nonlinear_arith)
                requires
                    -2_000_000 <= dy <= 2_000_000,
            ;
            assert(dx * dx >= 0 && dy * dy >= 0) by (nonlinear_arith);
        }
        dx * dx + dy * dy < r * r
    }
}

/// The entities after one tick of falling, without those that passed their
/// kind's floor, in the same order.
pub open spec fn advanced_all(s: Seq<Entity>, m: Motion) -> Seq<Entity>
    decreases s.len(),
{
    if s.len() == 0 {
        s
    } else {
        let rest = advanced_all(s.drop_last(), m);
        let e = s.last().moved(m);
        if e.y < floor_of(e.kind) {
            rest
        } else {
            rest.push(e)
        }
    }
}

/// The first index from `i` on of an entity of the kind within catch range
/// of the point, or the length when there is none.
pub open spec fn first_hit(s: Seq<Entity>, kind: EntityKind, px: int, py: int, i: int) -> int
    decreases s.len() - i,
{
    if 0 <= i < s.len() {
        if hits(s[i], kind, px, py) {
            i
        } else {
            first_hit(s, kind, px, py, i + 1)
        }
    } else {
        s.len() as int
    }
}

pub open spec fn all_wf(s: Seq<Entity>) -> bool {
    forall|i: int| 0 <= i < s.len() ==> #[trigger] s[i].wf()
}

/// First match wins: the index found from `i` is that of an entity in
/// range, and none between `i` and it is; when it is the length, none from
/// `i` on is in range.
pub proof fn lemma_first_hit_is_first(s: Seq<Entity>, kind: EntityKind, px: int, py: int, i: int)
    requires
        0 <= i <= s.len(),
    ensures
        i <= first_hit(s, kind, px, py, i) <= s.len(),
        first_hit(s, kind, px, py, i) < s.len() ==> hits(
            s[first_hit(s, kind, px, py, i)],
            kind,
            px,
            py,
        ),
        forall|k: int| i <= k < first_hit(s, kind, px, py, i) ==> !hits(#[trigger] s[k], kind, px, py),
    decreases s.len() - i,
{
    if i < s.len() && !hits(s[i], kind, px, py) {
        lemma_first_hit_is_first(s, kind, px, py, i + 1);
    }
}

/// Falling keeps every entity in bounds.
pub proof fn lemma_advanced_all_wf(s: Seq<Entity>, m: Motion)
    requires
        all_wf(s),
        m.wf(),
    ensures
        all_wf(advanced_all(s, m)),
        advanced_all(s, m).len() <= s.len(),
    decreases s.len(),
{
    if s.len() > 0 {
        lemma_advanced_all_wf(s.drop_last(), m);
        let e = s.last();
        assert(e.wf());
        lemma_fall_bounds(e, m);
        let rest = advanced_all(s.drop_last(), m);
        let n = e.moved(m);
        if n.y >= floor_of(n.kind) {
            assert forall|i: int| 0 <= i < rest.push(n).len() implies #[trigger] rest.push(
                n,
            )[i].wf() by {
                if i < rest.len() {
                    assert(rest[i].wf());
                }
            }
        }
    }
}

} // verus!
