use vstd::prelude::*;
use crate::units::{clamp, sat_add, clamp_u64, saturating_add_u64};

verus! {

/// The lowest difficulty level, 1.0.
pub const LEVEL_MIN: u64 = 1_000_000_000;
/// The highest difficulty level, 3.2.
pub const LEVEL_MAX: u64 = 3_200_000_000;
/// The survival time below which the level grows slowest: one minute.
pub const CALM_TIME: u64 = 60_000_000;
/// The survival time below which the level grows at the middle rate.
pub const TENSE_TIME: u64 = 120_000_000;
/// The survival time after which heat feeds the level: ninety seconds.
pub const HEAT_FEED_TIME: u64 = 90_000_000;
/// The heat curve at full heat, one million millionths.
pub const CURVE_FULL: u64 = 1_000_000;

/// Difficulty: a level in `[LEVEL_MIN, LEVEL_MAX]` (billionths) and the
/// survival time of the run (microseconds).
#[derive(Clone, Copy, Debug, PartialEq, Eq, Structural)]
pub struct Difficulty {
    pub level: u64,
    pub time_alive: u64,
}

/// Level growth in billionths of a level per microsecond, by survival time:
/// 0.002, 0.004 or 0.006 a second.
pub open spec fn growth_rate(time_alive: int) -> int {
    if time_alive < CALM_TIME {
        2
    } else if time_alive < TENSE_TIME {
        4
    } else {
        6
    }
}

/// The extra growth from heat past ninety seconds: `0.003 * curve`, where
/// `curve` is `(heat / 100)^1.8` in millionths, at most one.
pub open spec fn heat_feed(time_alive: int, curve: int) -> int {
    if time_alive > HEAT_FEED_TIME {
        3 * clamp(curve, 0, CURVE_FULL as int)
    } else {
        0
    }
}

impl Difficulty {
    pub open spec fn wf(self) -> bool {
        LEVEL_MIN <= self.level <= LEVEL_MAX
    }

    /// The difficulty after one tick of `dt` microseconds of play.
    pub open spec fn advanced(self, dt: int, curve: int) -> Difficulty {
        let t = sat_add(self.time_alive as int, dt);
        let grown = self.level + growth_rate(t) * dt + heat_feed(t, curve);
        Difficulty {
            level: clamp(grown, LEVEL_MIN as int, LEVEL_MAX as int) as u64,
            time_alive: t as u64,
        }
    }

    pub fn new() -> (r: Difficulty)
        ensures
            r.wf(),
            r == (Difficulty { level: LEVEL_MIN, time_alive: 0 }),
    {
        Difficulty { level: LEVEL_MIN, time_alive: 0 }
    }

    /// Advances the survival time by `dt` and grows the level by the rate
    /// for the new survival time, plus the heat feed; `heat_curve` is
    /// `(heat / 100)^1.8` in millionths.
    pub fn advance(&mut self, dt: u32, heat_curve: u32)
        requires
            old(self).wf(),
        ensures
            *final(self) == old(self).advanced(dt as int, heat_curve as int),
            final(self).wf(),
    {
        let t = saturating_add_u64(self.time_alive, dt as u64);
        let rate: u64 = if t < CALM_TIME {
            2
        } else if t < TENSE_TIME {
            4
        } else {
            6
        };
        let feed: u64 = if t > HEAT_FEED_TIME {
            3 * clamp_u64(heat_curve as u64, 0, CURVE_FULL)
        } else {
            0
        };
        let grown = self.level + rate * (dt as u64) + feed;
        self.level = clamp_u64(grown, LEVEL_MIN, LEVEL_MAX);
        self.time_alive = t;
    }
}

} // verus!
