use vstd::prelude::*;
use crate::units::{clamp, clamp_u64};
use crate::economy::HEAT_MAX;

verus! {

/// The strongest screen shake, 6.0.
pub const SHAKE_MAX: u64 = 6_000_000;
/// Shake added per tick of overload, 0.8.
pub const SHAKE_STEP: u64 = 800_000;
/// Shake below this, 0.01, snaps to zero.
pub const SHAKE_FLOOR: u64 = 10_000;
/// Full speed of play, 1.0.
pub const SCALE_FULL: u64 = 1_000_000;
/// The slowest speed of play near the heat ceiling, 0.5.
pub const SCALE_SLOWEST: u64 = 500_000;
/// The heat from which play slows down: 85.
pub const SLOW_HEAT: u64 = 85_000;
/// The most the game-over overlay darkens, 0.85.
pub const FADE_MAX: u64 = 850_000;

/// The shake after one tick of play.
pub open spec fn shaken(shake: int, overloading: bool) -> int {
    let v = if overloading {
        clamp(shake + SHAKE_STEP, 0, SHAKE_MAX as int)
    } else {
        shake * 9 / 10
    };
    if v < SHAKE_FLOOR {
        0
    } else {
        v
    }
}

/// The time scale after one tick of play at the given heat: from heat 85 on,
/// linear from full speed down to half speed at heat 100; below it, a
/// twentieth of the gap back to full speed, rounded up so that full speed is
/// reached.
pub open spec fn eased(scale: int, heat: int) -> int {
    if heat >= SLOW_HEAT {
        clamp(SCALE_FULL - (heat - SLOW_HEAT) * 100 / 3, SCALE_SLOWEST as int, SCALE_FULL as int)
    } else {
        scale + (SCALE_FULL - scale + 19) / 20
    }
}

/// The fade after `dt` microseconds of the crash screen: 0.6 a second.
pub open spec fn faded(alpha: int, dt: int) -> int {
    clamp(alpha + dt * 3 / 5, 0, FADE_MAX as int)
}

/// Grows the shake by a step while overloading, else decays it by a tenth;
/// what is left below the floor becomes zero.
pub fn shake_step(shake: u64, overloading: bool) -> (r: u64)
    requires
        shake <= SHAKE_MAX,
    ensures
        r == shaken(shake as int, overloading),
        r <= SHAKE_MAX,
{
    let v = if overloading {
        clamp_u64(shake + SHAKE_STEP, 0, SHAKE_MAX)
    } else {
        shake * 9 / 10
    };
    if v < SHAKE_FLOOR {
        0
    } else {
        v
    }
}

/// Slows play near the heat ceiling; otherwise eases back toward full speed
/// by a twentieth of the gap, rounded up.
pub fn ease_time_scale(scale: u64, heat: u64) -> (r: u64)
    requires
        scale <= SCALE_FULL,
        heat <= HEAT_MAX,
    ensures
        r == eased(scale as int, heat as int),
        r <= SCALE_FULL,
{
    if heat >= SLOW_HEAT {
        let drop = (heat - SLOW_HEAT) * 100 / 3;
        let v = if drop > SCALE_FULL {
            0
        } else {
            SCALE_FULL - drop
        };
        clamp_u64(v, SCALE_SLOWEST, SCALE_FULL)
    } else {
        scale + (SCALE_FULL - scale + 19) / 20
    }
}

/// Darkens the game-over overlay by 0.6 a second, up to its ceiling.
pub fn fade_step(alpha: u64, dt: u32) -> (r: u64)
    requires
        alpha <= FADE_MAX,
    ensures
        r == faded(alpha as int, dt as int),
        r <= FADE_MAX,
{
    clamp_u64(alpha + (dt as u64) * 3 / 5, 0, FADE_MAX)
}

} // verus!
