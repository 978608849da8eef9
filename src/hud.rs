use vstd::prelude::*;
use crate::game::GameState;
use crate::economy::HEAT_MAX;

verus! {

/// Heat above this, 70, is shown as a warning.
pub const HEAT_WARNING: u64 = 70_000;

/// The background music volume for a state, in hundredths: calm in the
/// menu, louder in play, silent after a crash.
pub open spec fn volume_of(state: GameState) -> int {
    match state {
        GameState::Menu => 35,
        GameState::Playing => 55,
        GameState::Crashed => 0,
    }
}

pub fn music_volume(state: GameState) -> (r: u64)
    ensures
        r == volume_of(state),
{
    match state {
        GameState::Menu => 35,
        GameState::Playing => 55,
        GameState::Crashed => 0,
    }
}

/// The heat shown to the player: whole percentage points, rounded down.
pub fn heat_percent(heat: u64) -> (r: u64)
    requires
        heat <= HEAT_MAX,
    ensures
        r == heat / 1000,
        r <= 100,
{
    heat / 1000
}

/// Whether the heat is shown as a warning.
pub fn heat_is_high(heat: u64) -> (r: bool)
    ensures
        r == (heat > HEAT_WARNING),
{
    heat > HEAT_WARNING
}

} // verus!
