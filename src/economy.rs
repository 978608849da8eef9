use vstd::prelude::*;
use crate::units::{clamp, sat_add, clamp_u64, saturating_add_u64};

verus! {

/// Full heat, 100 percent.
pub const HEAT_MAX: u64 = 100_000;
/// Heat gained per tick of overload: 0.8.
pub const OVERLOAD_HEAT: u64 = 800;
/// Heat lost per tick without overload: 0.4.
pub const COOLDOWN_HEAT: u64 = 400;
/// Heat taken away by a cooling fan: 25.
pub const FAN_COOLING: u64 = 25_000;
/// Score for a present caught while overloading.
pub const BONUS_AWARD: u64 = 25;
/// Score for a present caught otherwise.
pub const PLAIN_AWARD: u64 = 10;

/// Score and heat.
#[derive(Clone, Copy, Debug, PartialEq, Eq, Structural)]
pub struct Economy {
    pub score: u64,
    pub heat: u64,
    pub speed_multiplier: u64,
    pub overloading: bool,
}

/// The score a present is worth.
pub open spec fn award(overloading: bool) -> int {
    if overloading {
        BONUS_AWARD as int
    } else {
        PLAIN_AWARD as int
    }
}

impl Economy {
    pub open spec fn wf(self) -> bool {
        &&& self.heat <= HEAT_MAX
        &&& 1 <= self.speed_multiplier <= 2
    }

    /// The economy at the start of a run.
    pub open spec fn initial() -> Economy {
        Economy { score: 0, heat: 0, speed_multiplier: 1, overloading: false }
    }

    /// One tick of the overload input: held, it doubles the speed and heats;
    /// released, it cools.
    pub open spec fn overloaded(self, held: bool) -> Economy {
        if held {
            Economy {
                overloading: true,
                speed_multiplier: 2,
                heat: clamp(self.heat + OVERLOAD_HEAT, 0, HEAT_MAX as int) as u64,
                ..self
            }
        } else {
            Economy {
                overloading: false,
                speed_multiplier: 1,
                heat: clamp(self.heat - COOLDOWN_HEAT, 0, HEAT_MAX as int) as u64,
                ..self
            }
        }
    }

    pub open spec fn with_present(self) -> Economy {
        Economy { score: sat_add(self.score as int, award(self.overloading)) as u64, ..self }
    }

    pub open spec fn with_fan(self) -> Economy {
        Economy { heat: clamp(self.heat - FAN_COOLING, 0, HEAT_MAX as int) as u64, ..self }
    }

    pub fn new() -> (r: Economy)
        ensures
            r.wf(),
            r == Economy::initial(),
    {
        Economy { score: 0, heat: 0, speed_multiplier: 1, overloading: false }
    }

    pub fn apply_overload(&mut self, held: bool)
        requires
            old(self).wf(),
        ensures
            *final(self) == old(self).overloaded(held),
            final(self).wf(),
    {
        if held {
            self.overloading = true;
            self.speed_multiplier = 2;
            self.heat = clamp_u64(self.heat + OVERLOAD_HEAT, 0, HEAT_MAX);
        } else {
            self.overloading = false;
            self.speed_multiplier = 1;
            self.heat = if self.heat < COOLDOWN_HEAT {
                0
            } else {
                self.heat - COOLDOWN_HEAT
            };
        }
    }

    /// Adds the score of a caught present: more while overloading.
    pub fn collect_present(&mut self)
        requires
            old(self).wf(),
        ensures
            *final(self) == old(self).with_present(),
            final(self).wf(),
    {
        let a: u64 = if self.overloading {
            BONUS_AWARD
        } else {
            PLAIN_AWARD
        };
        self.score = saturating_add_u64(self.score, a);
    }

    /// Takes the heat of a caught fan away, down to zero.
    pub fn collect_fan(&mut self)
        requires
            old(self).wf(),
        ensures
            *final(self) == old(self).with_fan(),
            final(self).wf(),
    {
        self.heat = if self.heat < FAN_COOLING {
            0
        } else {
            self.heat - FAN_COOLING
        };
    }
}

} // verus!
