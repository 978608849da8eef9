use vstd::prelude::*;
use rand::Rng;
use crate::game::{
    Game, SpawnDraws, TickInput, SNOW_SIZE_MIN, SNOW_SIZE_END, SNOW_SPEED_MIN,
    SNOW_SPEED_END,
};
use crate::entity::{FIELD_HALF_WIDTH, SNOW_HALF_WIDTH};

verus! {

/// Relies on rand's `thread_rng().gen_range(lo..hi)` on integers: a value in
/// `[lo, hi)`; it panics on an empty range, which `requires` rules out.
#[verifier::external_body]
fn random_between(lo: i64, hi: i64) -> (r: i64)
    requires
        lo < hi,
    ensures
        lo <= r < hi,
{
    rand::thread_rng().gen_range(lo..hi)
}

impl SpawnDraws {
    /// Draws the places of new entities: gameplay entities across the play
    /// field, snowflakes across the wider sky with their size and speed.
    pub fn draw() -> (r: SpawnDraws)
        ensures
            r.wf(),
    {
        SpawnDraws {
            present_x: random_between(-FIELD_HALF_WIDTH, FIELD_HALF_WIDTH),
            fan_x: random_between(-FIELD_HALF_WIDTH, FIELD_HALF_WIDTH),
            bit_x: random_between(-FIELD_HALF_WIDTH, FIELD_HALF_WIDTH),
            snow_x: random_between(-SNOW_HALF_WIDTH, SNOW_HALF_WIDTH),
            snow_size: random_between(SNOW_SIZE_MIN, SNOW_SIZE_END),
            snow_speed: random_between(SNOW_SPEED_MIN, SNOW_SPEED_END),
        }
    }
}

impl Game {
    /// One tick with freshly drawn places for new entities; returns the
    /// draws that the tick used.
    pub fn tick(&mut self, input: &TickInput) -> (d: SpawnDraws)
        requires
            old(self)@.wf(),
        ensures
            d.wf(),
            final(self)@ == old(self)@.next(*input, d),
            final(self)@.wf(),
    {
        let d = SpawnDraws::draw();
        self.step(input, &d);
        d
    }
}

} // verus!
