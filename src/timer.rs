use vstd::prelude::*;

verus! {

/// The longest period a countdown may be given: one hour.
pub const MAX_PERIOD: u64 = 3_600_000_000;

/// A countdown over microseconds. A repeating countdown wraps around at the
/// end of each period; a one-shot countdown stops at its end until reset.
#[derive(Clone, Copy, Debug, PartialEq, Eq, Structural)]
pub struct Countdown {
    pub duration: u64,
    pub elapsed: u64,
    pub repeating: bool,
    pub finished: bool,
    /// How many periods the last `tick` completed.
    pub completions: u64,
}

impl Countdown {
    pub open spec fn wf(self) -> bool {
        &&& 0 < self.duration <= MAX_PERIOD
        &&& self.elapsed <= MAX_PERIOD
    }

    /// The countdown after `delta` microseconds have passed.
    pub open spec fn ticked(self, delta: int) -> Countdown {
        if !self.repeating && self.finished {
            Countdown { completions: 0, ..self }
        } else {
            let e = self.elapsed + delta;
            if e >= self.duration {
                if self.repeating {
                    Countdown {
                        elapsed: (e % (self.duration as int)) as u64,
                        finished: true,
                        completions: (e / (self.duration as int)) as u64,
                        ..self
                    }
                } else {
                    Countdown { elapsed: self.duration, finished: true, completions: 1, ..self }
                }
            } else {
                Countdown { elapsed: e as u64, finished: false, completions: 0, ..self }
            }
        }
    }

    /// Whether the last `tick` completed a period: true once per completion.
    pub open spec fn just_finished_spec(self) -> bool {
        self.completions > 0
    }

    /// The countdown with its progress cleared.
    pub open spec fn cleared(self) -> Countdown {
        Countdown { elapsed: 0, finished: false, completions: 0, ..self }
    }

    pub fn new_repeating(duration: u64) -> (r: Countdown)
        requires
            0 < duration <= MAX_PERIOD,
        ensures
            r.wf(),
            r == (Countdown { duration, elapsed: 0, repeating: true, finished: false, completions: 0 }),
    {
        Countdown { duration, elapsed: 0, repeating: true, finished: false, completions: 0 }
    }

    pub fn new_once(duration: u64) -> (r: Countdown)
        requires
            0 < duration <= MAX_PERIOD,
        ensures
            r.wf(),
            r == (Countdown { duration, elapsed: 0, repeating: false, finished: false, completions: 0 }),
    {
        Countdown { duration, elapsed: 0, repeating: false, finished: false, completions: 0 }
    }

    pub fn tick(&mut self, delta: u32)
        requires
            old(self).wf(),
        ensures
            *final(self) == old(self).ticked(delta as int),
            final(self).wf(),
    {
        if !self.repeating && self.finished {
            self.completions = 0;
            return;
        }
        let e: u64 = self.elapsed + delta as u64;
        if e >= self.duration {
            if self.repeating {
                self.completions = e / self.duration;
                self.elapsed = e % self.duration;
            } else {
                self.completions = 1;
                self.elapsed = self.duration;
            }
            self.finished = true;
        } else {
            self.elapsed = e;
            self.finished = false;
            self.completions = 0;
        }
    }

    pub fn just_finished(&self) -> (r: bool)
        ensures
            r == self.just_finished_spec(),
    {
        self.completions > 0
    }

    /// Changes the period for later completions, keeping the progress.
    pub fn set_duration(&mut self, duration: u64)
        requires
            old(self).wf(),
            0 < duration <= MAX_PERIOD,
        ensures
            *final(self) == (Countdown { duration, ..*old(self) }),
            final(self).wf(),
    {
        self.duration = duration;
    }

    pub fn reset(&mut self)
        requires
            old(self).wf(),
        ensures
            *final(self) == old(self).cleared(),
            final(self).wf(),
    {
        self.elapsed = 0;
        self.finished = false;
        self.completions = 0;
    }
}

} // verus!
