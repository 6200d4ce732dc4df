use vstd::prelude::*;

verus! {

/// A one-shot countdown: `elapsed` nanoseconds of `duration` have passed.
#[derive(Clone, Copy, Debug, PartialEq, Eq, Structural)]
pub struct Countdown {
    pub elapsed: u64,
    pub duration: u64,
}

impl Countdown {
    /// Still running: some of the duration is left.
    pub open spec fn running(self) -> bool {
        self.elapsed < self.duration
    }

    /// Whether a tick of `dt` nanoseconds reaches the end of the duration.
    pub open spec fn finishes(self, dt: u64) -> bool {
        self.elapsed + dt >= self.duration
    }

    /// The countdown after a tick of `dt` nanoseconds: elapsed time grows by
    /// `dt` and stops at the duration.
    pub open spec fn ticked(self, dt: u64) -> Countdown {
        Countdown {
            elapsed: if self.finishes(dt) {
                self.duration
            } else {
                (self.elapsed + dt) as u64
            },
            duration: self.duration,
        }
    }

    /// A countdown of `duration` nanoseconds that has just started.
    pub fn once(duration: u64) -> (r: Countdown)
        ensures
            r == (Countdown { elapsed: 0, duration }),
    {
        Countdown { elapsed: 0, duration }
    }

    /// Advances the countdown by `dt` nanoseconds; the elapsed time stops at
    /// the duration.
    pub fn tick(&mut self, dt: u64)
        ensures
            *final(self) == old(self).ticked(dt),
    {
        if self.elapsed >= self.duration || dt >= self.duration - self.elapsed {
            self.elapsed = self.duration;
        } else {
            self.elapsed = self.elapsed + dt;
        }
    }

    /// Whether the whole duration has passed.
    pub fn finished(&self) -> (r: bool)
        ensures
            r == (self.elapsed >= self.duration),
    {
        self.elapsed >= self.duration
    }
}

/// A running countdown, ticked by a positive time, either finishes or stays
/// running with strictly more time elapsed; it finishes exactly when the
/// elapsed time reaches the duration.
pub proof fn lemma_tick_progress(c: Countdown, dt: u64)
    requires
        c.running(),
        dt > 0,
    ensures
        c.ticked(dt).duration == c.duration,
        c.ticked(dt).elapsed > c.elapsed,
        c.ticked(dt).elapsed <= c.duration,
        c.finishes(dt) <==> c.ticked(dt).elapsed == c.duration,
        !c.finishes(dt) <==> c.ticked(dt).running(),
{
}

} // verus!
