use vstd::prelude::*;

verus! {

/// A one-shot countdown measured in microseconds, in the manner of a game-engine timer.
#[derive(Clone, Copy, Debug, PartialEq, Eq, Structural)]
pub struct Timer {
    pub duration: u64,
    pub elapsed: u64,
    pub just_finished: bool,
}

impl Timer {
    pub open spec fn wf(self) -> bool {
        self.elapsed <= self.duration
    }

    pub open spec fn is_finished(self) -> bool {
        self.elapsed >= self.duration
    }

    /// A fresh timer of the given length.
    pub fn new(duration: u64) -> (r: Timer)
        ensures
            r.wf(),
            r == (Timer { duration, elapsed: 0, just_finished: false }),
    {
        Timer { duration, elapsed: 0, just_finished: false }
    }

    pub open spec fn ticked(self, dt: u64) -> Timer {
        let e = if self.elapsed + dt >= self.duration { self.duration as int } else { self.elapsed + dt };
        Timer {
            duration: self.duration,
            elapsed: e as u64,
            just_finished: !self.is_finished() && e >= self.duration,
        }
    }

    /// Advances the timer by `dt` microseconds; `just_finished` reports whether this
    /// very tick reached the end.
    pub fn tick(&mut self, dt: u64)
        requires
            old(self).wf(),
        ensures
            *final(self) == old(self).ticked(dt),
            final(self).wf(),
    {
        let was_finished = self.elapsed >= self.duration;
        if dt >= self.duration - self.elapsed {
            self.elapsed = self.duration;
        } else {
            self.elapsed = self.elapsed + dt;
        }
        self.just_finished = !was_finished && self.elapsed >= self.duration;
    }

    pub fn finished(&self) -> (r: bool)
        ensures
            r == self.is_finished(),
    {
        self.elapsed >= self.duration
    }
}

} // verus!
