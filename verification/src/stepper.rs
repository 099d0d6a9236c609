use vstd::prelude::*;

verus! {

/// Step discipline of the integrator.
///
/// The unexposed initial condition carries step 0; every produced state
/// carries the step of its predecessor plus one, so the first produced state
/// carries step 1, and the sequence of steps is strictly monotonic.
#[derive(Clone, Copy)]
pub struct StepCounter {
    /// Step carried by the most recently produced state (0 before any).
    pub count: u64,
}

impl StepCounter {
    /// A counter at the initial condition, before any state is produced.
    pub fn new() -> (c: Self)
        ensures
            c.count == 0,
    {
        StepCounter { count: 0 }
    }

    /// The step of the most recently produced state.
    pub fn current(&self) -> (s: u64)
        ensures
            s == self.count,
    {
        self.count
    }

    /// Produce the next step: exactly one more than the previous one.
    pub fn advance(&mut self) -> (s: u64)
        requires
            old(self).count < u64::MAX,
        ensures
            final(self).count == old(self).count + 1,
            s == final(self).count,
    {
        self.count = self.count + 1;
        self.count
    }
}

} // verus!
