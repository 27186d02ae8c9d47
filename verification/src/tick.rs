//! The tick gate: lets one frame in every `delay` through as a simulation
//! step.

use vstd::prelude::*;

verus! {

/// Frames per simulation step in the standard game.
pub const TICK_DELAY: u32 = 10;

/// Counts frames and fires on every `delay`-th one. A delay of 0 or 1
/// fires on every frame.
#[derive(Clone, Copy, Debug, PartialEq, Eq, Structural)]
pub struct TickScheduler {
    pub count: u32,
    pub delay: u32,
}

impl TickScheduler {
    /// Whether the next frame fires: the counter, once incremented,
    /// reaches the delay.
    pub open spec fn fires(&self) -> bool {
        self.count + 1 >= self.delay
    }

    /// A gate with its counter at 0.
    pub fn new(delay: u32) -> (gate: TickScheduler)
        ensures
            gate.count == 0,
            gate.delay == delay,
    {
        TickScheduler { count: 0, delay }
    }

    /// Counts one frame. On a firing frame the counter returns to 0;
    /// otherwise it grows by one.
    pub fn tick(&mut self) -> (fire: bool)
        ensures
            fire == old(self).fires(),
            final(self).delay == old(self).delay,
            final(self).count == if fire { 0int } else { old(self).count + 1 },
    {
        if self.delay <= 1 || self.count >= self.delay - 1 {
            self.count = 0;
            true
        } else {
            self.count += 1;
            false
        }
    }
}

} // verus!
