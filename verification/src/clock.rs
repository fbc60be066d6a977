//! Divider that turns a stream of machine cycles into ticks of a slower
//! clock, carrying the remainder between calls.

use vstd::prelude::*;

verus! {

/// Generates ticks at a given frequency from a base clock rate.
pub struct Clock {
    pub base: u64,
    pub freq: u64,
    pub tick: u64,
}

impl Clock {
    /// Cycles of the base clock that make up one tick.
    pub open spec fn cycles_per_tick(&self) -> int {
        self.base as int / self.freq as int
    }

    pub open spec fn wf(&self) -> bool {
        1 <= self.freq <= self.base
    }

    pub fn new(base: u64, freq: u64) -> (c: Clock)
        requires
            1 <= freq <= base,
        ensures
            c.wf(),
            c.base == base,
            c.freq == freq,
            c.tick == 0,
    {
        Clock { base, freq, tick: 0 }
    }

    /// Advance by `cycles` base-clock cycles; returns how many whole ticks
    /// elapsed and keeps the remainder for the next call.
    pub fn step(&mut self, cycles: u64) -> (clocks: u64)
        requires
            old(self).wf(),
            old(self).tick + cycles <= u64::MAX,
        ensures
            final(self).wf(),
            final(self).base == old(self).base,
            final(self).freq == old(self).freq,
            clocks == (old(self).tick + cycles) / old(self).cycles_per_tick(),
            final(self).tick == (old(self).tick + cycles) % old(self).cycles_per_tick(),
    {
        let cycles_tick = self.base / self.freq;
        proof {
            assert(self.base / self.freq >= 1) by (nonlinear_arith)
                requires
                    1 <= self.freq <= self.base,
            ;
        }
        self.tick = self.tick + cycles;
        let clocks = self.tick / cycles_tick;
        self.tick = self.tick % cycles_tick;
        clocks
    }
}

} // verus!
