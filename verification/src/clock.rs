//! Fixed-timestep clock: wall-clock time is accumulated in integer
//! nanoseconds and consumed one whole tick at a time, so the fractional
//! remainder of a tick is carried across frames exactly and no time is lost.

use vstd::prelude::*;

verus! {

pub struct Clock {
    /// Duration of one logical tick, in nanoseconds.
    pub tick_ns: u64,
    /// Real time owed to the simulation, in nanoseconds.
    pub acc_ns: u64,
}

impl Clock {
    pub open spec fn wf(self) -> bool {
        self.tick_ns > 0
    }

    /// Number of whole ticks currently owed.
    pub open spec fn pending_ticks(self) -> int {
        self.acc_ns as int / self.tick_ns as int
    }

    pub fn new(tick_ns: u64) -> (c: Clock)
        requires
            tick_ns > 0,
        ensures
            c.tick_ns == tick_ns,
            c.acc_ns == 0,
            c.wf(),
    {
        Clock { tick_ns, acc_ns: 0 }
    }

    /// Add elapsed real time to the accumulator.
    pub fn advance(&mut self, elapsed_ns: u64)
        requires
            old(self).wf(),
            old(self).acc_ns + elapsed_ns <= u64::MAX,
        ensures
            final(self).acc_ns == old(self).acc_ns + elapsed_ns,
            final(self).tick_ns == old(self).tick_ns,
            final(self).wf(),
    {
        self.acc_ns = self.acc_ns + elapsed_ns;
    }

    /// Whether at least one whole tick is owed.
    pub fn has_pending_tick(&self) -> (r: bool)
        ensures
            r == (self.acc_ns >= self.tick_ns),
    {
        self.acc_ns >= self.tick_ns
    }

    /// Consume exactly one tick: the accumulator decreases by exactly one
    /// tick duration, preserving any fractional remainder.
    pub fn consume_tick(&mut self)
        requires
            old(self).wf(),
            old(self).acc_ns >= old(self).tick_ns,
        ensures
            final(self).acc_ns == old(self).acc_ns - old(self).tick_ns,
            final(self).tick_ns == old(self).tick_ns,
            final(self).wf(),
    {
        self.acc_ns = self.acc_ns - self.tick_ns;
    }

    /// Number of whole ticks currently owed.
    pub fn pending(&self) -> (n: u64)
        requires
            self.wf(),
        ensures
            n == self.pending_ticks(),
    {
        self.acc_ns / self.tick_ns
    }
}

/// The fixed-timestep loop performs exactly `acc / tick` cycles before the
/// accumulator drops below one tick: each of those consumptions finds a whole
/// tick owed, and after the last one less than a tick remains.
pub proof fn lemma_fixed_timestep_cycle_count(acc: int, tick: int)
    requires
        tick > 0,
        0 <= acc,
    ensures
        0 <= acc / tick,
        (acc / tick) * tick <= acc,
        acc - (acc / tick) * tick < tick,
        forall|i: int| 0 <= i < acc / tick ==> acc - #[trigger] (i * tick) >= tick,
{
    let n = acc / tick;
    vstd::arithmetic::div_mod::lemma_fundamental_div_mod(acc, tick);
    vstd::arithmetic::div_mod::lemma_div_pos_is_pos(acc, tick);
    assert(acc == tick * n + acc % tick);
    assert(n * tick == tick * n) by (nonlinear_arith);
    assert forall|i: int| 0 <= i < n implies acc - #[trigger] (i * tick) >= tick by {
        vstd::arithmetic::mul::lemma_mul_inequality(i, n - 1, tick);
        assert((n - 1) * tick == n * tick - tick) by (nonlinear_arith);
    }
}

} // verus!
