use vstd::prelude::*;

verus! {

/// A divider: accumulates cycles and emits one tick every `period` cycles.
#[derive(Clone, Copy, PartialEq, Eq, Structural)]
pub struct Clock {
    pub period: u32,
    pub n: u32,
}

impl Clock {
    /// The divider is usable when its period is positive and the remainder is below it.
    pub open spec fn wf(&self) -> bool {
        self.period > 0 && self.n < self.period
    }

    pub fn power_up(period: u32) -> (r: Self)
        requires
            period > 0,
        ensures
            r.period == period,
            r.n == 0,
            r.wf(),
    {
        Self { period, n: 0x00 }
    }

    /// Adds `cycles` and returns how many whole periods elapsed.
    pub fn next(&mut self, cycles: u32) -> (r: u32)
        requires
            old(self).wf(),
        ensures
            final(self).wf(),
            final(self).period == old(self).period,
            r as int == (old(self).n as int + cycles as int) / (old(self).period as int),
            final(self).n as int == (old(self).n as int + cycles as int) % (old(self).period as int),
    {
        let total: u64 = self.n as u64 + cycles as u64;
        let p: u64 = self.period as u64;
        let rs: u64 = total / p;
        let rem: u64 = total % p;
        assert(rs * p <= total) by (nonlinear_arith)
            requires rs == total / p, p > 0;
        assert(rs >= 0x1_0000_0000 ==> rs * p >= 0x1_0000_0000 * p) by (nonlinear_arith)
            requires p >= 1;
        self.n = rem as u32;
        rs as u32
    }
}

} // verus!
