use crate::clock::Clock;
use crate::intf::{flag_mask, Flag, Intf};
use vstd::prelude::*;

verus! {

/// TIMA after one tick: it counts up and reloads from TMA when it passes 0xff.
pub open spec fn tima_step(tima: u8, tma: u8) -> u8 {
    if tima == 0xff {
        tma
    } else {
        (tima + 1) as u8
    }
}

/// TIMA after `n` ticks.
pub open spec fn tima_after(tima: u8, tma: u8, n: nat) -> u8
    decreases n,
{
    if n == 0 {
        tima
    } else {
        tima_step(tima_after(tima, tma, (n - 1) as nat), tma)
    }
}

/// Whether TIMA passes 0xff during `n` ticks.
pub open spec fn tima_overflows(tima: u8, tma: u8, n: nat) -> bool
    decreases n,
{
    if n == 0 {
        false
    } else {
        tima_overflows(tima, tma, (n - 1) as nat) || tima_after(tima, tma, (n - 1) as nat) == 0xff
    }
}

/// TIMA period in cycles for the clock select bits of TAC.
pub open spec fn tac_period(tac: u8) -> u32 {
    if tac & 0x03 == 0 {
        1024
    } else if tac & 0x03 == 1 {
        16
    } else if tac & 0x03 == 2 {
        64
    } else {
        256
    }
}

/// The divider and the programmable timer (DIV, TIMA, TMA, TAC).
#[derive(Clone, Copy)]
pub struct Timer {
    pub div: u8,
    pub tima: u8,
    pub tma: u8,
    pub tac: u8,
    pub div_clock: Clock,
    pub tma_clock: Clock,
}

impl Timer {
    pub open spec fn wf(&self) -> bool {
        &&& self.div_clock.wf()
        &&& self.div_clock.period == 256
        &&& self.tma_clock.wf()
        &&& self.tma_clock.period == tac_period(self.tac)
    }

    pub fn power_up() -> (r: Self)
        ensures
            r.wf(),
            r.div == 0 && r.tima == 0 && r.tma == 0 && r.tac == 0,
            r.div_clock.n == 0 && r.tma_clock.n == 0 && r.tma_clock.period == 1024,
    {
        proof { crate::bits::lemma_constants(); }
        Timer { div: 0, tima: 0, tma: 0, tac: 0, div_clock: Clock::power_up(256), tma_clock: Clock::power_up(1024) }
    }

    /// Reads one of 0xff04..=0xff07.
    pub fn get(&self, a: u16) -> (r: u8)
        requires
            0xff04 <= a <= 0xff07,
        ensures
            a == 0xff04 ==> r == self.div,
            a == 0xff05 ==> r == self.tima,
            a == 0xff06 ==> r == self.tma,
            a == 0xff07 ==> r == self.tac,
    {
        if a == 0xff04 {
            self.div
        } else if a == 0xff05 {
            self.tima
        } else if a == 0xff06 {
            self.tma
        } else {
            self.tac
        }
    }

    /// Writes one of 0xff04..=0xff07. A write to DIV resets it; a change of the clock select
    /// restarts the TIMA divider and reloads TIMA from TMA.
    pub fn set(&mut self, a: u16, v: u8)
        requires
            old(self).wf(),
            0xff04 <= a <= 0xff07,
        ensures
            final(self).wf(),
            a == 0xff04 ==> final(self).div == 0 && final(self).div_clock.n == 0 && final(self).tima == old(self).tima && final(self).tma == old(self).tma && final(self).tac == old(self).tac,
            a != 0xff04 ==> final(self).div_clock == old(self).div_clock,
            a != 0xff07 ==> final(self).tma_clock == old(self).tma_clock,
            a == 0xff05 ==> final(self).tima == v && final(self).div == old(self).div && final(self).tma == old(self).tma && final(self).tac == old(self).tac,
            a == 0xff06 ==> final(self).tma == v && final(self).div == old(self).div && final(self).tima == old(self).tima && final(self).tac == old(self).tac,
            a == 0xff07 ==> final(self).tac == v && final(self).div == old(self).div && final(self).tma == old(self).tma,
            a == 0xff07 && old(self).tac & 0x03 != v & 0x03 ==> final(self).tima == old(self).tma
                && final(self).tma_clock.n == 0,
            a == 0xff07 && old(self).tac & 0x03 == v & 0x03 ==> final(self).tima == old(self).tima
                && final(self).tma_clock == old(self).tma_clock,
    {
        if a == 0xff04 {
            self.div = 0x00;
            self.div_clock.n = 0x00;
        } else if a == 0xff05 {
            self.tima = v;
        } else if a == 0xff06 {
            self.tma = v;
        } else {
            if (self.tac & 0x03) != (v & 0x03) {
                self.tma_clock.n = 0x00;
                let sel = v & 0x03;
                self.tma_clock.period = if sel == 0 {
                    1024
                } else if sel == 1 {
                    16
                } else if sel == 2 {
                    64
                } else {
                    256
                };
                self.tima = self.tma;
            }
            self.tac = v;
        }
    }

    /// Advances both dividers by `cycles`. TIMA counts only while TAC bit 2 is set; each time it
    /// passes 0xff it is reloaded from TMA and the Timer interrupt is requested.
    pub fn next(&mut self, intf: &mut Intf, cycles: u32)
        requires
            old(self).wf(),
        ensures
            final(self).wf(),
            final(self).tma == old(self).tma,
            final(self).tac == old(self).tac,
            final(self).div == (old(self).div as int + (old(self).div_clock.n as int + cycles as int) / 256)
                % 256,
            final(self).div_clock.n as int == (old(self).div_clock.n as int + cycles as int) % 256,
            old(self).tac & 0x04 != 0 ==> final(self).tma_clock.n as int == (old(self).tma_clock.n as int + cycles as int)
                % (old(self).tma_clock.period as int),
            old(self).tac & 0x04 == 0 ==> final(self).tma_clock == old(self).tma_clock,
            old(self).tac & 0x04 == 0 ==> final(self).tima == old(self).tima && final(intf).data == old(intf).data,
            old(self).tac & 0x04 != 0 ==> {
                let n = ((old(self).tma_clock.n as int + cycles as int) / (old(self).tma_clock.period as int)) as nat;
                &&& final(self).tima == tima_after(old(self).tima, old(self).tma, n)
                &&& final(intf).data == if tima_overflows(old(self).tima, old(self).tma, n) {
                    old(intf).data | flag_mask(Flag::Timer)
                } else {
                    old(intf).data
                }
            },
    {
        let d = self.div_clock.next(cycles);
        self.div = ((self.div as u32 + d) % 256) as u8;
        if (self.tac & 0x04) != 0x00 {
            let n = self.tma_clock.next(cycles);
            let ghost tima0 = self.tima;
            let ghost intf0 = intf.data;
            let ghost snap = *self;
            let mut i: u32 = 0;
            while i < n
                invariant
                    i <= n,
                    self.tma == old(self).tma,
                    self.tac == snap.tac && self.div == snap.div,
                    self.div_clock == snap.div_clock && self.tma_clock == snap.tma_clock,
                    self.tima == tima_after(tima0, self.tma, i as nat),
                    intf.data == if tima_overflows(tima0, self.tma, i as nat) {
                        intf0 | flag_mask(Flag::Timer)
                    } else {
                        intf0
                    },
                decreases n - i,
            {
                let ghost before = intf.data;
                if self.tima == 0xff {
                    self.tima = self.tma;
                    intf.hi(Flag::Timer);
                    assert((intf0 | 0x04u8) | 0x04u8 == intf0 | 0x04u8) by (bit_vector);
                } else {
                    self.tima = self.tima + 1;
                }
                i = i + 1;
            }
        }
    }
}


/// From TIMA = 0, each of the first 255 ticks counts up by one without overflow; the 256th
/// overflows and reloads TMA.
pub proof fn lemma_tima_from_zero(tma: u8, n: nat)
    requires
        n <= 256,
    ensures
        n <= 255 ==> tima_after(0, tma, n) == n && !tima_overflows(0, tma, n),
        n == 256 ==> tima_after(0, tma, n) == tma && tima_overflows(0, tma, n),
    decreases n,
{
    if n > 0 {
        lemma_tima_from_zero(tma, (n - 1) as nat);
    }
}

/// With TAC = 0b101 (enabled, 16-cycle period) and a fresh divider, 16 cycles move TIMA from
/// 0 to 1, and 256 × 16 cycles make it overflow, reload TMA and request the interrupt.
pub proof fn lemma_timer_period_16(tma: u8)
    ensures
        tac_period(0b101) == 16,
        tima_after(0, tma, ((0 + 16) / 16) as nat) == 1,
        !tima_overflows(0, tma, ((0 + 16) / 16) as nat),
        tima_after(0, tma, ((0 + 256 * 16) / 16) as nat) == tma,
        tima_overflows(0, tma, ((0 + 256 * 16) / 16) as nat),
{
    crate::bits::lemma_constants();
    lemma_tima_from_zero(tma, 1);
    lemma_tima_from_zero(tma, 256);
}

/// Counting TIMA through `a` ticks and then `b` more is counting through `a + b` ticks; it
/// overflows in the whole run exactly when it overflows in either part.
pub proof fn lemma_tima_compose(t: u8, m: u8, a: nat, b: nat)
    ensures
        tima_after(tima_after(t, m, a), m, b) == tima_after(t, m, a + b),
        tima_overflows(t, m, a + b) == (tima_overflows(t, m, a) || tima_overflows(tima_after(t, m, a), m, b)),
    decreases b,
{
    if b > 0 {
        lemma_tima_compose(t, m, a, (b - 1) as nat);
        assert((a + b - 1) as nat == a + (b - 1) as nat);
    }
}

/// A divider fed `c1` and then `c2` cycles emits as many ticks, and keeps the same remainder, as
/// one fed `c1 + c2`: how a run of cycles is split over calls of `Timer::next` does not matter.
pub proof fn lemma_ticks_split(n0: int, c1: int, c2: int, p: int)
    requires
        p > 0,
        0 <= n0 < p,
        c1 >= 0,
        c2 >= 0,
    ensures
        (n0 + c1) / p + ((n0 + c1) % p + c2) / p == (n0 + c1 + c2) / p,
        ((n0 + c1) % p + c2) % p == (n0 + c1 + c2) % p,
{
    let q = (n0 + c1) / p;
    let r = (n0 + c1) % p;
    assert(n0 + c1 == q * p + r && 0 <= r < p) by (nonlinear_arith)
        requires p > 0, n0 + c1 >= 0, q == (n0 + c1) / p, r == (n0 + c1) % p;
    let q2 = (r + c2) / p;
    let r2 = (r + c2) % p;
    assert(r + c2 == q2 * p + r2 && 0 <= r2 < p) by (nonlinear_arith)
        requires p > 0, r + c2 >= 0, q2 == (r + c2) / p, r2 == (r + c2) % p;
    assert(n0 + c1 + c2 == (q + q2) * p + r2) by (nonlinear_arith)
        requires n0 + c1 == q * p + r, r + c2 == q2 * p + r2;
    assert((n0 + c1 + c2) / p == q + q2 && (n0 + c1 + c2) % p == r2) by (nonlinear_arith)
        requires n0 + c1 + c2 == (q + q2) * p + r2, 0 <= r2 < p, p > 0;
}

} // verus!
