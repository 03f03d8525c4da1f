use crate::clock::Clock;
use vstd::prelude::*;

verus! {

/// CPU clock frequency in Hz.
pub const CLOCK_FREQUENCY: u32 = 4_194_304;

/// Cycles between two frame-sequencer steps (512 Hz).
pub const FRAME_PERIOD: u32 = 8192;

/// The five registers NRx0..NRx4 of one channel (or of the mixer: NR50, NR51, NR52).
#[derive(Clone, Copy)]
pub struct Register {
    pub nrx0: u8,
    pub nrx1: u8,
    pub nrx2: u8,
    pub nrx3: u8,
    pub nrx4: u8,
}

/// The 11-bit frequency of a tone channel.
pub open spec fn frequency_of(r: Register) -> u16 {
    (((r.nrx4 & 0x07) as u16) << 8u16) | (r.nrx3 as u16)
}

impl Register {
    pub fn power_up(nrx1: u8) -> (r: Self)
        ensures
            r.nrx0 == 0 && r.nrx1 == nrx1 && r.nrx2 == 0 && r.nrx3 == 0 && r.nrx4 == 0,
    {
        Self { nrx0: 0x00, nrx1, nrx2: 0x00, nrx3: 0x00, nrx4: 0x00 }
    }

    pub fn get_frequency(&self) -> (r: u16)
        ensures
            r == frequency_of(*self),
            r < 2048,
    {
        let r = (((self.nrx4 & 0x07) as u16) << 8u16) | (self.nrx3 as u16);
        let x = self.nrx4;
        let y = self.nrx3;
        assert((((x & 0x07) as u16) << 8u16) | (y as u16) < 2048) by (bit_vector);
        r
    }

    /// Writes the 11-bit frequency into NRx3 and the low bits of NRx4.
    pub fn set_frequency(&mut self, f: u16)
        requires
            f < 2048,
        ensures
            frequency_of(*final(self)) == f,
            final(self).nrx4 & 0xf8 == old(self).nrx4 & 0xf8,
            final(self).nrx0 == old(self).nrx0 && final(self).nrx1 == old(self).nrx1 && final(self).nrx2 == old(self).nrx2,
    {
        let h = ((f >> 8u16) & 0x07) as u8;
        let x = self.nrx4;
        self.nrx4 = (x & 0xf8) | h;
        self.nrx3 = f as u8;
        assert(((((((x & 0xf8) | (((f >> 8u16) & 0x07) as u8)) & 0x07) as u16) << 8u16) | ((f as u8) as u16)) == f
            && (((x & 0xf8) | (((f >> 8u16) & 0x07) as u8)) & 0xf8) == x & 0xf8) by (bit_vector)
            requires f < 2048;
    }

    pub fn get_trigger(&self) -> (r: bool)
        ensures
            r == (self.nrx4 & 0x80 != 0),
    {
        self.nrx4 & 0x80 != 0x00
    }

    pub fn set_trigger(&mut self, b: bool)
        ensures
            (final(self).nrx4 & 0x80 != 0) == b,
            final(self).nrx4 & 0x7f == old(self).nrx4 & 0x7f,
            final(self).nrx0 == old(self).nrx0 && final(self).nrx1 == old(self).nrx1,
            final(self).nrx2 == old(self).nrx2 && final(self).nrx3 == old(self).nrx3,
    {
        let x = self.nrx4;
        if b {
            self.nrx4 = x | 0x80;
        } else {
            self.nrx4 = x & 0x7f;
        }
        assert(((x | 0x80) & 0x80 != 0) && ((x & 0x7f) & 0x80 == 0) && ((x | 0x80) & 0x7f == x & 0x7f) && ((x
            & 0x7f) & 0x7f == x & 0x7f)) by (bit_vector);
    }

    pub fn get_length_enable(&self) -> (r: bool)
        ensures
            r == (self.nrx4 & 0x40 != 0),
    {
        self.nrx4 & 0x40 != 0x00
    }
}

/// The frame sequencer: a step counter in 0..8 advanced at 512 Hz.
pub struct FrameSequencer {
    pub step: u8,
}

impl FrameSequencer {
    pub fn power_up() -> (r: Self)
        ensures
            r.step == 0,
    {
        Self { step: 0x00 }
    }

    pub fn next(&mut self) -> (r: u8)
        requires
            old(self).step < 8,
        ensures
            r == (old(self).step + 1) % 8,
            final(self).step == r,
    {
        self.step = (self.step + 1) % 8;
        self.step
    }
}

/// A length counter; when it runs out its channel is switched off.
pub struct LengthCounter {
    pub n: u16,
}

impl LengthCounter {
    /// One length clock: counts down while enabled, and clears the trigger bit on reaching zero.
    pub fn next(&mut self, reg: &mut Register)
        ensures
            old(reg).nrx4 & 0x40 != 0 && old(self).n != 0 ==> final(self).n == old(self).n - 1,
            !(old(reg).nrx4 & 0x40 != 0 && old(self).n != 0) ==> final(self).n == old(self).n,
            old(reg).nrx4 & 0x40 != 0 && old(self).n == 1 ==> final(reg).nrx4 & 0x80 == 0,
            !(old(reg).nrx4 & 0x40 != 0 && old(self).n == 1) ==> *final(reg) == *old(reg),
    {
        if reg.get_length_enable() && self.n != 0 {
            self.n = self.n - 1;
            if self.n == 0 {
                reg.set_trigger(false);
            }
        }
    }

    /// On trigger an exhausted counter restarts at its full length (`full`).
    pub fn reload(&mut self, full: u16)
        ensures
            final(self).n == if old(self).n == 0 {
                full
            } else {
                old(self).n
            },
    {
        if self.n == 0x0000 {
            self.n = full;
        }
    }
}

/// The volume envelope of a square or noise channel.
pub struct VolumeEnvelope {
    pub timer: Clock,
    pub volume: u8,
}

impl VolumeEnvelope {
    pub fn power_up() -> (r: Self)
        ensures
            r.timer.wf() && r.volume == 0,
    {
        Self { timer: Clock::power_up(8), volume: 0x00 }
    }

    pub open spec fn wf(&self) -> bool {
        self.timer.wf() && self.volume <= 15
    }

    /// On trigger: the period comes from NRx2 bits 0-2 (0 counts as 8), the volume from bits 4-7.
    pub fn reload(&mut self, reg: &Register)
        ensures
            final(self).wf(),
            final(self).volume == reg.nrx2 >> 4,
            final(self).timer.period == if reg.nrx2 & 0x07 == 0 {
                8
            } else {
                (reg.nrx2 & 0x07) as u32
            },
            final(self).timer.n == 0,
    {
        let p = reg.nrx2 & 0x07;
        self.timer.period = if p == 0 {
            8
        } else {
            p as u32
        };
        self.timer.n = 0;
        let x = reg.nrx2;
        proof { crate::bits::lemma_u8_fields(x); }
        self.volume = reg.nrx2 >> 4;
    }

    /// One envelope clock: when the timer fires, the volume moves one step up (NRx2 bit 3) or
    /// down, staying within 0..=15.
    pub fn next(&mut self, reg: &Register)
        requires
            old(self).wf(),
        ensures
            final(self).wf(),
            reg.nrx2 & 0x07 == 0 ==> *final(self) == *old(self),
            final(self).volume == enveloped(*old(self), reg.nrx2),
            reg.nrx2 & 0x07 != 0 ==> final(self).volume == if (old(self).timer.n as int + 1) / (old(self).timer.period as int)
                == 0 {
                old(self).volume
            } else if reg.nrx2 & 0x08 != 0 {
                if old(self).volume < 15 { (old(self).volume + 1) as u8 } else { old(self).volume }
            } else {
                if old(self).volume > 0 { (old(self).volume - 1) as u8 } else { old(self).volume }
            },
            final(self).volume == old(self).volume || final(self).volume == old(self).volume + 1
                || final(self).volume == old(self).volume - 1,
    {
        if reg.nrx2 & 0x07 == 0 {
            return;
        }
        if self.timer.next(1) == 0x00 {
            return;
        }
        if reg.nrx2 & 0x08 != 0 {
            if self.volume < 15 {
                self.volume = self.volume + 1;
            }
        } else if self.volume > 0 {
            self.volume = self.volume - 1;
        }
    }
}

/// The volume after one envelope clock with NRx2 = `nrx2`.
pub open spec fn enveloped(e: VolumeEnvelope, nrx2: u8) -> u8 {
    if nrx2 & 0x07 == 0 || (e.timer.n as int + 1) / (e.timer.period as int) == 0 {
        e.volume
    } else if nrx2 & 0x08 != 0 {
        if e.volume < 15 { (e.volume + 1) as u8 } else { e.volume }
    } else {
        if e.volume > 0 { (e.volume - 1) as u8 } else { e.volume }
    }
}

/// The length counter after one length clock of a channel with NRx4 = `nrx4`.
pub open spec fn length_clocked(n: u16, nrx4: u8) -> u16 {
    if nrx4 & 0x40 != 0 && n != 0 {
        (n - 1) as u16
    } else {
        n
    }
}

/// The frequency computed by one sweep step from `shadow`.
pub open spec fn sweep_target(shadow: u16, nrx0: u8) -> int {
    let offset = (shadow >> (nrx0 & 0x07)) as int;
    if nrx0 & 0x08 != 0 {
        shadow as int - offset
    } else {
        shadow as int + offset
    }
}

/// The frequency sweep of square channel 1.
pub struct FrequencySweep {
    pub timer: Clock,
    pub enable: bool,
    pub shadow: u16,
    pub newfeq: u16,
}

impl FrequencySweep {
    pub fn power_up() -> (r: Self)
        ensures
            r.wf(),
    {
        Self { timer: Clock::power_up(8), enable: false, shadow: 0x0000, newfeq: 0x0000 }
    }

    pub open spec fn wf(&self) -> bool {
        self.timer.wf() && self.shadow < 2048
    }

    /// The next frequency from the shadow; a negative result counts as no overflow (0).
    fn frequency_calculation(&mut self, reg: &Register)
        requires
            old(self).shadow < 2048,
        ensures
            final(self).shadow == old(self).shadow && final(self).timer == old(self).timer,
            final(self).enable == old(self).enable,
            sweep_target(old(self).shadow, reg.nrx0) >= 0,
            final(self).newfeq as int == if sweep_target(old(self).shadow, reg.nrx0) < 0 {
                0
            } else {
                sweep_target(old(self).shadow, reg.nrx0)
            },
    {
        let shift = reg.nrx0 & 0x07;
        let r0 = reg.nrx0;
        proof { crate::bits::lemma_u8_fields(r0); }
        let offset = self.shadow >> (shift as u16);
        let sh = self.shadow;
        assert(sh >> (shift as u16) <= sh) by (bit_vector);
        if reg.nrx0 & 0x08 != 0 {
            self.newfeq = self.shadow - offset;
        } else {
            self.newfeq = self.shadow + offset;
        }
    }

    /// On trigger: copy the frequency to the shadow, restart the timer, enable when the period
    /// or the shift is non-zero, and with a non-zero shift run one overflow check at once.
    pub fn reload(&mut self, reg: &mut Register)
        requires
            old(self).wf(),
        ensures
            final(self).wf(),
            final(self).shadow == frequency_of(*old(reg)),
            final(self).enable == ((old(reg).nrx0 >> 4) & 0x07 != 0 || old(reg).nrx0 & 0x07 != 0),
            old(reg).nrx0 & 0x07 != 0 && sweep_target(frequency_of(*old(reg)), old(reg).nrx0) >= 2048 ==> final(
                reg).nrx4 & 0x80 == 0,
            !(old(reg).nrx0 & 0x07 != 0 && sweep_target(frequency_of(*old(reg)), old(reg).nrx0) >= 2048)
                ==> *final(reg) == *old(reg),
            final(reg).nrx0 == old(reg).nrx0 && frequency_of(*final(reg)) == frequency_of(*old(reg)),
    {
        self.shadow = reg.get_frequency();
        let p = (reg.nrx0 >> 4) & 0x07;
        self.timer.period = if p == 0 {
            8
        } else {
            p as u32
        };
        self.timer.n = 0;
        self.enable = p != 0x00 || reg.nrx0 & 0x07 != 0x00;
        if reg.nrx0 & 0x07 != 0x00 {
            self.frequency_calculation(reg);
            if self.newfeq >= 2048 {
                let ghost r0 = *reg;
                reg.set_trigger(false);
                assert(frequency_of(*reg) == frequency_of(r0)) by {
                    let a = reg.nrx4;
                    let b = r0.nrx4;
                    assert(a & 0x7f == b & 0x7f ==> a & 0x07 == b & 0x07) by (bit_vector);
                };
            }
        }
    }

    /// One sweep clock: when enabled with a non-zero period and the timer fires, compute the
    /// next frequency; past 2047 the channel stops; otherwise, with a non-zero shift, it is
    /// written back and checked once more.
    pub fn next(&mut self, reg: &mut Register)
        requires
            old(self).wf(),
        ensures
            final(self).wf(),
            final(reg).nrx0 == old(reg).nrx0,
            final(self).enable == old(self).enable,
            ({
                let fires = old(self).enable && (old(reg).nrx0 >> 4) & 0x07 != 0 && (old(self).timer.n as int + 1)
                    / (old(self).timer.period as int) >= 1;
                let t = sweep_target(old(self).shadow, old(reg).nrx0);
                let t2 = sweep_target(t as u16, old(reg).nrx0);
                &&& !fires ==> *final(reg) == *old(reg) && final(self).shadow == old(self).shadow
                &&& fires && t >= 2048 ==> final(reg).nrx4 & 0x80 == 0 && final(self).shadow == old(self).shadow
                    && frequency_of(*final(reg)) == frequency_of(*old(reg))
                &&& fires && t < 2048 && old(reg).nrx0 & 0x07 == 0 ==> *final(reg) == *old(reg) && final(self).shadow
                    == old(self).shadow
                &&& fires && t < 2048 && old(reg).nrx0 & 0x07 != 0 ==> {
                    &&& final(self).shadow == t
                    &&& frequency_of(*final(reg)) == t
                    &&& t2 >= 2048 ==> final(reg).nrx4 & 0x80 == 0
                    &&& t2 < 2048 ==> final(reg).nrx4 & 0x80 == old(reg).nrx4 & 0x80
                }
            }),
    {
        if !self.enable || (reg.nrx0 >> 4) & 0x07 == 0 {
            return;
        }
        if self.timer.next(1) == 0x00 {
            return;
        }
        self.frequency_calculation(reg);
        if self.newfeq >= 2048 {
            let ghost r0 = *reg;
            reg.set_trigger(false);
            proof {
                let a = reg.nrx4;
                let b = r0.nrx4;
                assert(a & 0x7f == b & 0x7f ==> a & 0x07 == b & 0x07) by (bit_vector);
            }
        }
        if self.newfeq < 2048 && reg.nrx0 & 0x07 != 0 {
            let ghost x = reg.nrx4;
            reg.set_frequency(self.newfeq);
            proof {
                let y = reg.nrx4;
                assert(y & 0xf8 == x & 0xf8 ==> y & 0x80 == x & 0x80) by (bit_vector);
            }
            self.shadow = self.newfeq;
            self.frequency_calculation(reg);
            if self.newfeq >= 2048 {
                let ghost r1 = *reg;
                reg.set_trigger(false);
                proof {
                    let a = reg.nrx4;
                    let b = r1.nrx4;
                    assert(a & 0x7f == b & 0x7f ==> a & 0x07 == b & 0x07) by (bit_vector);
                }
            }
        }
    }
}

/// What a channel hands to its band-limited resampler: an amplitude change at a clock time of
/// the current frame, or the end of a frame of the given length.
#[derive(Clone, Copy, Debug, PartialEq, Eq, Structural)]
pub enum BlipEvent {
    Delta(u32, i32),
    EndFrame(u32),
}

/// The output side of a channel: its current amplitude, the time of its last change, and the
/// events not yet taken by the host.
pub struct Blip {
    pub from: u32,
    pub ampl: i32,
    pub events: Vec<BlipEvent>,
}

impl Blip {
    pub fn power_up() -> (r: Self)
        ensures
            r.from == 0 && r.ampl == 0 && r.events@.len() == 0,
    {
        Self { from: 0, ampl: 0, events: Vec::new() }
    }

    /// Moves the amplitude to `ampl` at clock `time`, recording the change.
    pub fn set(&mut self, time: u32, ampl: i32)
        requires
            -16 <= old(self).ampl <= 16,
            -16 <= ampl <= 16,
        ensures
            final(self).from == time,
            final(self).ampl == ampl,
            final(self).events@ == old(self).events@.push(BlipEvent::Delta(time, (ampl - old(self).ampl) as i32)),
    {
        self.from = time;
        let d = ampl - self.ampl;
        self.ampl = ampl;
        self.events.push(BlipEvent::Delta(time, d));
    }
}

/// Timer period of a square channel: 4 × (2048 − frequency).
pub open spec fn square_period(r: Register) -> u32 {
    (4 * (2048 - frequency_of(r) as int)) as u32
}

/// Timer period of the wave channel: 2 × (2048 − frequency).
pub open spec fn wave_period(r: Register) -> u32 {
    (2 * (2048 - frequency_of(r) as int)) as u32
}

/// Timer period of the noise channel: divisor << shift, from NR43.
pub open spec fn noise_period(nr43: u8) -> u32 {
    let code = nr43 & 0x07;
    let divisor: u32 = if code == 0 {
        8
    } else {
        (16 * code) as u32
    };
    (divisor << (nr43 >> 4) as u32) as u32
}

fn square_period_of(r: &Register) -> (p: u32)
    ensures
        p == square_period(*r),
        p > 0,
{
    4 * (2048 - r.get_frequency() as u32)
}

fn wave_period_of(r: &Register) -> (p: u32)
    ensures
        p == wave_period(*r),
        p > 0,
{
    2 * (2048 - r.get_frequency() as u32)
}

fn noise_period_of(nr43: u8) -> (p: u32)
    ensures
        p == noise_period(nr43),
        p > 0,
{
    let code = nr43 & 0x07;
    let divisor: u32 = if code == 0 {
        8
    } else {
        16 * code as u32
    };
    let shift = (nr43 >> 4u8) as u32;
    proof { crate::bits::lemma_u8_fields(nr43); }
    assert(divisor << shift > 0 && divisor << shift == (divisor << shift) as u32) by (bit_vector)
        requires 8 <= divisor <= 112, shift <= 15;
    divisor << shift
}

/// The eight-step duty pattern selected by NRx1 bits 6-7.
pub open spec fn duty_pattern(nrx1: u8) -> u8 {
    let d = nrx1 >> 6;
    if d == 0 {
        0x01
    } else if d == 1 {
        0x81
    } else if d == 2 {
        0x87
    } else {
        0x7e
    }
}

/// A square-wave channel (1 with sweep, 2 without).
pub struct ChannelSquare {
    pub reg: Register,
    pub timer: Clock,
    pub lc: LengthCounter,
    pub ve: VolumeEnvelope,
    pub fs: FrequencySweep,
    pub blip: Blip,
    pub idx: u8,
    pub with_sweep: bool,
}

impl ChannelSquare {
    pub open spec fn wf(&self) -> bool {
        &&& self.timer.wf()
        &&& self.ve.wf()
        &&& self.fs.wf()
        &&& self.idx < 8
        &&& -16 <= self.blip.ampl <= 16
    }

    pub fn power_up(with_sweep: bool) -> (r: ChannelSquare)
        ensures
            r.wf(),
            r.with_sweep == with_sweep,
            r.reg.nrx1 == 0x40,
    {
        ChannelSquare {
            reg: Register::power_up(0x40),
            timer: Clock::power_up(8192),
            lc: LengthCounter { n: 0 },
            ve: VolumeEnvelope::power_up(),
            fs: FrequencySweep::power_up(),
            blip: Blip::power_up(),
            idx: 1,
            with_sweep,
        }
    }

    /// The amplitude of the current duty step: ± volume while running, 0 when stopped or silent.
    pub open spec fn amplitude(&self) -> int {
        if self.reg.nrx4 & 0x80 == 0 || self.ve.volume == 0 {
            0
        } else if (duty_pattern(self.reg.nrx1) >> self.idx) & 0x01 != 0 {
            self.ve.volume as int
        } else {
            -(self.ve.volume as int)
        }
    }

    /// One timer period: records the amplitude of the current duty step and moves to the next.
    pub fn step(&mut self)
        requires
            old(self).wf(),
        ensures
            final(self).wf(),
            final(self).blip.ampl == old(self).amplitude(),
            final(self).blip.from == ((old(self).blip.from + old(self).timer.period) % 0x1_0000_0000) as u32,
            final(self).blip.events@ == old(self).blip.events@.push(
                BlipEvent::Delta(final(self).blip.from, (old(self).amplitude() - old(self).blip.ampl) as i32),
            ),
            final(self).idx == (old(self).idx + 1) % 8,
            final(self).reg == old(self).reg && final(self).ve == old(self).ve && final(self).fs == old(self).fs,
            final(self).lc == old(self).lc && final(self).timer == old(self).timer,
            final(self).with_sweep == old(self).with_sweep,
    {
        let pat: u8 = match self.reg.nrx1 >> 6u8 {
            0 => 0x01,
            1 => 0x81,
            2 => 0x87,
            _ => 0x7e,
        };
        let vol = self.ve.volume as i32;
        let ampl: i32 = if !self.reg.get_trigger() || self.ve.volume == 0 {
            0
        } else if (pat >> self.idx) & 0x01 != 0x00 {
            vol
        } else {
            -vol
        };
        self.blip.set(self.blip.from.wrapping_add(self.timer.period), ampl);
        self.idx = (self.idx + 1) % 8;
    }

    /// Runs the waveform for `cycles` clocks: one step per elapsed timer period.
    pub fn next(&mut self, cycles: u32)
        requires
            old(self).wf(),
        ensures
            final(self).wf(),
            final(self).reg == old(self).reg,
            final(self).ve == old(self).ve,
            final(self).fs == old(self).fs,
            final(self).lc == old(self).lc,
            final(self).timer.period == old(self).timer.period,
            final(self).with_sweep == old(self).with_sweep,
            final(self).blip.events@.len() == old(self).blip.events@.len() + (old(self).timer.n as int + cycles as int)
                / (old(self).timer.period as int),
    {
        let n = self.timer.next(cycles);
        let ghost len0 = self.blip.events@.len();
        let mut i: u32 = 0;
        while i < n
            invariant
                self.wf(),
                i <= n,
                self.reg == old(self).reg,
                self.ve == old(self).ve,
                self.fs == old(self).fs,
                self.lc == old(self).lc,
                self.timer.period == old(self).timer.period,
                self.with_sweep == old(self).with_sweep,
                self.blip.events@.len() == len0 + i,
            decreases n - i,
        {
            self.step();
            i = i + 1;
        }
    }

    pub fn get(&self, a: u16) -> (r: u8)
        ensures
            a % 5 == 0 ==> r == self.reg.nrx0,
            a % 5 == 1 ==> r == self.reg.nrx1,
            a % 5 == 2 ==> r == self.reg.nrx2,
            a % 5 == 3 ==> r == self.reg.nrx3,
            a % 5 == 4 ==> r == self.reg.nrx4,
    {
        let k = a % 5;
        if k == 0 {
            self.reg.nrx0
        } else if k == 1 {
            self.reg.nrx1
        } else if k == 2 {
            self.reg.nrx2
        } else if k == 3 {
            self.reg.nrx3
        } else {
            self.reg.nrx4
        }
    }

    /// Writes register `k` (0..5 for NRx0..NRx4). NRx1 reloads the length counter; NRx3 and
    /// NRx4 set the timer period; NRx4 with bit 7 set triggers the channel.
    pub fn set(&mut self, k: u16, v: u8)
        requires
            old(self).wf(),
            k < 5,
        ensures
            final(self).wf(),
            final(self).with_sweep == old(self).with_sweep,
            k == 4 ==> final(self).timer.period == square_period(final(self).reg),
            k == 4 && v & 0x80 != 0 && old(self).with_sweep && old(self).reg.nrx0 & 0x07 != 0 && sweep_target(
                frequency_of(Register { nrx4: v, ..old(self).reg }),
                old(self).reg.nrx0,
            ) >= 2048 ==> final(self).reg.nrx4 & 0x80 == 0,
            k == 4 && v & 0x80 != 0 && !(old(self).with_sweep && old(self).reg.nrx0 & 0x07 != 0 && sweep_target(
                frequency_of(Register { nrx4: v, ..old(self).reg }),
                old(self).reg.nrx0,
            ) >= 2048) ==> final(self).reg.nrx4 == v && final(self).ve.volume == old(self).reg.nrx2 >> 4u8,
    {
        if k == 0 {
            self.reg.nrx0 = v;
        } else if k == 1 {
            self.reg.nrx1 = v;
            proof { crate::bits::lemma_u8_fields(v); }
            self.lc.n = 64 - (v & 0x3f) as u16;
        } else if k == 2 {
            self.reg.nrx2 = v;
        } else if k == 3 {
            self.reg.nrx3 = v;
            self.timer.period = square_period_of(&self.reg);
            self.timer.n = 0;
        } else {
            self.reg.nrx4 = v;
            self.timer.period = square_period_of(&self.reg);
            self.timer.n = 0;
            if v & 0x80 != 0 {
                self.lc.reload(64);
                self.ve.reload(&self.reg);
                if self.with_sweep {
                    self.fs.reload(&mut self.reg);
                }
            }
        }
    }
}

/// The 4-bit sample at position `pos` of the wave table, high nibble first.
pub open spec fn wave_sample(ram: Seq<u8>, pos: int) -> u8 {
    if pos % 2 == 0 {
        ram[pos / 2] >> 4u8
    } else {
        ram[pos / 2] & 0x0f
    }
}

/// The right shift applied to wave samples for the NR32 volume code (0 mutes with a shift of 4).
pub open spec fn wave_shift(nrx2: u8) -> u8 {
    let code = (nrx2 >> 5u8) & 0x03;
    if code == 0 {
        4
    } else {
        (code - 1) as u8
    }
}

/// The wave channel: 32 four-bit samples played in turn.
pub struct ChannelWave {
    pub reg: Register,
    pub timer: Clock,
    pub lc: LengthCounter,
    pub blip: Blip,
    pub waveram: Vec<u8>,
    pub waveidx: usize,
}

impl ChannelWave {
    pub open spec fn wf(&self) -> bool {
        &&& self.timer.wf()
        &&& self.waveram@.len() == 16
        &&& self.waveidx < 32
        &&& -16 <= self.blip.ampl <= 16
    }

    pub fn power_up() -> (r: ChannelWave)
        ensures
            r.wf(),
    {
        let mut waveram: Vec<u8> = Vec::new();
        let mut i: usize = 0;
        while i < 16
            invariant
                i <= 16,
                waveram@.len() == i,
            decreases 16 - i,
        {
            waveram.push(0);
            i = i + 1;
        }
        ChannelWave {
            reg: Register::power_up(0),
            timer: Clock::power_up(8192),
            lc: LengthCounter { n: 0 },
            blip: Blip::power_up(),
            waveram,
            waveidx: 0,
        }
    }

    /// The amplitude of the current sample: shifted by the volume code, 0 while stopped or with
    /// the DAC off.
    pub open spec fn amplitude(&self) -> int {
        if self.reg.nrx4 & 0x80 == 0 || self.reg.nrx0 & 0x80 == 0 {
            0
        } else {
            (wave_sample(self.waveram@, self.waveidx as int) >> wave_shift(self.reg.nrx2)) as int
        }
    }

    /// One timer period: records the current sample and moves to the next position.
    pub fn step(&mut self)
        requires
            old(self).wf(),
        ensures
            final(self).wf(),
            final(self).blip.ampl == old(self).amplitude(),
            final(self).blip.from == ((old(self).blip.from + old(self).timer.period) % 0x1_0000_0000) as u32,
            final(self).blip.events@ == old(self).blip.events@.push(
                BlipEvent::Delta(final(self).blip.from, (old(self).amplitude() - old(self).blip.ampl) as i32),
            ),
            final(self).waveidx == (old(self).waveidx + 1) % 32,
            final(self).reg == old(self).reg && final(self).lc == old(self).lc && final(self).timer == old(self).timer,
            final(self).waveram@ == old(self).waveram@,
    {
        let code = (self.reg.nrx2 >> 5u8) & 0x03;
        let r2 = self.reg.nrx2;
        proof { crate::bits::lemma_u8_fields(r2); }
        let s: u8 = if code == 0 {
            4
        } else {
            code - 1
        };
        let byte = self.waveram[self.waveidx / 2];
        let sample: u8 = if self.waveidx % 2 == 0 {
            byte >> 4u8
        } else {
            byte & 0x0f
        };
        proof { crate::bits::lemma_u8_fields(byte); }
        let ampl: i32 = if !self.reg.get_trigger() || self.reg.nrx0 & 0x80 == 0 {
            0
        } else {
            assert(sample >> s <= sample) by (bit_vector);
            (sample >> s) as i32
        };
        self.blip.set(self.blip.from.wrapping_add(self.timer.period), ampl);
        self.waveidx = (self.waveidx + 1) % 32;
    }

    /// Plays `cycles` clocks: one step per elapsed timer period.
    pub fn next(&mut self, cycles: u32)
        requires
            old(self).wf(),
        ensures
            final(self).wf(),
            final(self).reg == old(self).reg,
            final(self).lc == old(self).lc,
            final(self).waveram@ == old(self).waveram@,
            final(self).timer.period == old(self).timer.period,
            final(self).blip.events@.len() == old(self).blip.events@.len() + (old(self).timer.n as int + cycles as int)
                / (old(self).timer.period as int),
            final(self).waveidx as int == (old(self).waveidx as int + (old(self).timer.n as int + cycles as int)
                / (old(self).timer.period as int)) % 32,
    {
        let n = self.timer.next(cycles);
        let ghost len0 = self.blip.events@.len();
        let ghost w0 = self.waveidx as int;
        let mut i: u32 = 0;
        while i < n
            invariant
                self.wf(),
                i <= n,
                self.reg == old(self).reg,
                self.lc == old(self).lc,
                self.waveram@ == old(self).waveram@,
                self.timer.period == old(self).timer.period,
                self.blip.events@.len() == len0 + i,
                self.waveidx as int == (w0 + i) % 32,
                0 <= w0 < 32,
            decreases n - i,
        {
            self.step();
            assert(((w0 + i) % 32 + 1) % 32 == (w0 + i + 1) % 32) by (nonlinear_arith)
                requires w0 + i >= 0;
            i = i + 1;
        }
    }

    /// Writes register `k` (0..5 for NR30..NR34).
    pub fn set(&mut self, k: u16, v: u8)
        requires
            old(self).wf(),
            k < 5,
        ensures
            final(self).wf(),
            final(self).waveram@ == old(self).waveram@,
            k == 4 ==> final(self).reg.nrx4 == v && final(self).timer.period == wave_period(final(self).reg),
            k == 4 && v & 0x80 != 0 ==> final(self).waveidx == 0,
    {
        if k == 0 {
            self.reg.nrx0 = v;
        } else if k == 1 {
            self.reg.nrx1 = v;
            self.lc.n = 256 - v as u16;
        } else if k == 2 {
            self.reg.nrx2 = v;
        } else if k == 3 {
            self.reg.nrx3 = v;
            self.timer.period = wave_period_of(&self.reg);
            self.timer.n = 0;
        } else {
            self.reg.nrx4 = v;
            self.timer.period = wave_period_of(&self.reg);
            self.timer.n = 0;
            if v & 0x80 != 0 {
                self.lc.reload(256);
                self.waveidx = 0;
            }
        }
    }
}

/// One LFSR clock: bits 0 and 1 are XORed, the register shifts right and the result enters
/// bit 14, and also bit 6 in width mode.
pub open spec fn lfsr_step(n: u16, width: bool) -> u16 {
    let x = (n ^ (n >> 1u16)) & 0x01;
    let m = (n >> 1u16) | (x << 14u16);
    if width {
        (m & !0x40u16) | (x << 6u16)
    } else {
        m
    }
}

/// The LFSR after `k` clocks.
pub open spec fn lfsr_iter(n: u16, width: bool, k: nat) -> u16
    decreases k,
{
    if k == 0 {
        n
    } else {
        lfsr_step(lfsr_iter(n, width, (k - 1) as nat), width)
    }
}

/// The 15-bit noise generator.
pub struct Lfsr {
    pub n: u16,
}

impl Lfsr {
    pub fn power_up() -> (r: Self)
        ensures
            r.n == 1,
    {
        Self { n: 0x0001 }
    }

    /// Clocks the register once; returns whether the output is high (bit 0 clear).
    pub fn next(&mut self, width: bool) -> (r: bool)
        ensures
            final(self).n == lfsr_step(old(self).n, width),
            r == (final(self).n & 0x01 == 0),
    {
        let n = self.n;
        let x = (n ^ (n >> 1u16)) & 0x01;
        let m = (n >> 1u16) | (x << 14u16);
        self.n = if width {
            (m & !0x40u16) | (x << 6u16)
        } else {
            m
        };
        self.n & 0x01 == 0
    }

    pub fn reload(&mut self)
        ensures
            final(self).n == 1,
    {
        self.n = 0x0001;
    }
}

/// The noise channel.
pub struct ChannelNoise {
    pub reg: Register,
    pub timer: Clock,
    pub lc: LengthCounter,
    pub ve: VolumeEnvelope,
    pub lfsr: Lfsr,
    pub blip: Blip,
}

impl ChannelNoise {
    pub open spec fn wf(&self) -> bool {
        &&& self.timer.wf()
        &&& self.ve.wf()
        &&& -16 <= self.blip.ampl <= 16
    }

    pub fn power_up() -> (r: ChannelNoise)
        ensures
            r.wf(),
    {
        ChannelNoise {
            reg: Register::power_up(0),
            timer: Clock::power_up(4096),
            lc: LengthCounter { n: 0 },
            ve: VolumeEnvelope::power_up(),
            lfsr: Lfsr::power_up(),
            blip: Blip::power_up(),
        }
    }

    /// One timer period: while running, the LFSR is clocked (in width mode with NR43 bit 3) and
    /// the output is + volume when bit 0 is clear, − volume otherwise; stopped or silent, 0.
    pub fn step(&mut self)
        requires
            old(self).wf(),
        ensures
            final(self).wf(),
            ({
                let running = old(self).reg.nrx4 & 0x80 != 0 && old(self).ve.volume != 0;
                let n = lfsr_step(old(self).lfsr.n, old(self).reg.nrx3 & 0x08 != 0);
                let ampl: int = if !running {
                    0
                } else if n & 0x01 == 0 {
                    old(self).ve.volume as int
                } else {
                    -(old(self).ve.volume as int)
                };
                &&& final(self).lfsr.n == if running { n } else { old(self).lfsr.n }
                &&& final(self).blip.ampl == ampl
                &&& final(self).blip.events@ == old(self).blip.events@.push(
                    BlipEvent::Delta(final(self).blip.from, (ampl - old(self).blip.ampl) as i32),
                )
            }),
            final(self).blip.from == ((old(self).blip.from + old(self).timer.period) % 0x1_0000_0000) as u32,
            final(self).reg == old(self).reg && final(self).lc == old(self).lc && final(self).ve == old(self).ve,
            final(self).timer == old(self).timer,
    {
        let width = self.reg.nrx3 & 0x08 != 0;
        let ampl: i32 = if !self.reg.get_trigger() || self.ve.volume == 0 {
            0
        } else if self.lfsr.next(width) {
            self.ve.volume as i32
        } else {
            -(self.ve.volume as i32)
        };
        self.blip.set(self.blip.from.wrapping_add(self.timer.period), ampl);
    }

    /// Runs `cycles` clocks: one step per elapsed timer period.
    pub fn next(&mut self, cycles: u32)
        requires
            old(self).wf(),
        ensures
            final(self).wf(),
            final(self).reg == old(self).reg,
            final(self).lc == old(self).lc,
            final(self).ve == old(self).ve,
            final(self).timer.period == old(self).timer.period,
            final(self).blip.events@.len() == old(self).blip.events@.len() + (old(self).timer.n as int + cycles as int)
                / (old(self).timer.period as int),
            final(self).lfsr.n == if old(self).reg.nrx4 & 0x80 != 0 && old(self).ve.volume != 0 {
                lfsr_iter(old(self).lfsr.n, old(self).reg.nrx3 & 0x08 != 0, ((old(self).timer.n as int + cycles as int)
                    / (old(self).timer.period as int)) as nat)
            } else {
                old(self).lfsr.n
            },
    {
        let n = self.timer.next(cycles);
        let ghost len0 = self.blip.events@.len();
        let ghost l0 = self.lfsr.n;
        let mut i: u32 = 0;
        while i < n
            invariant
                self.wf(),
                i <= n,
                self.reg == old(self).reg,
                self.lc == old(self).lc,
                self.ve == old(self).ve,
                self.timer.period == old(self).timer.period,
                self.blip.events@.len() == len0 + i,
                self.lfsr.n == if old(self).reg.nrx4 & 0x80 != 0 && old(self).ve.volume != 0 {
                    lfsr_iter(l0, old(self).reg.nrx3 & 0x08 != 0, i as nat)
                } else {
                    l0
                },
            decreases n - i,
        {
            self.step();
            i = i + 1;
        }
    }

    /// Writes register `k` (0..5 for NR40..NR44).
    pub fn set(&mut self, k: u16, v: u8)
        requires
            old(self).wf(),
            k < 5,
        ensures
            final(self).wf(),
            k == 3 ==> final(self).timer.period == noise_period(v),
            k == 4 && v & 0x80 != 0 ==> final(self).lfsr.n == 1 && final(self).ve.volume == old(self).reg.nrx2 >> 4u8,
    {
        if k == 0 {
            self.reg.nrx0 = v;
        } else if k == 1 {
            self.reg.nrx1 = v;
            proof { crate::bits::lemma_u8_fields(v); }
            self.lc.n = 64 - (v & 0x3f) as u16;
        } else if k == 2 {
            self.reg.nrx2 = v;
        } else if k == 3 {
            self.reg.nrx3 = v;
            self.timer.period = noise_period_of(v);
            self.timer.n = 0;
        } else {
            self.reg.nrx4 = v;
            if v & 0x80 != 0 {
                self.lc.reload(64);
                self.ve.reload(&self.reg);
                self.lfsr.reload();
            }
        }
    }
}

/// Bits of NR10..=NR52 and the unused registers after them that always read as 1.
pub open spec fn rd_mask() -> Seq<u8> {
    seq![
        0x80u8, 0x3f, 0x00, 0xff, 0xbf, 0xff, 0x3f, 0x00, 0xff, 0xbf, 0x7f, 0xff, 0x9f, 0xff, 0xbf, 0xff, 0xff, 0x00,
        0x00, 0xbf, 0x00, 0x00, 0x70, 0xff, 0xff, 0xff, 0xff, 0xff, 0xff, 0xff, 0xff, 0xff,
    ]
}

fn rd_mask_table() -> (r: Vec<u8>)
    ensures
        r@ == rd_mask(),
{
    let r: Vec<u8> = vec![
        0x80, 0x3f, 0x00, 0xff, 0xbf, 0xff, 0x3f, 0x00, 0xff, 0xbf, 0x7f, 0xff, 0x9f, 0xff, 0xbf, 0xff, 0xff, 0x00,
        0x00, 0xbf, 0x00, 0x00, 0x70, 0xff, 0xff, 0xff, 0xff, 0xff, 0xff, 0xff, 0xff, 0xff,
    ];
    assert(r@ =~= rd_mask());
    r
}

/// The audio processing unit: four channels, the frame sequencer and the mixer registers.
pub struct Apu {
    /// NR50 in `nrx0`, NR51 in `nrx1`, NR52 in `nrx2`.
    pub reg: Register,
    pub timer: Clock,
    pub fs: FrameSequencer,
    pub channel1: ChannelSquare,
    pub channel2: ChannelSquare,
    pub channel3: ChannelWave,
    pub channel4: ChannelNoise,
}

impl Apu {
    pub open spec fn wf(&self) -> bool {
        &&& self.timer.wf()
        &&& self.timer.period == FRAME_PERIOD
        &&& self.fs.step < 8
        &&& self.channel1.wf() && self.channel1.with_sweep
        &&& self.channel2.wf() && !self.channel2.with_sweep
        &&& self.channel3.wf()
        &&& self.channel4.wf()
    }

    /// Whether NR52 bit 7 (power) is set.
    pub open spec fn powered(&self) -> bool {
        self.reg.nrx2 & 0x80 != 0
    }

    pub fn power_up() -> (r: Self)
        ensures
            r.wf(),
            !r.powered(),
    {
        proof { crate::bits::lemma_constants(); }
        Self {
            reg: Register::power_up(0),
            timer: Clock::power_up(FRAME_PERIOD),
            fs: FrameSequencer::power_up(),
            channel1: ChannelSquare::power_up(true),
            channel2: ChannelSquare::power_up(false),
            channel3: ChannelWave::power_up(),
            channel4: ChannelNoise::power_up(),
        }
    }

    /// NR52 as read: power, and which channels are running.
    pub open spec fn status_byte(&self) -> u8 {
        (self.reg.nrx2 & 0xf0) | (if self.channel1.reg.nrx4 & 0x80 != 0 { 1u8 } else { 0u8 }) | (
        if self.channel2.reg.nrx4 & 0x80 != 0 { 2u8 } else { 0u8 }) | (if self.channel3.reg.nrx4 & 0x80 != 0
            && self.channel3.reg.nrx0 & 0x80 != 0 { 4u8 } else { 0u8 }) | (if self.channel4.reg.nrx4 & 0x80 != 0 {
            8u8
        } else {
            0u8
        })
    }

    pub open spec fn raw(&self, a: u16) -> u8 {
        if 0xff10 <= a <= 0xff14 {
            reg_byte(self.channel1.reg, (a - 0xff10) as u16)
        } else if 0xff15 <= a <= 0xff19 {
            reg_byte(self.channel2.reg, (a - 0xff15) as u16)
        } else if 0xff1a <= a <= 0xff1e {
            reg_byte(self.channel3.reg, (a - 0xff1a) as u16)
        } else if 0xff1f <= a <= 0xff23 {
            reg_byte(self.channel4.reg, (a - 0xff1f) as u16)
        } else if a == 0xff24 {
            self.reg.nrx0
        } else if a == 0xff25 {
            self.reg.nrx1
        } else if a == 0xff26 {
            self.status_byte()
        } else if 0xff30 <= a <= 0xff3f {
            self.channel3.waveram@[a - 0xff30]
        } else {
            0
        }
    }

    /// What a read of `a` in 0xff10..=0xff3f returns: the register with its unused bits set.
    pub open spec fn peek(&self, a: u16) -> u8 {
        if 0xff10 <= a < 0xff30 {
            self.raw(a) | rd_mask()[a - 0xff10]
        } else {
            self.raw(a)
        }
    }

    pub fn get(&self, a: u16) -> (r: u8)
        requires
            self.wf(),
            0xff10 <= a <= 0xff3f,
        ensures
            r == self.peek(a),
    {
        let raw: u8 = if a <= 0xff14 {
            self.channel1.get(a - 0xff10)
        } else if a <= 0xff19 {
            self.channel2.get(a - 0xff15)
        } else if a <= 0xff1e {
            reg_get(&self.channel3.reg, a - 0xff1a)
        } else if a <= 0xff23 {
            reg_get(&self.channel4.reg, a - 0xff1f)
        } else if a == 0xff24 {
            self.reg.nrx0
        } else if a == 0xff25 {
            self.reg.nrx1
        } else if a == 0xff26 {
            let a0 = self.reg.nrx2 & 0xf0;
            let b: u8 = if self.channel1.reg.get_trigger() { 1 } else { 0 };
            let c: u8 = if self.channel2.reg.get_trigger() { 2 } else { 0 };
            let d: u8 = if self.channel3.reg.get_trigger() && self.channel3.reg.nrx0 & 0x80 != 0 { 4 } else { 0 };
            let e: u8 = if self.channel4.reg.get_trigger() { 8 } else { 0 };
            a0 | b | c | d | e
        } else if a >= 0xff30 {
            self.channel3.waveram[(a - 0xff30) as usize]
        } else {
            0
        };
        if a < 0xff30 {
            let mask = rd_mask_table();
            raw | mask[(a - 0xff10) as usize]
        } else {
            raw
        }
    }

    /// Writes a register or wave RAM. While powered off only NR52 takes writes; clearing its
    /// bit 7 zeroes NR10..=NR51 and keeps wave RAM.
    pub fn set(&mut self, a: u16, v: u8)
        requires
            old(self).wf(),
            0xff10 <= a <= 0xff3f,
        ensures
            final(self).wf(),
            a != 0xff26 && !old(self).powered() ==> *final(self) == *old(self),
            a == 0xff26 ==> final(self).channel3.waveram@ == old(self).channel3.waveram@,
            a == 0xff26 && v & 0x80 == 0 ==> !final(self).powered() && final(self).reg.nrx0 == 0 && final(self).reg.nrx1
                == 0 && cleared(final(self).channel1.reg) && cleared(final(self).channel2.reg) && cleared(
                final(self).channel3.reg,
            ) && cleared(final(self).channel4.reg),
            a == 0xff26 && v & 0x80 != 0 ==> final(self).powered(),
            old(self).powered() && 0xff30 <= a <= 0xff3f ==> final(self).channel3.waveram@ == old(self).channel3.waveram@.update(
                a - 0xff30,
                v,
            ),
            old(self).powered() && a == 0xff24 ==> final(self).reg.nrx0 == v,
            old(self).powered() && a == 0xff14 && v & 0x80 != 0 && old(self).channel1.reg.nrx0 & 0x07 != 0 && sweep_target(
                frequency_of(Register { nrx4: v, ..old(self).channel1.reg }),
                old(self).channel1.reg.nrx0,
            ) >= 2048 ==> final(self).channel1.reg.nrx4 & 0x80 == 0,
            old(self).powered() && a == 0xff25 ==> final(self).reg.nrx1 == v,
            old(self).powered() && a == 0xff24 ==> final(self).reg == (Register { nrx0: v, ..old(self).reg }),
            old(self).powered() && a == 0xff25 ==> final(self).reg == (Register { nrx1: v, ..old(self).reg }),
            a != 0xff24 && a != 0xff25 && a != 0xff26 ==> final(self).reg == old(self).reg,
    {
        if a != 0xff26 && self.reg.nrx2 & 0x80 == 0 {
            return;
        }
        if a <= 0xff14 {
            self.channel1.set(a - 0xff10, v);
        } else if a <= 0xff19 {
            self.channel2.set(a - 0xff15, v);
        } else if a <= 0xff1e {
            self.channel3.set(a - 0xff1a, v);
        } else if a <= 0xff23 {
            self.channel4.set(a - 0xff1f, v);
        } else if a == 0xff24 {
            self.reg.nrx0 = v;
        } else if a == 0xff25 {
            self.reg.nrx1 = v;
        } else if a == 0xff26 {
            self.reg.nrx2 = v;
            if v & 0x80 == 0 {
                self.channel1.reg = Register::power_up(0);
                self.channel2.reg = Register::power_up(0);
                self.channel3.reg = Register::power_up(0);
                self.channel4.reg = Register::power_up(0);
                self.reg = Register::power_up(0);
                proof { crate::bits::lemma_constants(); }
            }
        } else if a >= 0xff30 {
            self.channel3.waveram.set((a - 0xff30) as usize, v);
        }
    }

    /// Advances the frame sequencer by `cycles`. At each 512 Hz step every channel renders the
    /// elapsed period; steps 0, 2, 4, 6 clock the length counters, steps 2 and 6 the sweep,
    /// step 7 the envelopes; then every channel ends its frame. Nothing runs while powered off.
    pub fn next(&mut self, cycles: u32)
        requires
            old(self).wf(),
        ensures
            final(self).wf(),
            final(self).reg == old(self).reg,
            final(self).channel3.waveram@ == old(self).channel3.waveram@,
            !old(self).powered() ==> final(self).fs == old(self).fs,
            old(self).powered() ==> final(self).fs.step as int == (old(self).fs.step as int + (old(self).timer.n as int
                + cycles as int) / (FRAME_PERIOD as int)) % 8,
            ({
                let frames = (old(self).timer.n as int + cycles as int) / (FRAME_PERIOD as int);
                &&& old(self).powered() ==> final(self).channel1.blip.events@.len() >= old(self).channel1.blip.events@.len() + frames
                &&& old(self).powered() ==> final(self).channel2.blip.events@.len() >= old(self).channel2.blip.events@.len() + frames
                &&& old(self).powered() ==> final(self).channel3.blip.events@.len() >= old(self).channel3.blip.events@.len() + frames
                &&& old(self).powered() ==> final(self).channel4.blip.events@.len() >= old(self).channel4.blip.events@.len() + frames
                &&& old(self).powered() && frames > 0 ==> final(self).channel1.blip.events@.last() == BlipEvent::EndFrame(FRAME_PERIOD)
                &&& !old(self).powered() ==> *final(self) == *old(self)
            }),
    {
        if self.reg.nrx2 & 0x80 == 0 {
            return;
        }
        let n = self.timer.next(cycles);
        let ghost s0 = self.fs.step as int;
        let ghost l1 = self.channel1.blip.events@.len();
        let ghost l2 = self.channel2.blip.events@.len();
        let ghost l3 = self.channel3.blip.events@.len();
        let ghost l4 = self.channel4.blip.events@.len();
        let mut i: u32 = 0;
        while i < n
            invariant
                self.wf(),
                i <= n,
                self.reg == old(self).reg,
                self.powered(),
                self.channel3.waveram@ == old(self).channel3.waveram@,
                self.fs.step as int == (s0 + i) % 8,
                0 <= s0 < 8,
                self.channel1.blip.events@.len() >= l1 + i && self.channel2.blip.events@.len() >= l2 + i,
                self.channel3.blip.events@.len() >= l3 + i && self.channel4.blip.events@.len() >= l4 + i,
                i > 0 ==> self.channel1.blip.events@.last() == BlipEvent::EndFrame(FRAME_PERIOD),
            decreases n - i,
        {
            self.tick();
            assert(((s0 + i) % 8 + 1) % 8 == (s0 + i + 1) % 8) by (nonlinear_arith)
                requires s0 + i >= 0;
            i = i + 1;
        }
    }

    /// One frame-sequencer step: every channel renders one frame period, the step counter moves
    /// on, steps 0, 2, 4 and 6 clock the length counters, steps 2 and 6 the sweep and step 7 the
    /// envelopes; then every channel ends its frame.
    pub fn tick(&mut self)
        requires
            old(self).wf(),
        ensures
            final(self).wf(),
            final(self).reg == old(self).reg,
            final(self).channel3.waveram@ == old(self).channel3.waveram@,
            ({
                let step = (old(self).fs.step + 1) % 8;
                let even = step == 0 || step == 2 || step == 4 || step == 6;
                &&& final(self).fs.step == step
                &&& final(self).channel1.lc.n == if even { length_clocked(old(self).channel1.lc.n, old(self).channel1.reg.nrx4) } else { old(self).channel1.lc.n }
                &&& final(self).channel2.lc.n == if even { length_clocked(old(self).channel2.lc.n, old(self).channel2.reg.nrx4) } else { old(self).channel2.lc.n }
                &&& final(self).channel3.lc.n == if even { length_clocked(old(self).channel3.lc.n, old(self).channel3.reg.nrx4) } else { old(self).channel3.lc.n }
                &&& final(self).channel4.lc.n == if even { length_clocked(old(self).channel4.lc.n, old(self).channel4.reg.nrx4) } else { old(self).channel4.lc.n }
                &&& final(self).channel1.ve.volume == if step == 7 { enveloped(old(self).channel1.ve, old(self).channel1.reg.nrx2) } else { old(self).channel1.ve.volume }
                &&& final(self).channel2.ve.volume == if step == 7 { enveloped(old(self).channel2.ve, old(self).channel2.reg.nrx2) } else { old(self).channel2.ve.volume }
                &&& final(self).channel4.ve.volume == if step == 7 { enveloped(old(self).channel4.ve, old(self).channel4.reg.nrx2) } else { old(self).channel4.ve.volume }
                &&& !(step == 2 || step == 6) ==> final(self).channel1.fs.shadow == old(self).channel1.fs.shadow
                &&& final(self).channel1.blip.events@.len() == old(self).channel1.blip.events@.len() + (old(self).channel1.timer.n as int
                    + FRAME_PERIOD as int) / (old(self).channel1.timer.period as int) + 1
                &&& final(self).channel1.blip.events@.last() == BlipEvent::EndFrame(FRAME_PERIOD)
                &&& final(self).channel2.blip.events@.len() > old(self).channel2.blip.events@.len()
                &&& final(self).channel3.blip.events@.len() > old(self).channel3.blip.events@.len()
                &&& final(self).channel4.blip.events@.len() > old(self).channel4.blip.events@.len()
            }),
    {
        let period = self.timer.period;
        self.channel1.next(period);
        self.channel2.next(period);
        self.channel3.next(period);
        self.channel4.next(period);
        let step = self.fs.next();
        if step == 0 || step == 2 || step == 4 || step == 6 {
            self.channel1.lc.next(&mut self.channel1.reg);
            self.channel2.lc.next(&mut self.channel2.reg);
            self.channel3.lc.next(&mut self.channel3.reg);
            self.channel4.lc.next(&mut self.channel4.reg);
        }
        if step == 7 {
            self.channel1.ve.next(&self.channel1.reg);
            self.channel2.ve.next(&self.channel2.reg);
            self.channel4.ve.next(&self.channel4.reg);
        }
        if step == 2 || step == 6 {
            self.channel1.fs.next(&mut self.channel1.reg);
            self.channel1.timer.period = square_period_of(&self.channel1.reg);
            self.channel1.timer.n = 0;
        }
        end_frame(&mut self.channel1.blip, period);
        end_frame(&mut self.channel2.blip, period);
        end_frame(&mut self.channel3.blip, period);
        end_frame(&mut self.channel4.blip, period);
    }

    /// Per channel, the (left, right) gains of the mixer: NR51's high nibble enables a channel
    /// on the left and its low nibble on the right, at NR50's per-side volume.
    pub fn mix_gains(&self) -> (r: Vec<(u8, u8)>)
        ensures
            r@.len() == 4,
            forall|k: int|
                0 <= k < 4 ==> r@[k] == (
                    if self.reg.nrx1 & (0x10u8 << k as u8) != 0 { (self.reg.nrx0 >> 4u8) & 0x07 } else { 0u8 },
                    if self.reg.nrx1 & (0x01u8 << k as u8) != 0 { self.reg.nrx0 & 0x07 } else { 0u8 },
                ),
    {
        let l_vol = (self.reg.nrx0 >> 4u8) & 0x07;
        let r_vol = self.reg.nrx0 & 0x07;
        let mut r: Vec<(u8, u8)> = Vec::new();
        let mut k: u8 = 0;
        while k < 4
            invariant
                k <= 4,
                l_vol == (self.reg.nrx0 >> 4u8) & 0x07,
                r_vol == self.reg.nrx0 & 0x07,
                r@.len() == k,
                forall|j: int|
                    0 <= j < k ==> r@[j] == (
                        if self.reg.nrx1 & (0x10u8 << j as u8) != 0 { (self.reg.nrx0 >> 4u8) & 0x07 } else { 0u8 },
                        if self.reg.nrx1 & (0x01u8 << j as u8) != 0 { self.reg.nrx0 & 0x07 } else { 0u8 },
                    ),
            decreases 4 - k,
        {
            let l: u8 = if self.reg.nrx1 & (0x10u8 << k) != 0 { l_vol } else { 0 };
            let rr: u8 = if self.reg.nrx1 & (0x01u8 << k) != 0 { r_vol } else { 0 };
            r.push((l, rr));
            k = k + 1;
        }
        r
    }

    /// Hands out the events of the four channels, in channel order, and clears them.
    pub fn take_events(&mut self) -> (r: Vec<Vec<BlipEvent>>)
        requires
            old(self).wf(),
        ensures
            final(self).wf(),
            r@.len() == 4,
            r@[0]@ == old(self).channel1.blip.events@,
            r@[1]@ == old(self).channel2.blip.events@,
            r@[2]@ == old(self).channel3.blip.events@,
            r@[3]@ == old(self).channel4.blip.events@,
            final(self).channel1.blip.events@.len() == 0 && final(self).channel2.blip.events@.len() == 0,
            final(self).channel3.blip.events@.len() == 0 && final(self).channel4.blip.events@.len() == 0,
    {
        let mut r: Vec<Vec<BlipEvent>> = Vec::new();
        let mut e1: Vec<BlipEvent> = Vec::new();
        std::mem::swap(&mut e1, &mut self.channel1.blip.events);
        let mut e2: Vec<BlipEvent> = Vec::new();
        std::mem::swap(&mut e2, &mut self.channel2.blip.events);
        let mut e3: Vec<BlipEvent> = Vec::new();
        std::mem::swap(&mut e3, &mut self.channel3.blip.events);
        let mut e4: Vec<BlipEvent> = Vec::new();
        std::mem::swap(&mut e4, &mut self.channel4.blip.events);
        r.push(e1);
        r.push(e2);
        r.push(e3);
        r.push(e4);
        r
    }
}

/// Ends the current frame of a channel: records it and makes times relative to the next one.
fn end_frame(b: &mut Blip, period: u32)
    ensures
        final(b).ampl == old(b).ampl,
        final(b).from == old(b).from.wrapping_sub(period),
        final(b).events@ == old(b).events@.push(BlipEvent::EndFrame(period)),
{
    b.events.push(BlipEvent::EndFrame(period));
    b.from = b.from.wrapping_sub(period);
}

/// Whether all five registers of a channel read 0.
pub open spec fn cleared(r: Register) -> bool {
    r.nrx0 == 0 && r.nrx1 == 0 && r.nrx2 == 0 && r.nrx3 == 0 && r.nrx4 == 0
}

/// Register `k` (0..5) of a channel.
pub open spec fn reg_byte(r: Register, k: u16) -> u8 {
    if k == 0 {
        r.nrx0
    } else if k == 1 {
        r.nrx1
    } else if k == 2 {
        r.nrx2
    } else if k == 3 {
        r.nrx3
    } else {
        r.nrx4
    }
}

fn reg_get(r: &Register, k: u16) -> (v: u8)
    ensures
        v == reg_byte(*r, k),
{
    if k == 0 {
        r.nrx0
    } else if k == 1 {
        r.nrx1
    } else if k == 2 {
        r.nrx2
    } else if k == 3 {
        r.nrx3
    } else {
        r.nrx4
    }
}

} // verus!
