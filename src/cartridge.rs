use vstd::prelude::*;

verus! {

/// The byte at index `i`, or 0 where `i` is outside `v`.
pub open spec fn byte_at(v: Seq<u8>, i: int) -> u8 {
    if 0 <= i < v.len() {
        v[i]
    } else {
        0
    }
}

/// `v` with index `i` set to `x`, or `v` unchanged where `i` is outside it.
pub open spec fn store_at(v: Seq<u8>, i: int, x: u8) -> Seq<u8> {
    if 0 <= i < v.len() {
        v.update(i, x)
    } else {
        v
    }
}

pub fn read_at(v: &Vec<u8>, i: usize) -> (r: u8)
    ensures
        r == byte_at(v@, i as int),
{
    if i < v.len() {
        v[i]
    } else {
        0
    }
}

pub fn write_at(v: &mut Vec<u8>, i: usize, x: u8)
    ensures
        final(v)@ == store_at(old(v)@, i as int, x),
{
    if i < v.len() {
        v.set(i, x);
    }
}

/// The five low ROM bank bits that a write to 0x2000..=0x3fff selects; 0 selects 1.
pub open spec fn low_bank_bits(v: u8) -> u8 {
    if v & 0x1f == 0 {
        1
    } else {
        v & 0x1f
    }
}

/// A cartridge without a bank controller: 32 KiB of ROM at 0x0000..=0x7fff.
pub struct RomOnly {
    pub rom: Vec<u8>,
}

impl RomOnly {
    pub fn power_up(rom: Vec<u8>) -> (r: Self)
        ensures
            r.rom@ == rom@,
    {
        RomOnly { rom }
    }

    pub open spec fn peek(&self, a: u16) -> u8 {
        if a <= 0x7fff {
            byte_at(self.rom@, a as int)
        } else {
            0
        }
    }

    pub fn get(&self, a: u16) -> (r: u8)
        ensures
            r == self.peek(a),
    {
        if a <= 0x7fff {
            read_at(&self.rom, a as usize)
        } else {
            0
        }
    }
}

/// Whether the two upper bank bits of an MBC1 select ROM banks (false) or RAM banks (true).
#[derive(Clone, Copy, Debug, PartialEq, Eq, Structural)]
pub enum BankMode {
    Rom,
    Ram,
}

/// The MBC1 controller: up to 2 MiB of ROM and 32 KiB of RAM.
pub struct Mbc1 {
    pub rom: Vec<u8>,
    pub ram: Vec<u8>,
    pub bank_mode: BankMode,
    pub bank: u8,
    pub ram_enable: bool,
    pub battery: bool,
}

impl Mbc1 {
    pub fn power_up(rom: Vec<u8>, ram: Vec<u8>, battery: bool) -> (r: Self)
        ensures
            r.rom@ == rom@,
            r.ram@ == ram@,
            r.bank_mode == BankMode::Rom,
            r.bank == 1,
            !r.ram_enable,
            r.battery == battery,
    {
        Mbc1 { rom, ram, bank_mode: BankMode::Rom, bank: 0x01, ram_enable: false, battery }
    }

    /// The ROM bank mapped at 0x4000..=0x7fff.
    pub open spec fn rom_bank_of(&self) -> u8 {
        match self.bank_mode {
            BankMode::Rom => self.bank & 0x7f,
            BankMode::Ram => self.bank & 0x1f,
        }
    }

    /// The RAM bank mapped at 0xa000..=0xbfff.
    pub open spec fn ram_bank_of(&self) -> u8 {
        match self.bank_mode {
            BankMode::Rom => 0,
            BankMode::Ram => (self.bank & 0x60) >> 5,
        }
    }

    pub fn rom_bank(&self) -> (r: usize)
        ensures
            r == self.rom_bank_of(),
    {
        let n = match self.bank_mode {
            BankMode::Rom => self.bank & 0x7f,
            BankMode::Ram => self.bank & 0x1f,
        };
        n as usize
    }

    pub fn ram_bank(&self) -> (r: usize)
        ensures
            r == self.ram_bank_of(),
    {
        let n = match self.bank_mode {
            BankMode::Rom => 0x00,
            BankMode::Ram => (self.bank & 0x60) >> 5,
        };
        n as usize
    }

    pub open spec fn peek(&self, a: u16) -> u8 {
        if a <= 0x3fff {
            byte_at(self.rom@, a as int)
        } else if a <= 0x7fff {
            byte_at(self.rom@, self.rom_bank_of() as int * 0x4000 + a as int - 0x4000)
        } else if 0xa000 <= a <= 0xbfff && self.ram_enable {
            byte_at(self.ram@, self.ram_bank_of() as int * 0x2000 + a as int - 0xa000)
        } else {
            0
        }
    }

    pub fn get(&self, a: u16) -> (r: u8)
        ensures
            r == self.peek(a),
    {
        if a <= 0x3fff {
            read_at(&self.rom, a as usize)
        } else if a <= 0x7fff {
            let i = self.rom_bank() * 0x4000 + a as usize - 0x4000;
            read_at(&self.rom, i)
        } else if 0xa000 <= a && a <= 0xbfff && self.ram_enable {
            let i = self.ram_bank() * 0x2000 + a as usize - 0xa000;
            read_at(&self.ram, i)
        } else {
            0
        }
    }

    /// Writes to the control registers (0x0000..=0x7fff) or to enabled RAM.
    pub fn set(&mut self, a: u16, v: u8)
        ensures
            final(self).rom@ == old(self).rom@,
            final(self).battery == old(self).battery,
            0xa000 <= a <= 0xbfff ==> {
                &&& final(self).ram@ == if old(self).ram_enable {
                    store_at(
                        old(self).ram@,
                        old(self).ram_bank_of() as int * 0x2000 + a as int - 0xa000,
                        v,
                    )
                } else {
                    old(self).ram@
                }
                &&& final(self).bank == old(self).bank && final(self).bank_mode == old(self).bank_mode
                &&& final(self).ram_enable == old(self).ram_enable
            },
            a <= 0x1fff ==> final(self).ram_enable == (v & 0x0f == 0x0a) && final(self).bank == old(self).bank && final(self).bank_mode == old(self).bank_mode && final(self).ram@ == old(self).ram@,
            0x2000 <= a <= 0x3fff ==> final(self).bank == ((old(self).bank & 0x60) | low_bank_bits(v)) && final(self).bank_mode == old(self).bank_mode && final(self).ram_enable == old(self).ram_enable && final(self).ram@ == old(self).ram@,
            0x4000 <= a <= 0x5fff ==> final(self).bank == ((old(self).bank & 0x9f) | ((v & 0x03) << 5))
                && final(self).bank_mode == old(self).bank_mode && final(self).ram_enable == old(self).ram_enable && final(self).ram@ == old(self).ram@,
            0x6000 <= a <= 0x7fff ==> final(self).bank_mode == (if v & 0x01 == 0 {
                BankMode::Rom
            } else {
                BankMode::Ram
            }) && final(self).bank == old(self).bank && final(self).ram_enable == old(self).ram_enable
                && final(self).ram@ == old(self).ram@,
            (0x8000 <= a <= 0x9fff || 0xc000 <= a) ==> final(self).ram@ == old(self).ram@ && final(self).bank == old(self).bank && final(self).bank_mode == old(self).bank_mode && final(self).ram_enable == old(self).ram_enable,
    {
        if 0xa000 <= a && a <= 0xbfff {
            if self.ram_enable {
                let i = self.ram_bank() * 0x2000 + a as usize - 0xa000;
                write_at(&mut self.ram, i, v);
            }
        } else if a <= 0x1fff {
            self.ram_enable = v & 0x0f == 0x0a;
        } else if a <= 0x3fff {
            let n = v & 0x1f;
            let n = if n == 0x00 {
                0x01
            } else {
                n
            };
            self.bank = (self.bank & 0x60) | n;
        } else if a <= 0x5fff {
            let n = v & 0x03;
            self.bank = (self.bank & 0x9f) | (n << 5);
        } else if a <= 0x7fff {
            self.bank_mode = if v & 0x01 == 0 {
                BankMode::Rom
            } else {
                BankMode::Ram
            };
        }
    }

    /// The RAM bytes to persist; empty where there is no battery.
    pub fn sav(&self) -> (r: Vec<u8>)
        ensures
            r@ == if self.battery {
                self.ram@
            } else {
                Seq::<u8>::empty()
            },
    {
        if self.battery {
            self.ram.clone()
        } else {
            Vec::new()
        }
    }
}

/// The MBC2 controller: up to 256 KiB of ROM and 512 four-bit RAM cells.
pub struct Mbc2 {
    pub rom: Vec<u8>,
    pub ram: Vec<u8>,
    pub rom_bank: usize,
    pub ram_enable: bool,
    pub battery: bool,
}

impl Mbc2 {
    pub fn power_up(rom: Vec<u8>, ram: Vec<u8>, battery: bool) -> (r: Self)
        ensures
            r.rom@ == rom@ && r.ram@ == ram@ && r.rom_bank == 1 && !r.ram_enable && r.battery == battery,
    {
        Self { rom, ram, rom_bank: 1, ram_enable: false, battery }
    }

    pub open spec fn wf(&self) -> bool {
        self.rom_bank <= 0x0f
    }

    pub open spec fn peek(&self, a: u16) -> u8 {
        if a <= 0x3fff {
            byte_at(self.rom@, a as int)
        } else if a <= 0x7fff {
            byte_at(self.rom@, self.rom_bank as int * 0x4000 + a as int - 0x4000)
        } else if 0xa000 <= a <= 0xa1ff && self.ram_enable {
            byte_at(self.ram@, a as int - 0xa000)
        } else {
            0
        }
    }

    pub fn get(&self, a: u16) -> (r: u8)
        requires
            self.wf(),
        ensures
            r == self.peek(a),
    {
        if a <= 0x3fff {
            read_at(&self.rom, a as usize)
        } else if a <= 0x7fff {
            read_at(&self.rom, self.rom_bank * 0x4000 + a as usize - 0x4000)
        } else if 0xa000 <= a && a <= 0xa1ff && self.ram_enable {
            read_at(&self.ram, (a - 0xa000) as usize)
        } else {
            0
        }
    }

    /// Only the low four bits of a written value are kept. Bit 8 of the address tells a
    /// RAM-enable write (clear) from a ROM bank select (set).
    pub fn set(&mut self, a: u16, v: u8)
        requires
            old(self).wf(),
        ensures
            final(self).wf(),
            final(self).rom@ == old(self).rom@,
            final(self).battery == old(self).battery,
            0xa000 <= a <= 0xa1ff ==> final(self).ram@ == (if old(self).ram_enable {
                store_at(old(self).ram@, a as int - 0xa000, v & 0x0f)
            } else {
                old(self).ram@
            }) && final(self).rom_bank == old(self).rom_bank && final(self).ram_enable == old(self).ram_enable,
            a <= 0x1fff && a & 0x0100 == 0 ==> final(self).ram_enable == (v & 0x0f == 0x0a)
                && final(self).rom_bank == old(self).rom_bank && final(self).ram@ == old(self).ram@,
            0x2000 <= a <= 0x3fff && a & 0x0100 != 0 ==> final(self).rom_bank == (v & 0x0f) as usize
                && final(self).ram_enable == old(self).ram_enable && final(self).ram@ == old(self).ram@,
    {
        let w = v & 0x0f;
        proof { crate::bits::lemma_u8_fields(v); }
        let v = w;
        if 0xa000 <= a && a <= 0xa1ff {
            if self.ram_enable {
                write_at(&mut self.ram, (a - 0xa000) as usize, v);
            }
        } else if a <= 0x1fff {
            if a & 0x0100 == 0 {
                self.ram_enable = v == 0x0a;
            }
        } else if a <= 0x3fff {
            if a & 0x0100 != 0 {
                self.rom_bank = v as usize;
            }
        }
    }

    pub fn sav(&self) -> (r: Vec<u8>)
        ensures
            r@ == if self.battery {
                self.ram@
            } else {
                Seq::<u8>::empty()
            },
    {
        if self.battery {
            self.ram.clone()
        } else {
            Vec::new()
        }
    }
}

/// Seconds, minutes, hours and the nine-bit day counter of an elapsed time in seconds, as
/// the MBC3 clock registers hold them.
pub open spec fn rtc_seconds(d: u64) -> u8 {
    (d % 60) as u8
}

pub open spec fn rtc_minutes(d: u64) -> u8 {
    (d / 60 % 60) as u8
}

pub open spec fn rtc_hours(d: u64) -> u8 {
    (d / 3600 % 24) as u8
}

pub open spec fn rtc_days(d: u64) -> int {
    (d / 86400) as int
}

/// The MBC3 real-time clock: its five registers and the UNIX time it counts from.
pub struct RealTimeClock {
    pub s: u8,
    pub m: u8,
    pub h: u8,
    pub dl: u8,
    pub dh: u8,
    pub zero: u64,
}

impl RealTimeClock {
    pub fn power_up(zero: u64) -> (r: Self)
        ensures
            r.zero == zero && r.s == 0 && r.m == 0 && r.h == 0 && r.dl == 0 && r.dh == 0,
    {
        Self { zero, s: 0, m: 0, h: 0, dl: 0, dh: 0 }
    }

    /// The clock with the time elapsed from its anchor to `now` (UNIX seconds) latched.
    pub open spec fn ticked(self, now: u64) -> RealTimeClock {
        let d = if now >= self.zero {
            (now - self.zero) as u64
        } else {
            0u64
        };
        RealTimeClock {
            s: rtc_seconds(d),
            m: rtc_minutes(d),
            h: rtc_hours(d),
            dl: (rtc_days(d) % 256) as u8,
            dh: if rtc_days(d) <= 0xff {
                self.dh
            } else if rtc_days(d) <= 0x1ff {
                self.dh | 0x01
            } else {
                self.dh | 0x81
            },
            zero: self.zero,
        }
    }

    /// Latches the time elapsed from the anchor to `now` (UNIX seconds) into the registers.
    pub fn tic(&mut self, now: u64)
        ensures
            *final(self) == old(self).ticked(now),
            final(self).zero == old(self).zero,
            ({
                let d = if now >= old(self).zero {
                    (now - old(self).zero) as u64
                } else {
                    0u64
                };
                &&& final(self).s == rtc_seconds(d)
                &&& final(self).m == rtc_minutes(d)
                &&& final(self).h == rtc_hours(d)
                &&& final(self).dl == (rtc_days(d) % 256) as u8
                &&& final(self).dh == if rtc_days(d) <= 0xff {
                    old(self).dh
                } else if rtc_days(d) <= 0x1ff {
                    old(self).dh | 0x01
                } else {
                    old(self).dh | 0x81
                }
            }),
    {
        let d: u64 = if now >= self.zero {
            now - self.zero
        } else {
            0
        };
        self.s = (d % 60) as u8;
        self.m = (d / 60 % 60) as u8;
        self.h = (d / 3600 % 24) as u8;
        let days: u64 = d / 3600 / 24;
        assert(d / 3600 / 24 == d / 86400) by (nonlinear_arith);
        self.dl = (days % 256) as u8;
        if days <= 0xff {
        } else if days <= 0x1ff {
            self.dh = self.dh | 0x01;
        } else {
            let x = self.dh;
            self.dh = self.dh | 0x01;
            self.dh = self.dh | 0x80;
            assert((x | 0x01) | 0x80 == x | 0x81) by (bit_vector);
        }
    }

    pub open spec fn peek(&self, a: u16) -> u8 {
        if a == 0x08 {
            self.s
        } else if a == 0x09 {
            self.m
        } else if a == 0x0a {
            self.h
        } else if a == 0x0b {
            self.dl
        } else if a == 0x0c {
            self.dh
        } else {
            0
        }
    }

    /// Reads register 0x08..=0x0c; other selectors read 0.
    pub fn get(&self, a: u16) -> (r: u8)
        ensures
            r == self.peek(a),
    {
        if a == 0x08 {
            self.s
        } else if a == 0x09 {
            self.m
        } else if a == 0x0a {
            self.h
        } else if a == 0x0b {
            self.dl
        } else if a == 0x0c {
            self.dh
        } else {
            0
        }
    }

    /// Writes register 0x08..=0x0c; other selectors are ignored.
    pub fn set(&mut self, a: u16, v: u8)
        ensures
            final(self).zero == old(self).zero,
            final(self).peek(a) == if 0x08 <= a <= 0x0c {
                v
            } else {
                0
            },
            forall|b: u16| b != a ==> final(self).peek(b) == old(self).peek(b),
    {
        if a == 0x08 {
            self.s = v;
        } else if a == 0x09 {
            self.m = v;
        } else if a == 0x0a {
            self.h = v;
        } else if a == 0x0b {
            self.dl = v;
        } else if a == 0x0c {
            self.dh = v;
        }
    }

    /// The anchor as eight big-endian bytes.
    pub fn sav(&self) -> (r: Vec<u8>)
        ensures
            r@.len() == 8,
            forall|i: int| 0 <= i < 8 ==> r@[i] == ((self.zero >> (56 - 8 * i) as u64) & 0xff) as u8,
    {
        let mut r: Vec<u8> = Vec::new();
        let mut i: u64 = 0;
        while i < 8
            invariant
                i <= 8,
                r@.len() == i,
                forall|j: int| 0 <= j < i ==> r@[j] == ((self.zero >> (56 - 8 * j) as u64) & 0xff) as u8,
            decreases 8 - i,
        {
            r.push(((self.zero >> (56 - 8 * i)) & 0xff) as u8);
            i = i + 1;
        }
        r
    }
}

/// The anchor that eight big-endian bytes hold.
pub open spec fn be_u64(b: Seq<u8>) -> u64
    recommends
        b.len() == 8,
{
    ((b[0] as u64) << 56u64) | ((b[1] as u64) << 48u64) | ((b[2] as u64) << 40u64) | ((b[3] as u64) << 32u64)
        | ((b[4] as u64) << 24u64) | ((b[5] as u64) << 16u64) | ((b[6] as u64) << 8u64) | (b[7] as u64)
}

/// The clock anchor to start from: the saved one where eight bytes were saved, else `now`.
pub fn rtc_anchor(saved: Option<Vec<u8>>, now: u64) -> (r: u64)
    ensures
        r == match saved {
            Some(b) => if b@.len() == 8 {
                be_u64(b@)
            } else {
                now
            },
            None => now,
        },
{
    match saved {
        Some(b) => {
            if b.len() == 8 {
                ((b[0] as u64) << 56u64) | ((b[1] as u64) << 48u64) | ((b[2] as u64) << 40u64) | ((
                b[3] as u64) << 32u64) | ((b[4] as u64) << 24u64) | ((b[5] as u64) << 16u64) | ((b[6] as u64)
                    << 8u64) | (b[7] as u64)
            } else {
                now
            }
        },
        None => now,
    }
}

/// Relies on `std::time::SystemTime::elapsed` (of the UNIX epoch): the current UNIX time in
/// whole seconds, 0 if the system clock is set before 1970. Nothing is promised of its value.
#[verifier::external_body]
fn unix_now() -> (r: u64) {
    std::time::UNIX_EPOCH.elapsed().map(|d| d.as_secs()).unwrap_or(0)
}

/// The MBC3 controller: up to 2 MiB of ROM, 32 KiB of RAM and a real-time clock.
pub struct Mbc3 {
    pub rom: Vec<u8>,
    pub ram: Vec<u8>,
    pub rtc: RealTimeClock,
    pub rom_bank: usize,
    pub ram_bank: usize,
    pub ram_enable: bool,
    pub battery: bool,
}

impl Mbc3 {
    pub fn power_up(rom: Vec<u8>, ram: Vec<u8>, battery: bool, rtc_zero: u64) -> (r: Self)
        ensures
            r.rom@ == rom@ && r.ram@ == ram@ && r.rom_bank == 1 && r.ram_bank == 0 && !r.ram_enable,
            r.battery == battery && r.rtc.zero == rtc_zero,
            r.rtc == (RealTimeClock { s: 0, m: 0, h: 0, dl: 0, dh: 0, zero: rtc_zero }),
            r.wf(),
    {
        Self {
            rom,
            ram,
            rtc: RealTimeClock::power_up(rtc_zero),
            rom_bank: 1,
            ram_bank: 0,
            ram_enable: false,
            battery,
        }
    }

    pub open spec fn wf(&self) -> bool {
        self.rom_bank <= 0x7f && self.ram_bank <= 0x0f
    }

    pub open spec fn peek(&self, a: u16) -> u8 {
        if a <= 0x3fff {
            byte_at(self.rom@, a as int)
        } else if a <= 0x7fff {
            byte_at(self.rom@, self.rom_bank as int * 0x4000 + a as int - 0x4000)
        } else if 0xa000 <= a <= 0xbfff && self.ram_enable {
            if self.ram_bank <= 0x03 {
                byte_at(self.ram@, self.ram_bank as int * 0x2000 + a as int - 0xa000)
            } else {
                self.rtc.peek(self.ram_bank as u16)
            }
        } else {
            0
        }
    }

    pub fn get(&self, a: u16) -> (r: u8)
        requires
            self.wf(),
        ensures
            r == self.peek(a),
    {
        if a <= 0x3fff {
            read_at(&self.rom, a as usize)
        } else if a <= 0x7fff {
            read_at(&self.rom, self.rom_bank * 0x4000 + a as usize - 0x4000)
        } else if 0xa000 <= a && a <= 0xbfff && self.ram_enable {
            if self.ram_bank <= 0x03 {
                read_at(&self.ram, self.ram_bank * 0x2000 + a as usize - 0xa000)
            } else {
                self.rtc.get(self.ram_bank as u16)
            }
        } else {
            0
        }
    }

    /// Writes to RAM or a clock register, or to the control registers. A write with bit 0 set
    /// to 0x6000..=0x7fff latches the current time into the clock.
    pub fn set(&mut self, a: u16, v: u8)
        requires
            old(self).wf(),
        ensures
            final(self).wf(),
            final(self).rom@ == old(self).rom@,
            final(self).battery == old(self).battery,
            final(self).rtc.zero == old(self).rtc.zero,
            0xa000 <= a <= 0xbfff && old(self).ram_enable && old(self).ram_bank <= 3 ==> final(self).ram@
                == store_at(old(self).ram@, old(self).ram_bank as int * 0x2000 + a as int - 0xa000, v),
            a <= 0x1fff ==> final(self).ram_enable == (v & 0x0f == 0x0a) && final(self).rom_bank == old(
                self).rom_bank && final(self).ram_bank == old(self).ram_bank,
            0x2000 <= a <= 0x3fff ==> final(self).rom_bank == (if v & 0x7f == 0 {
                1
            } else {
                (v & 0x7f) as usize
            }) && final(self).ram_bank == old(self).ram_bank && final(self).ram_enable == old(self).ram_enable,
            0x4000 <= a <= 0x5fff ==> final(self).ram_bank == (v & 0x0f) as usize && final(self).rom_bank == old(
                self).rom_bank && final(self).ram_enable == old(self).ram_enable,
            !(0xa000 <= a <= 0xbfff) ==> final(self).ram@ == old(self).ram@,
            0x6000 <= a <= 0x7fff ==> final(self).rom_bank == old(self).rom_bank && final(self).ram_bank == old(
                self).ram_bank && final(self).ram_enable == old(self).ram_enable,
            0x6000 <= a <= 0x7fff && v & 0x01 != 0 ==> (exists|now: u64| final(self).rtc == old(self).rtc.ticked(now)),
            !(0x6000 <= a <= 0x7fff && v & 0x01 != 0) && !(0xa000 <= a <= 0xbfff && old(self).ram_enable
                && old(self).ram_bank > 3) ==> final(self).rtc == old(self).rtc,
            0xa000 <= a <= 0xbfff && old(self).ram_enable && old(self).ram_bank > 3 ==> final(self).rtc.peek(
                old(self).ram_bank as u16,
            ) == (if 0x08 <= old(self).ram_bank <= 0x0c { v } else { 0 }),
    {
        if 0xa000 <= a && a <= 0xbfff {
            if self.ram_enable {
                if self.ram_bank <= 0x03 {
                    let i = self.ram_bank * 0x2000 + a as usize - 0xa000;
                    write_at(&mut self.ram, i, v);
                } else {
                    self.rtc.set(self.ram_bank as u16, v);
                }
            }
        } else if a <= 0x1fff {
            self.ram_enable = v & 0x0f == 0x0a;
        } else if a <= 0x3fff {
            let n = v & 0x7f;
            proof { crate::bits::lemma_u8_fields(v); }
            self.rom_bank = if n == 0 {
                1
            } else {
                n as usize
            };
        } else if a <= 0x5fff {
            let n = v & 0x0f;
            proof { crate::bits::lemma_u8_fields(v); }
            self.ram_bank = n as usize;
        } else if a <= 0x7fff {
            if v & 0x01 != 0 {
                let now = unix_now();
                self.rtc.tic(now);
            }
        }
    }

    pub fn sav(&self) -> (r: Vec<u8>)
        ensures
            r@ == if self.battery {
                self.ram@
            } else {
                Seq::<u8>::empty()
            },
    {
        if self.battery {
            self.ram.clone()
        } else {
            Vec::new()
        }
    }
}

/// The MBC5 controller: up to 8 MiB of ROM (nine-bit bank) and 128 KiB of RAM.
pub struct Mbc5 {
    pub rom: Vec<u8>,
    pub ram: Vec<u8>,
    pub rom_bank: usize,
    pub ram_bank: usize,
    pub ram_enable: bool,
    pub battery: bool,
}

impl Mbc5 {
    pub fn power_up(rom: Vec<u8>, ram: Vec<u8>, battery: bool) -> (r: Self)
        ensures
            r.rom@ == rom@ && r.ram@ == ram@ && r.rom_bank == 1 && r.ram_bank == 0 && !r.ram_enable,
            r.battery == battery,
            r.wf(),
    {
        Self { rom, ram, rom_bank: 1, ram_bank: 0, ram_enable: false, battery }
    }

    pub open spec fn wf(&self) -> bool {
        self.rom_bank <= 0x1ff && self.ram_bank <= 0x0f
    }

    pub open spec fn peek(&self, a: u16) -> u8 {
        if a <= 0x3fff {
            byte_at(self.rom@, a as int)
        } else if a <= 0x7fff {
            byte_at(self.rom@, self.rom_bank as int * 0x4000 + a as int - 0x4000)
        } else if 0xa000 <= a <= 0xbfff && self.ram_enable {
            byte_at(self.ram@, self.ram_bank as int * 0x2000 + a as int - 0xa000)
        } else {
            0
        }
    }

    pub fn get(&self, a: u16) -> (r: u8)
        requires
            self.wf(),
        ensures
            r == self.peek(a),
    {
        if a <= 0x3fff {
            read_at(&self.rom, a as usize)
        } else if a <= 0x7fff {
            read_at(&self.rom, self.rom_bank * 0x4000 + a as usize - 0x4000)
        } else if 0xa000 <= a && a <= 0xbfff && self.ram_enable {
            read_at(&self.ram, self.ram_bank * 0x2000 + a as usize - 0xa000)
        } else {
            0
        }
    }

    /// 0x2000..=0x2fff writes the low eight ROM bank bits, 0x3000..=0x3fff the ninth.
    pub fn set(&mut self, a: u16, v: u8)
        requires
            old(self).wf(),
        ensures
            final(self).wf(),
            final(self).rom@ == old(self).rom@,
            final(self).battery == old(self).battery,
            0xa000 <= a <= 0xbfff ==> final(self).ram@ == (if old(self).ram_enable {
                store_at(old(self).ram@, old(self).ram_bank as int * 0x2000 + a as int - 0xa000, v)
            } else {
                old(self).ram@
            }),
            !(0xa000 <= a <= 0xbfff) ==> final(self).ram@ == old(self).ram@,
            a <= 0x1fff ==> final(self).ram_enable == (v & 0x0f == 0x0a),
            0x2000 <= a <= 0x2fff ==> final(self).rom_bank == (old(self).rom_bank & 0x100) | (v as usize),
            0x3000 <= a <= 0x3fff ==> final(self).rom_bank == (old(self).rom_bank & 0x0ff) | (((v & 0x01)
                as usize) << 8),
            0x4000 <= a <= 0x5fff ==> final(self).ram_bank == (v & 0x0f) as usize,
            !(0x2000 <= a <= 0x3fff) ==> final(self).rom_bank == old(self).rom_bank,
            !(0x4000 <= a <= 0x5fff) ==> final(self).ram_bank == old(self).ram_bank,
            !(a <= 0x1fff) ==> final(self).ram_enable == old(self).ram_enable,
    {
        if 0xa000 <= a && a <= 0xbfff {
            if self.ram_enable {
                let i = self.ram_bank * 0x2000 + a as usize - 0xa000;
                write_at(&mut self.ram, i, v);
            }
        } else if a <= 0x1fff {
            self.ram_enable = v & 0x0f == 0x0a;
        } else if a <= 0x2fff {
            let b = self.rom_bank;
            assert((b & 0x100) | (v as usize) <= 0x1ff) by (bit_vector);
            self.rom_bank = (b & 0x100) | (v as usize);
        } else if a <= 0x3fff {
            let b = self.rom_bank;
            assert((b & 0x0ff) | (((v & 0x01) as usize) << 8) <= 0x1ff) by (bit_vector);
            self.rom_bank = (b & 0x0ff) | (((v & 0x01) as usize) << 8);
        } else if a <= 0x5fff {
            let n = v & 0x0f;
            proof { crate::bits::lemma_u8_fields(v); }
            self.ram_bank = n as usize;
        }
    }

    pub fn sav(&self) -> (r: Vec<u8>)
        ensures
            r@ == if self.battery {
                self.ram@
            } else {
                Seq::<u8>::empty()
            },
    {
        if self.battery {
            self.ram.clone()
        } else {
            Vec::new()
        }
    }
}

/// The HuC1 controller, handled as an MBC1.
pub struct HuC1 {
    pub cart: Mbc1,
}

impl HuC1 {
    pub fn power_up(rom: Vec<u8>, ram: Vec<u8>, battery: bool) -> (r: Self)
        ensures
            r.cart.rom@ == rom@ && r.cart.ram@ == ram@ && r.cart.bank == 1 && r.cart.bank_mode == BankMode::Rom
                && !r.cart.ram_enable && r.cart.battery == battery,
    {
        Self { cart: Mbc1::power_up(rom, ram, battery) }
    }
}

/// A loaded cartridge, by bank controller.
pub enum Cartridge {
    RomOnly(RomOnly),
    Mbc1(Mbc1),
    Mbc2(Mbc2),
    Mbc3(Mbc3),
    Mbc5(Mbc5),
    HuC1(HuC1),
}

/// Why a ROM image was refused.
#[derive(Clone, Copy, Debug, PartialEq, Eq, Structural)]
pub enum CartridgeError {
    BadLogo,
    BadChecksum,
    UnsupportedType(u8),
    UnsupportedRomSize(u8),
    UnsupportedRamSize(u8),
    TruncatedHeader,
}

/// The logo that every valid header holds at 0x0104..=0x0133.
pub open spec fn logo() -> Seq<u8> {
    seq![
        0xCEu8, 0xED, 0x66, 0x66, 0xCC, 0x0D, 0x00, 0x0B, 0x03, 0x73, 0x00, 0x83, 0x00, 0x0C, 0x00, 0x0D, 0x00,
        0x08, 0x11, 0x1F, 0x88, 0x89, 0x00, 0x0E, 0xDC, 0xCC, 0x6E, 0xE6, 0xDD, 0xDD, 0xD9, 0x99, 0xBB, 0xBB,
        0x67, 0x63, 0x6E, 0x0E, 0xEC, 0xCC, 0xDD, 0xDC, 0x99, 0x9F, 0xBB, 0xB9, 0x33, 0x3E,
    ]
}

fn logo_table() -> (r: Vec<u8>)
    ensures
        r@ == logo(),
{
    let r: Vec<u8> = vec![
        0xCE, 0xED, 0x66, 0x66, 0xCC, 0x0D, 0x00, 0x0B, 0x03, 0x73, 0x00, 0x83, 0x00, 0x0C, 0x00, 0x0D, 0x00,
        0x08, 0x11, 0x1F, 0x88, 0x89, 0x00, 0x0E, 0xDC, 0xCC, 0x6E, 0xE6, 0xDD, 0xDD, 0xD9, 0x99, 0xBB, 0xBB,
        0x67, 0x63, 0x6E, 0x0E, 0xEC, 0xCC, 0xDD, 0xDC, 0x99, 0x9F, 0xBB, 0xB9, 0x33, 0x3E,
    ];
    assert(r@ =~= logo());
    r
}

/// Whether `rom` holds the logo at 0x0104.
pub open spec fn logo_ok(rom: Seq<u8>) -> bool {
    forall|i: int| 0 <= i < 48 ==> byte_at(rom, 0x0104 + i) == logo()[i]
}

/// The header checksum over 0x0134..0x0134 + n: each byte is subtracted, and one more.
pub open spec fn header_sum(rom: Seq<u8>, n: nat) -> u8
    decreases n,
{
    if n == 0 {
        0
    } else {
        ((header_sum(rom, (n - 1) as nat) as int - byte_at(rom, 0x0134 + n - 1) as int - 1) % 256) as u8
    }
}

/// Whether the checksum at 0x014d matches the header.
pub open spec fn checksum_ok(rom: Seq<u8>) -> bool {
    byte_at(rom, 0x014d) == header_sum(rom, 0x19)
}

pub fn ensure_logo(rom: &Vec<u8>) -> (r: bool)
    ensures
        r == logo_ok(rom@),
{
    let table = logo_table();
    let mut i: usize = 0;
    while i < 48
        invariant
            i <= 48,
            table@ == logo(),
            forall|j: int| 0 <= j < i ==> byte_at(rom@, 0x0104 + j) == logo()[j],
        decreases 48 - i,
    {
        if read_at(rom, 0x0104 + i) != table[i] {
            return false;
        }
        i = i + 1;
    }
    true
}

pub fn ensure_header_checksum(rom: &Vec<u8>) -> (r: bool)
    ensures
        r == checksum_ok(rom@),
{
    let mut v: u8 = 0;
    let mut i: usize = 0;
    while i < 0x19
        invariant
            i <= 0x19,
            v == header_sum(rom@, i as nat),
        decreases 0x19 - i,
    {
        let b = read_at(rom, 0x0134 + i);
        v = v.wrapping_sub(b).wrapping_sub(1);
        i = i + 1;
    }
    read_at(rom, 0x014d) == v
}

/// ROM size in bytes for the header code at 0x0148: 2 << n banks of 16 KiB for n in 0..=8,
/// and 72, 80 or 96 banks for the codes 0x52..=0x54.
pub open spec fn rom_size_of(b: u8) -> Option<usize> {
    if b <= 8 {
        Some((0x8000usize << b) as usize)
    } else if b == 0x52 {
        Some(0x12_0000usize)
    } else if b == 0x53 {
        Some(0x14_0000usize)
    } else if b == 0x54 {
        Some(0x18_0000usize)
    } else {
        None
    }
}

pub fn rom_size(b: u8) -> (r: Option<usize>)
    ensures
        r == rom_size_of(b),
{
    let bank: usize = 16384;
    if b <= 8 {
        Some((bank * 2) << b)
    } else if b == 0x52 {
        Some(bank * 72)
    } else if b == 0x53 {
        Some(bank * 80)
    } else if b == 0x54 {
        Some(bank * 96)
    } else {
        None
    }
}

/// RAM size in bytes for the header code at 0x0149.
pub open spec fn ram_size_of(b: u8) -> Option<usize> {
    if b == 0 {
        Some(0)
    } else if b == 1 {
        Some(2048)
    } else if b == 2 {
        Some(8192)
    } else if b == 3 {
        Some(32768)
    } else if b == 4 {
        Some(131072)
    } else if b == 5 {
        Some(65536)
    } else {
        None
    }
}

pub fn ram_size(b: u8) -> (r: Option<usize>)
    ensures
        r == ram_size_of(b),
{
    if b == 0 {
        Some(0)
    } else if b == 1 {
        Some(1024 * 2)
    } else if b == 2 {
        Some(1024 * 8)
    } else if b == 3 {
        Some(1024 * 32)
    } else if b == 4 {
        Some(1024 * 128)
    } else if b == 5 {
        Some(1024 * 64)
    } else {
        None
    }
}

/// Whether the controller type at 0x0147 is one this emulator runs.
pub open spec fn supported_type(t: u8) -> bool {
    t == 0x00 || (0x01 <= t <= 0x03) || t == 0x05 || t == 0x06 || (0x0f <= t <= 0x13) || (0x19 <= t <= 0x1e)
        || t == 0xff
}

/// Whether the controller type has external RAM sized by the header.
pub open spec fn sized_ram_type(t: u8) -> bool {
    t == 0x02 || t == 0x03 || t == 0x10 || t == 0x12 || t == 0x13 || t == 0x1a || t == 0x1b || t == 0x1d
        || t == 0x1e || t == 0xff
}

/// The error a ROM image gets, in the order the checks run, or None for a valid one.
pub open spec fn load_error(rom: Seq<u8>) -> Option<CartridgeError> {
    if rom.len() < 0x150 {
        Some(CartridgeError::TruncatedHeader)
    } else if rom_size_of(rom[0x0148]).is_none() {
        Some(CartridgeError::UnsupportedRomSize(rom[0x0148]))
    } else if !supported_type(rom[0x0147]) {
        Some(CartridgeError::UnsupportedType(rom[0x0147]))
    } else if sized_ram_type(rom[0x0147]) && ram_size_of(rom[0x0149]).is_none() {
        Some(CartridgeError::UnsupportedRamSize(rom[0x0149]))
    } else if !logo_ok(rom) {
        Some(CartridgeError::BadLogo)
    } else if !checksum_ok(rom) {
        Some(CartridgeError::BadChecksum)
    } else {
        None
    }
}

/// The RAM a cartridge starts with: the saved bytes for a battery-backed one where there are
/// some, else `size` zero bytes.
fn initial_ram(battery: bool, saved: Option<Vec<u8>>, size: usize) -> (r: Vec<u8>)
    ensures
        battery && saved.is_some() ==> r@ == saved.unwrap()@,
        !(battery && saved.is_some()) ==> r@ == Seq::new(size as nat, |i: int| 0u8),
{
    match saved {
        Some(b) => {
            if battery {
                return b;
            }
        },
        None => {},
    }
    let mut r: Vec<u8> = Vec::new();
    let mut i: usize = 0;
    while i < size
        invariant
            i <= size,
            r@ == Seq::new(i as nat, |j: int| 0u8),
        decreases size - i,
    {
        r.push(0);
        i = i + 1;
        assert(r@ =~= Seq::new(i as nat, |j: int| 0u8));
    }
    r
}

impl Cartridge {
    pub open spec fn rom_of(&self) -> Seq<u8> {
        match self {
            Cartridge::RomOnly(c) => c.rom@,
            Cartridge::Mbc1(c) => c.rom@,
            Cartridge::Mbc2(c) => c.rom@,
            Cartridge::Mbc3(c) => c.rom@,
            Cartridge::Mbc5(c) => c.rom@,
            Cartridge::HuC1(c) => c.cart.rom@,
        }
    }

    pub open spec fn wf(&self) -> bool {
        match self {
            Cartridge::Mbc2(c) => c.wf(),
            Cartridge::Mbc3(c) => c.wf(),
            Cartridge::Mbc5(c) => c.wf(),
            _ => true,
        }
    }

    pub open spec fn peek(&self, a: u16) -> u8 {
        match self {
            Cartridge::RomOnly(c) => c.peek(a),
            Cartridge::Mbc1(c) => c.peek(a),
            Cartridge::Mbc2(c) => c.peek(a),
            Cartridge::Mbc3(c) => c.peek(a),
            Cartridge::Mbc5(c) => c.peek(a),
            Cartridge::HuC1(c) => c.cart.peek(a),
        }
    }

    /// Reads a byte of 0x0000..=0x7fff or 0xa000..=0xbfff through the controller.
    pub fn get(&self, a: u16) -> (r: u8)
        requires
            self.wf(),
        ensures
            r == self.peek(a),
    {
        match self {
            Cartridge::RomOnly(c) => c.get(a),
            Cartridge::Mbc1(c) => c.get(a),
            Cartridge::Mbc2(c) => c.get(a),
            Cartridge::Mbc3(c) => c.get(a),
            Cartridge::Mbc5(c) => c.get(a),
            Cartridge::HuC1(c) => c.cart.get(a),
        }
    }

    /// Writes through the controller; the ROM itself never changes.
    pub fn set(&mut self, a: u16, v: u8)
        requires
            old(self).wf(),
        ensures
            final(self).wf(),
            final(self).rom_of() == old(self).rom_of(),
            a <= 0x3fff ==> forall|b: u16| b <= 0x3fff ==> final(self).peek(b) == old(self).peek(b),
    {
        match self {
            Cartridge::RomOnly(_) => {},
            Cartridge::Mbc1(c) => c.set(a, v),
            Cartridge::Mbc2(c) => c.set(a, v),
            Cartridge::Mbc3(c) => c.set(a, v),
            Cartridge::Mbc5(c) => c.set(a, v),
            Cartridge::HuC1(c) => c.cart.set(a, v),
        }
    }

    /// The RAM a battery keeps, or nothing for a cartridge without one.
    pub open spec fn kept_ram(&self) -> Seq<u8> {
        match self {
            Cartridge::RomOnly(_) => Seq::empty(),
            Cartridge::Mbc1(c) => if c.battery { c.ram@ } else { Seq::empty() },
            Cartridge::Mbc2(c) => if c.battery { c.ram@ } else { Seq::empty() },
            Cartridge::Mbc3(c) => if c.battery { c.ram@ } else { Seq::empty() },
            Cartridge::Mbc5(c) => if c.battery { c.ram@ } else { Seq::empty() },
            Cartridge::HuC1(c) => if c.cart.battery { c.cart.ram@ } else { Seq::empty() },
        }
    }

    /// The bytes to persist for battery-backed RAM; empty where there is no battery.
    pub fn sav(&self) -> (r: Vec<u8>)
        ensures
            r@ == self.kept_ram(),
    {
        match self {
            Cartridge::RomOnly(_) => Vec::new(),
            Cartridge::Mbc1(c) => c.sav(),
            Cartridge::Mbc2(c) => c.sav(),
            Cartridge::Mbc3(c) => c.sav(),
            Cartridge::Mbc5(c) => c.sav(),
            Cartridge::HuC1(c) => c.cart.sav(),
        }
    }

    /// The clock anchor to persist, for an MBC3 with a battery.
    pub fn rtc_sav(&self) -> (r: Option<Vec<u8>>)
        ensures
            r.is_some() <==> (self is Mbc3 && self->Mbc3_0.battery),
    {
        match self {
            Cartridge::Mbc3(c) => {
                if c.battery {
                    Some(c.rtc.sav())
                } else {
                    None
                }
            },
            _ => None,
        }
    }

    /// The title bytes: from 0x0134 up to the first zero, ending before 0x013e on a CGB
    /// cartridge (0x0143 holds 0x80) and before 0x0143 otherwise.
    pub fn title(&self) -> (r: Vec<u8>)
        requires
            self.wf(),
        ensures
            ({
                let end: int = if self.peek(0x0143) == 0x80 {
                    0x013e
                } else {
                    0x0143
                };
                &&& r@.len() <= end - 0x0134
                &&& forall|i: int| 0 <= i < r@.len() ==> r@[i] == self.peek((0x0134 + i) as u16) && r@[i] != 0
                &&& (0x0134 + r@.len() < end ==> self.peek((0x0134 + r@.len()) as u16) == 0)
            }),
    {
        let mut buf: Vec<u8> = Vec::new();
        let oc: u16 = if self.get(0x0143) == 0x80 {
            0x013e
        } else {
            0x0143
        };
        let mut i: u16 = 0x0134;
        while i < oc
            invariant
                self.wf(),
                0x0134 <= i <= oc,
                oc == 0x013e || oc == 0x0143,
                oc == (if self.peek(0x0143) == 0x80 { 0x013eu16 } else { 0x0143u16 }),
                buf@.len() == i - 0x0134,
                forall|j: int| 0 <= j < buf@.len() ==> buf@[j] == self.peek((0x0134 + j) as u16) && buf@[j] != 0,
            decreases oc - i,
        {
            let v = self.get(i);
            if v == 0 {
                return buf;
            }
            buf.push(v);
            i = i + 1;
        }
        buf
    }
}

/// Builds the cartridge a ROM image describes. `saved` is the persisted RAM, used by
/// battery-backed controllers; `rtc_zero` anchors an MBC3 clock.
pub fn power_up(rom: Vec<u8>, saved: Option<Vec<u8>>, rtc_zero: u64) -> (r: Result<Cartridge, CartridgeError>)
    ensures
        match r {
            Ok(c) => load_error(rom@).is_none() && c.rom_of() == rom@ && c.wf(),
            Err(e) => load_error(rom@) == Some(e),
        },
        (r is Ok) ==> {
            let t = rom@[0x0147];
            &&& t == 0x00 ==> (r->Ok_0 is RomOnly)
            &&& 0x01 <= t <= 0x03 ==> (r->Ok_0 is Mbc1)
            &&& (t == 0x05 || t == 0x06) ==> (r->Ok_0 is Mbc2)
            &&& 0x0f <= t <= 0x13 ==> (r->Ok_0 is Mbc3)
            &&& 0x19 <= t <= 0x1e ==> (r->Ok_0 is Mbc5)
            &&& t == 0xff ==> (r->Ok_0 is HuC1)
        },
{
    if rom.len() < 0x150 {
        return Err(CartridgeError::TruncatedHeader);
    }
    let size_code = rom[0x0148];
    if rom_size(size_code).is_none() {
        return Err(CartridgeError::UnsupportedRomSize(size_code));
    }
    let t = rom[0x0147];
    if !(t == 0x00 || (0x01 <= t && t <= 0x03) || t == 0x05 || t == 0x06 || (0x0f <= t && t <= 0x13) || (0x19
        <= t && t <= 0x1e) || t == 0xff) {
        return Err(CartridgeError::UnsupportedType(t));
    }
    let sized = t == 0x02 || t == 0x03 || t == 0x10 || t == 0x12 || t == 0x13 || t == 0x1a || t == 0x1b || t
        == 0x1d || t == 0x1e || t == 0xff;
    let battery = t == 0x03 || t == 0x06 || t == 0x0f || t == 0x10 || t == 0x13 || t == 0x1b || t == 0x1e
        || t == 0xff;
    let ram_code = rom[0x0149];
    let ram_len: usize = if sized {
        match ram_size(ram_code) {
            Some(n) => n,
            None => {
                return Err(CartridgeError::UnsupportedRamSize(ram_code));
            },
        }
    } else if t == 0x05 || t == 0x06 {
        512
    } else {
        0
    };
    if !ensure_logo(&rom) {
        return Err(CartridgeError::BadLogo);
    }
    if !ensure_header_checksum(&rom) {
        return Err(CartridgeError::BadChecksum);
    }
    let ram = initial_ram(battery, saved, ram_len);
    let cart = if t == 0x00 {
        Cartridge::RomOnly(RomOnly::power_up(rom))
    } else if t <= 0x03 {
        Cartridge::Mbc1(Mbc1::power_up(rom, ram, battery))
    } else if t <= 0x06 {
        Cartridge::Mbc2(Mbc2::power_up(rom, ram, battery))
    } else if t <= 0x13 {
        Cartridge::Mbc3(Mbc3::power_up(rom, ram, battery, rtc_zero))
    } else if t <= 0x1e {
        Cartridge::Mbc5(Mbc5::power_up(rom, ram, battery))
    } else {
        Cartridge::HuC1(HuC1::power_up(rom, ram, battery))
    };
    Ok(cart)
}


/// Writing 0 to 0x2000..=0x3fff selects ROM bank 1, not 0; in ROM mode the two bits written to
/// 0x4000..=0x5fff become bits 5-6 of the ROM bank while the RAM bank stays 0.
pub proof fn lemma_mbc1_banking(m: Mbc1, v: u8)
    ensures
        ((m.bank & 0x60) | low_bank_bits(0)) & 0x1f == 1,
        m.bank_mode == BankMode::Rom ==> (Mbc1 { bank: (m.bank & 0x9f) | ((v & 0x03) << 5u8), ..m }).rom_bank_of()
            == ((m.bank & 0x1f) | ((v & 0x03) << 5u8)) && (Mbc1 { bank: (m.bank & 0x9f) | ((v & 0x03) << 5u8), ..m }).ram_bank_of()
            == 0,
{
    let b = m.bank;
    crate::bits::lemma_constants();
    assert(((b & 0x60) | 1u8) & 0x1f == 1) by (bit_vector);
    assert(((b & 0x9f) | ((v & 0x03) << 5u8)) & 0x7f == ((b & 0x1f) | ((v & 0x03) << 5u8))) by (bit_vector);
}

} // verus!
