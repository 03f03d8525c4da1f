use crate::apu::{Apu, Register};
use crate::cartridge::{byte_at, read_at, store_at, write_at, Cartridge};
use crate::convention::Term;
use crate::gpu::{Gpu, Hdma, HdmaMode};
use crate::intf::Intf;
use crate::joypad::{joypad_read, Joypad};
use crate::serial::Serial;
use crate::timer::{tima_after, Timer};
use vstd::prelude::*;

verus! {

/// The CPU speed: CGB double speed halves the PPU and APU clocks relative to the CPU.
#[derive(Clone, Copy, Debug, PartialEq, Eq, Structural)]
pub enum Speed {
    Normal,
    Double,
}

pub open spec fn speed_factor(s: Speed) -> u32 {
    match s {
        Speed::Normal => 1,
        Speed::Double => 2,
    }
}

/// The LCD registers that read back as written: SCY, SCX, LYC, OBP0, OBP1, WY, WX.
pub open spec fn lcd_regs(a: u16) -> bool {
    a == 0xff42 || a == 0xff43 || a == 0xff45 || a == 0xff48 || a == 0xff49 || a == 0xff4a || a == 0xff4b
}

/// The value of LCD register `a` (one of `lcd_regs`).
pub open spec fn lcd_reg(g: Gpu, a: u16) -> u8 {
    if a == 0xff42 {
        g.sy
    } else if a == 0xff43 {
        g.sx
    } else if a == 0xff45 {
        g.lc
    } else if a == 0xff48 {
        g.op0
    } else if a == 0xff49 {
        g.op1
    } else if a == 0xff4a {
        g.wy
    } else {
        g.wx
    }
}

/// Addresses that behave as plain RAM: work RAM (bank 0 and the selected bank) and high RAM.
pub open spec fn stack_ram(a: u16) -> bool {
    (0xc000 <= a <= 0xdfff) || (0xff80 <= a <= 0xfffe)
}

/// The bus `m1` after advancing `m0` by a CPU step of `cycles` clocks, `r` being the PPU cycles.
pub open spec fn advanced(m0: Mmunit, m1: Mmunit, cycles: u32, r: u32) -> bool {
    let sf = speed_factor(m0.speed);
    let stall = r as int - cycles as int / sf as int;
    let cpu_cycles = cycles as int + stall * sf as int;
    &&& m1.term == m0.term && m1.speed == m0.speed && m1.inte == m0.inte
    &&& !m0.hdma.active ==> r == cycles / sf
    &&& m0.hdma.active && m0.hdma.mode == HdmaMode::Gdma ==> r == cycles / sf + (m0.hdma.remain as int + 1) * 8
        && !m1.hdma.active
    &&& m0.hdma.active && m0.hdma.mode == HdmaMode::Hdma ==> r == cycles / sf + if m0.gpu.h_blank { 8int } else { 0int }
    &&& m1.timer.div == (m0.timer.div as int + (m0.timer.div_clock.n as int + cpu_cycles) / 256) % 256
    &&& m0.timer.tac & 0x04 != 0 ==> m1.timer.tima == tima_after(
        m0.timer.tima,
        m0.timer.tma,
        ((m0.timer.tma_clock.n as int + cpu_cycles) / (m0.timer.tma_clock.period as int)) as nat,
    )
    &&& m0.apu.powered() ==> m1.apu.fs.step as int == (m0.apu.fs.step as int + (m0.apu.timer.n as int + r as int) / 8192)
        % 8
    &&& m1.apu.reg == m0.apu.reg
    &&& m0.gpu.lcdc.bit(7) ==> m1.gpu.dots as int == (m0.gpu.dots as int + r as int) % 456 && m1.gpu.ly as int == (
    m0.gpu.ly as int + (m0.gpu.dots as int + r as int) / 456) % 154
}

/// The memory bus: decodes every address to its device and owns work RAM, high RAM, IE and IF.
pub struct Mmunit {
    pub cartridge: Cartridge,
    pub apu: Apu,
    pub gpu: Gpu,
    pub joypad: Joypad,
    pub serial: Serial,
    pub shift: bool,
    pub speed: Speed,
    pub term: Term,
    pub timer: Timer,
    pub inte: u8,
    pub intf: Intf,
    pub hdma: Hdma,
    pub hram: Vec<u8>,
    pub wram: Vec<u8>,
    pub wram_bank: usize,
}

impl Mmunit {
    pub open spec fn wf(&self) -> bool {
        &&& self.cartridge.wf()
        &&& self.apu.wf()
        &&& self.gpu.wf()
        &&& self.timer.wf()
        &&& self.hdma.wf()
        &&& self.hram@.len() == 0x7f
        &&& self.wram@.len() == 0x8000
        &&& 1 <= self.wram_bank <= 7
    }

    /// The byte a read of `a` returns.
    pub open spec fn peek(&self, a: u16) -> u8 {
        if a <= 0x7fff {
            self.cartridge.peek(a)
        } else if a <= 0x9fff {
            self.gpu.peek(a)
        } else if a <= 0xbfff {
            self.cartridge.peek(a)
        } else if a <= 0xcfff {
            byte_at(self.wram@, a - 0xc000)
        } else if a <= 0xdfff {
            byte_at(self.wram@, a - 0xd000 + 0x1000 * self.wram_bank)
        } else if a <= 0xefff {
            byte_at(self.wram@, a - 0xe000)
        } else if a <= 0xfdff {
            byte_at(self.wram@, a - 0xf000 + 0x1000 * self.wram_bank)
        } else if a <= 0xfe9f {
            self.gpu.peek(a)
        } else if a <= 0xfeff {
            0
        } else if a == 0xff00 {
            joypad_read(self.joypad.select, self.joypad.matrix)
        } else if a == 0xff01 {
            self.serial.data
        } else if a == 0xff02 {
            self.serial.control
        } else if a == 0xff04 {
            self.timer.div
        } else if a == 0xff05 {
            self.timer.tima
        } else if a == 0xff06 {
            self.timer.tma
        } else if a == 0xff07 {
            self.timer.tac
        } else if a == 0xff0f {
            self.intf.data
        } else if 0xff10 <= a <= 0xff3f {
            self.apu.peek(a)
        } else if a == 0xff4d {
            (if self.speed == Speed::Double { 0x80u8 } else { 0u8 }) | (if self.shift { 0x01u8 } else { 0u8 })
        } else if (0xff40 <= a <= 0xff45) || (0xff47 <= a <= 0xff4b) || a == 0xff4f || (0xff68 <= a <= 0xff6b) {
            self.gpu.peek(a)
        } else if 0xff51 <= a <= 0xff55 {
            self.hdma.peek(a)
        } else if a == 0xff70 {
            self.wram_bank as u8
        } else if 0xff80 <= a <= 0xfffe {
            byte_at(self.hram@, a - 0xff80)
        } else if a == 0xffff {
            self.inte
        } else {
            0
        }
    }

    pub fn get(&self, a: u16) -> (r: u8)
        requires
            self.wf(),
        ensures
            r == self.peek(a),
    {
        if a <= 0x7fff {
            self.cartridge.get(a)
        } else if a <= 0x9fff {
            self.gpu.get(a)
        } else if a <= 0xbfff {
            self.cartridge.get(a)
        } else if a <= 0xcfff {
            read_at(&self.wram, a as usize - 0xc000)
        } else if a <= 0xdfff {
            read_at(&self.wram, a as usize - 0xd000 + 0x1000 * self.wram_bank)
        } else if a <= 0xefff {
            read_at(&self.wram, a as usize - 0xe000)
        } else if a <= 0xfdff {
            read_at(&self.wram, a as usize - 0xf000 + 0x1000 * self.wram_bank)
        } else if a <= 0xfe9f {
            self.gpu.get(a)
        } else if a <= 0xfeff {
            0
        } else if a == 0xff00 {
            self.joypad.get(a)
        } else if a == 0xff01 || a == 0xff02 {
            self.serial.get(a)
        } else if 0xff04 <= a && a <= 0xff07 {
            self.timer.get(a)
        } else if a == 0xff0f {
            self.intf.data
        } else if 0xff10 <= a && a <= 0xff3f {
            self.apu.get(a)
        } else if a == 0xff4d {
            let x: u8 = if self.speed == Speed::Double { 0x80 } else { 0x00 };
            let y: u8 = if self.shift { 0x01 } else { 0x00 };
            x | y
        } else if (0xff40 <= a && a <= 0xff45) || (0xff47 <= a && a <= 0xff4b) || a == 0xff4f || (0xff68 <= a && a
            <= 0xff6b) {
            self.gpu.get(a)
        } else if 0xff51 <= a && a <= 0xff55 {
            self.hdma.get(a)
        } else if a == 0xff70 {
            self.wram_bank as u8
        } else if 0xff80 <= a && a <= 0xfffe {
            read_at(&self.hram, a as usize - 0xff80)
        } else if a == 0xffff {
            self.inte
        } else {
            0
        }
    }

    /// Writes through the bus. 0xff46 copies 160 bytes from (v << 8) to OAM when v <= 0xf1;
    /// 0xff4d arms a speed switch; 0xff70 selects the WRAM bank (0 counts as 1).
    pub fn set(&mut self, a: u16, v: u8)
        requires
            old(self).wf(),
        ensures
            final(self).wf(),
            final(self).term == old(self).term,
            final(self).speed == old(self).speed,
            a != 0xff0f ==> final(self).intf == old(self).intf,
            a == 0xff0f ==> final(self).intf.data == v,
            a != 0xffff ==> final(self).inte == old(self).inte,
            a == 0xffff ==> final(self).inte == v,
            0xc000 <= a <= 0xcfff ==> final(self).wram@ == store_at(old(self).wram@, a - 0xc000, v),
            !(0xc000 <= a <= 0xfdff) ==> final(self).wram@ == old(self).wram@,
            !(a <= 0x7fff || 0xa000 <= a <= 0xbfff) ==> final(self).cartridge == old(self).cartridge,
            a != 0xff70 ==> final(self).wram_bank == old(self).wram_bank,
            a == 0xff07 ==> final(self).timer.tac == v,
            !(0xff04 <= a <= 0xff07) ==> final(self).timer == old(self).timer,
            !(0xff10 <= a <= 0xff3f) ==> final(self).apu == old(self).apu,
            a == 0xff24 && old(self).apu.powered() ==> final(self).apu.reg == (Register { nrx0: v, ..old(self).apu.reg }),
            a == 0xff25 && old(self).apu.powered() ==> final(self).apu.reg == (Register { nrx1: v, ..old(self).apu.reg }),
            a == 0xff26 && v & 0x80 != 0 ==> final(self).apu.powered(),
            a != 0xff24 && a != 0xff25 && a != 0xff26 ==> final(self).apu.reg == old(self).apu.reg,
            stack_ram(a) ==> final(self).peek(a) == v,
            forall|b: u16|
                stack_ram(b) && b != a && !(0xe000 <= a <= 0xfdff) && a != 0xff70 ==> #[trigger] final(self).peek(b) == old(
                    self,
                ).peek(b),
            0xff80 <= a <= 0xfffe ==> final(self).hram@ == old(self).hram@.update(a - 0xff80, v),
            !(0xff80 <= a <= 0xfffe) ==> final(self).hram@ == old(self).hram@,
            a == 0xff4d ==> final(self).shift == (v & 0x01 == 0x01),
            a != 0xff4d ==> final(self).shift == old(self).shift,
            a == 0xff40 ==> final(self).gpu.lcdc.data == v,
            a != 0xff40 ==> final(self).gpu.lcdc == old(self).gpu.lcdc,
            a == 0xff47 ==> final(self).gpu.bgp == v,
            lcd_regs(a) ==> lcd_reg(final(self).gpu, a) == v,
            forall|b: u16| lcd_regs(b) && b != a ==> #[trigger] lcd_reg(final(self).gpu, b) == lcd_reg(old(self).gpu, b),
            a != 0xff47 ==> final(self).gpu.bgp == old(self).gpu.bgp,
            a == 0xff46 && v <= 0xf1 ==> forall|i: int|
                0 <= i < 0xa0 ==> final(self).gpu.oam@[i] == old(self).peek((v as int * 256 + i) as u16),
            a == 0xff70 ==> final(self).wram_bank == (if v & 0x07 == 0 { 1 } else { (v & 0x07) as usize }),
    {
        if a <= 0x7fff {
            self.cartridge.set(a, v);
        } else if a <= 0x9fff {
            self.gpu.set(a, v);
        } else if a <= 0xbfff {
            self.cartridge.set(a, v);
        } else if a <= 0xcfff {
            write_at(&mut self.wram, a as usize - 0xc000, v);
        } else if a <= 0xdfff {
            write_at(&mut self.wram, a as usize - 0xd000 + 0x1000 * self.wram_bank, v);
        } else if a <= 0xefff {
            write_at(&mut self.wram, a as usize - 0xe000, v);
        } else if a <= 0xfdff {
            write_at(&mut self.wram, a as usize - 0xf000 + 0x1000 * self.wram_bank, v);
        } else if a <= 0xfe9f {
            self.gpu.set(a, v);
        } else if a <= 0xfeff {
        } else if a == 0xff00 {
            self.joypad.set(a, v);
        } else if a == 0xff01 || a == 0xff02 {
            self.serial.set(a, v);
        } else if 0xff04 <= a && a <= 0xff07 {
            self.timer.set(a, v);
        } else if 0xff10 <= a && a <= 0xff3f {
            self.apu.set(a, v);
        } else if a == 0xff46 {
            if v <= 0xf1 {
                self.oam_dma(v);
            }
        } else if a == 0xff4d {
            self.shift = (v & 0x01) == 0x01;
        } else if (0xff40 <= a && a <= 0xff45) || (0xff47 <= a && a <= 0xff4b) || a == 0xff4f || (0xff68 <= a && a
            <= 0xff6b) {
            self.gpu.set(a, v);
        } else if 0xff51 <= a && a <= 0xff55 {
            self.hdma.set(a, v);
        } else if a == 0xff0f {
            self.intf.data = v;
        } else if a == 0xff70 {
            let n = v & 0x07;
            proof { crate::bits::lemma_u8_fields(v); }
            self.wram_bank = if n == 0 {
                1
            } else {
                n as usize
            };
        } else if 0xff80 <= a && a <= 0xfffe {
            self.hram.set(a as usize - 0xff80, v);
        } else if a == 0xffff {
            self.inte = v;
        }
    }

    /// Copies 160 bytes from (v << 8) to OAM.
    fn oam_dma(&mut self, v: u8)
        requires
            old(self).wf(),
            v <= 0xf1,
        ensures
            final(self).wf(),
            final(self).term == old(self).term && final(self).speed == old(self).speed,
            final(self).intf == old(self).intf && final(self).inte == old(self).inte,
            final(self).hram@ == old(self).hram@,
            final(self).shift == old(self).shift,
            final(self).gpu.lcdc == old(self).gpu.lcdc && final(self).gpu.bgp == old(self).gpu.bgp,
            final(self).wram@ == old(self).wram@ && final(self).wram_bank == old(self).wram_bank,
            final(self).cartridge == old(self).cartridge && final(self).timer == old(self).timer,
            final(self).apu == old(self).apu,
            old(self).gpu.sy == final(self).gpu.sy && old(self).gpu.sx == final(self).gpu.sx && old(self).gpu.lc == final(self).gpu.lc
                && old(self).gpu.op0 == final(self).gpu.op0 && old(self).gpu.op1 == final(self).gpu.op1 && old(self).gpu.wy
                == final(self).gpu.wy && old(self).gpu.wx == final(self).gpu.wx,
            forall|i: int| 0 <= i < 0xa0 ==> final(self).gpu.oam@[i] == old(self).peek((v as int * 256 + i) as u16),
    {
        let base: u16 = (v as u16) << 8u16;
        assert(base == v as int * 256) by (bit_vector)
            requires base == (v as u16) << 8u16, v <= 0xf1;
        let mut i: u16 = 0;
        while i < 0xa0
            invariant
                self.wf(),
                i <= 0xa0,
                base == v as int * 256,
                v <= 0xf1,
                self.term == old(self).term && self.speed == old(self).speed,
                self.intf == old(self).intf && self.inte == old(self).inte,
                self.hram@ == old(self).hram@,
                self.shift == old(self).shift,
                self.gpu.lcdc == old(self).gpu.lcdc && self.gpu.bgp == old(self).gpu.bgp,
                self.cartridge == old(self).cartridge && self.timer == old(self).timer,
                self.apu == old(self).apu,
                old(self).gpu.sy == self.gpu.sy && old(self).gpu.sx == self.gpu.sx && old(self).gpu.lc == self.gpu.lc
                && old(self).gpu.op0 == self.gpu.op0 && old(self).gpu.op1 == self.gpu.op1 && old(self).gpu.wy
                == self.gpu.wy && old(self).gpu.wx == self.gpu.wx,
                self.wram@ == old(self).wram@ && self.wram_bank == old(self).wram_bank,
                self.gpu.ram@ == old(self).gpu.ram@ && self.gpu.ram_bank == old(self).gpu.ram_bank,
                forall|j: int| 0 <= j < i ==> self.gpu.oam@[j] == old(self).peek((v as int * 256 + j) as u16),
            decreases 0xa0 - i,
        {
            let b = self.get(base + i);
            self.gpu.set(0xfe00 + i, b);
            i = i + 1;
        }
    }

    /// Builds the bus around a loaded cartridge and writes the post-boot I/O register values.
    /// The model is CGB when header byte 0x0143 has bit 7 set.
    pub fn power_up(cartridge: Cartridge) -> (r: Self)
        requires
            cartridge.wf(),
        ensures
            r.wf(),
            r.term == if cartridge.peek(0x0143) & 0x80 == 0x80 {
                Term::GBC
            } else {
                Term::GB
            },
            r.speed == Speed::Normal,
            !r.shift,
            r.inte == 0,
            r.intf.data == 0,
            r.gpu.lcdc.data == 0x91,
            r.gpu.bgp == 0xfc,
            r.timer.tac == 0,
            r.apu.powered() && r.apu.reg.nrx0 == 0x77 && r.apu.reg.nrx1 == 0xf3,
            r.gpu.sy == 0 && r.gpu.sx == 0 && r.gpu.lc == 0 && r.gpu.op0 == 0xff && r.gpu.op1 == 0xff && r.gpu.wy == 0
                && r.gpu.wx == 0,
            r.cartridge == cartridge,
            forall|i: int| 0 <= i < 0x8000 ==> r.wram@[i] == 0,
            forall|i: int| 0 <= i < 0x7f ==> r.hram@[i] == 0,
    {
        let term = if cartridge.get(0x0143) & 0x80 == 0x80 {
            Term::GBC
        } else {
            Term::GB
        };
        let mut hram: Vec<u8> = Vec::new();
        let mut i: usize = 0;
        while i < 0x7f
            invariant
                i <= 0x7f,
                hram@.len() == i,
                forall|j: int| 0 <= j < i ==> hram@[j] == 0,
            decreases 0x7f - i,
        {
            hram.push(0);
            i = i + 1;
        }
        let mut wram: Vec<u8> = Vec::new();
        let mut i: usize = 0;
        while i < 0x8000
            invariant
                i <= 0x8000,
                wram@.len() == i,
                forall|j: int| 0 <= j < i ==> wram@[j] == 0,
            decreases 0x8000 - i,
        {
            wram.push(0);
            i = i + 1;
        }
        let mut r = Self {
            cartridge,
            apu: Apu::power_up(),
            gpu: Gpu::power_up(term),
            joypad: Joypad::power_up(),
            serial: Serial::power_up(),
            shift: false,
            speed: Speed::Normal,
            term,
            timer: Timer::power_up(),
            inte: 0x00,
            intf: Intf::power_up(),
            hdma: Hdma::power_up(),
            hram,
            wram,
            wram_bank: 0x01,
        };
        r.set(0xff05, 0x00);
        r.set(0xff06, 0x00);
        r.set(0xff07, 0x00);
        proof { crate::bits::lemma_constants(); }
        r.set(0xff26, 0xf1);
        r.set(0xff10, 0x80);
        r.set(0xff11, 0xbf);
        r.set(0xff12, 0xf3);
        r.set(0xff14, 0xbf);
        r.set(0xff16, 0x3f);
        r.set(0xff17, 0x00);
        r.set(0xff19, 0xbf);
        r.set(0xff1a, 0x7f);
        r.set(0xff1b, 0xff);
        r.set(0xff1c, 0x9f);
        r.set(0xff1e, 0xff);
        r.set(0xff20, 0xff);
        r.set(0xff21, 0x00);
        r.set(0xff22, 0x00);
        r.set(0xff23, 0xbf);
        r.set(0xff24, 0x77);
        r.set(0xff25, 0xf3);
        r.set(0xff40, 0x91);
        r.set(0xff42, 0x00);
        r.set(0xff43, 0x00);
        r.set(0xff45, 0x00);
        r.set(0xff47, 0xfc);
        r.set(0xff48, 0xff);
        r.set(0xff49, 0xff);
        r.set(0xff4a, 0x00);
        r.set(0xff4b, 0x00);
        assert(lcd_reg(r.gpu, 0xff42) == 0 && lcd_reg(r.gpu, 0xff43) == 0 && lcd_reg(r.gpu, 0xff45) == 0 && lcd_reg(
            r.gpu,
            0xff48,
        ) == 0xff && lcd_reg(r.gpu, 0xff49) == 0xff && lcd_reg(r.gpu, 0xff4a) == 0 && lcd_reg(r.gpu, 0xff4b) == 0);
        r
    }

    /// Advances the devices after a CPU step of `cycles` clocks: runs any VRAM copy, then feeds
    /// the timer at the CPU rate and the PPU and APU at the PPU rate. Returns the PPU cycles.
    pub fn next(&mut self, cycles: u32) -> (r: u32)
        requires
            old(self).wf(),
            cycles <= 0x1000_0000,
        ensures
            final(self).wf(),
            advanced(*old(self), *final(self), cycles, r),
    {
        let cpu_divider: u32 = match self.speed {
            Speed::Normal => 1,
            Speed::Double => 2,
        };
        let vram_cycles = self.run_dma();
        let gpu_cycles = cycles / cpu_divider + vram_cycles;
        let cpu_cycles = cycles + vram_cycles * cpu_divider;
        self.timer.next(&mut self.intf, cpu_cycles);
        self.gpu.next(&mut self.intf, gpu_cycles);
        self.apu.next(gpu_cycles);
        gpu_cycles
    }

    /// The bus after an armed speed switch is performed and disarmed.
    pub open spec fn stop_switched(self) -> Mmunit {
        Mmunit {
            speed: if self.shift {
                if self.speed == Speed::Double { Speed::Normal } else { Speed::Double }
            } else {
                self.speed
            },
            shift: false,
            ..self
        }
    }

    /// Performs an armed speed switch (on STOP) and disarms it.
    pub fn switch_speed(&mut self)
        ensures
            !final(self).shift,
            old(self).shift ==> final(self).speed == (if old(self).speed == Speed::Double {
                Speed::Normal
            } else {
                Speed::Double
            }),
            !old(self).shift ==> final(self).speed == old(self).speed,
            final(self).wf() == old(self).wf(),
            final(self).term == old(self).term,
            final(self).inte == old(self).inte && final(self).intf == old(self).intf,
            *final(self) == old(self).stop_switched(),
    {
        if self.shift {
            if self.speed == Speed::Double {
                self.speed = Speed::Normal;
            } else {
                self.speed = Speed::Double;
            }
        }
        self.shift = false;
    }

    /// Runs the VRAM copy engine: a general copy moves all its blocks at once; an H-blank copy
    /// moves one block per H-blank. Returns the PPU cycles the copy stalls.
    fn run_dma(&mut self) -> (r: u32)
        requires
            old(self).wf(),
        ensures
            final(self).wf(),
            r <= 1024,
            !old(self).hdma.active ==> r == 0 && *final(self) == *old(self),
            final(self).timer == old(self).timer && final(self).apu == old(self).apu,
            final(self).gpu.lcdc == old(self).gpu.lcdc && final(self).gpu.dots == old(self).gpu.dots && final(self).gpu.ly
                == old(self).gpu.ly,
            old(self).hdma.active && old(self).hdma.mode == HdmaMode::Gdma ==> r == (old(self).hdma.remain as int + 1) * 8
                && !final(self).hdma.active,
            old(self).hdma.active && old(self).hdma.mode == HdmaMode::Hdma && !old(self).gpu.h_blank ==> r == 0,
            old(self).hdma.active && old(self).hdma.mode == HdmaMode::Hdma && old(self).gpu.h_blank ==> r == 8,
            final(self).term == old(self).term && final(self).speed == old(self).speed,
            final(self).inte == old(self).inte,
    {
        if !self.hdma.active {
            return 0;
        }
        match self.hdma.mode {
            HdmaMode::Gdma => {
                let len = self.hdma.remain as u32 + 1;
                let mut i: u32 = 0;
                while i < len
                    invariant
                        self.wf(),
                        len <= 128,
                        i <= len,
                        self.timer == old(self).timer && self.apu == old(self).apu,
                        self.gpu.lcdc == old(self).gpu.lcdc && self.gpu.dots == old(self).gpu.dots && self.gpu.ly == old(
                            self).gpu.ly,
                        self.term == old(self).term && self.speed == old(self).speed,
                        self.inte == old(self).inte,
                    decreases len - i,
                {
                    self.run_dma_hrampart();
                    i = i + 1;
                }
                self.hdma.active = false;
                len * 8
            },
            HdmaMode::Hdma => {
                if !self.gpu.h_blank {
                    return 0;
                }
                self.run_dma_hrampart();
                if self.hdma.remain == 0x7f {
                    self.hdma.active = false;
                }
                8
            },
        }
    }

    /// Copies one 16-byte block from the source (through the bus) to the destination in VRAM.
    fn run_dma_hrampart(&mut self)
        requires
            old(self).wf(),
        ensures
            final(self).wf(),
            final(self).term == old(self).term && final(self).speed == old(self).speed,
            final(self).inte == old(self).inte,
            final(self).hdma.active == old(self).hdma.active && final(self).hdma.mode == old(self).hdma.mode,
            final(self).timer == old(self).timer && final(self).apu == old(self).apu,
            final(self).gpu.lcdc == old(self).gpu.lcdc && final(self).gpu.dots == old(self).gpu.dots && final(self).gpu.ly
                == old(self).gpu.ly && final(self).gpu.h_blank == old(self).gpu.h_blank,
            final(self).hdma.remain == if old(self).hdma.remain == 0 {
                0x7f
            } else {
                (old(self).hdma.remain - 1) as u8
            },
    {
        let mmu_src = self.hdma.src;
        let dst = self.hdma.dst;
        let mut i: u16 = 0;
        while i < 0x10
            invariant
                self.wf(),
                i <= 0x10,
                self.hdma == old(self).hdma,
                self.timer == old(self).timer && self.apu == old(self).apu,
                self.gpu.lcdc == old(self).gpu.lcdc && self.gpu.dots == old(self).gpu.dots && self.gpu.ly == old(self).gpu.ly
                    && self.gpu.h_blank == old(self).gpu.h_blank,
                self.term == old(self).term && self.speed == old(self).speed,
                self.inte == old(self).inte,
            decreases 0x10 - i,
        {
            let b: u8 = self.get(mmu_src.wrapping_add(i));
            let target = 0x8000 | (dst.wrapping_add(i) & 0x1fff);
            assert(0x8000 <= 0x8000 | (dst.wrapping_add(i) & 0x1fff) <= 0x9fff) by (bit_vector);
            self.gpu.set(target, b);
            i = i + 1;
        }
        let s = self.hdma.src;
        let d = self.hdma.dst;
        self.hdma.src = s.wrapping_add(0x10);
        self.hdma.dst = d.wrapping_add(0x10);
        assert((s & 0x000f == 0 ==> (s.wrapping_add(0x10)) & 0x000f == 0) && (d & 0x000f == 0 ==> (d.wrapping_add(0x10))
            & 0x000f == 0)) by (bit_vector);
        if self.hdma.remain == 0 {
            self.hdma.remain = 0x7f;
        } else {
            self.hdma.remain = self.hdma.remain - 1;
        }
    }
}

} // verus!
