use crate::cartridge::{byte_at, read_at, store_at, write_at};
use crate::convention::Term;
use crate::intf::{flag_mask, Flag, Intf};
use vstd::prelude::*;

verus! {

pub const SCREEN_W: usize = 160;

pub const SCREEN_H: usize = 144;

/// The CGB VRAM copy modes: general purpose (all at once) or one block per H-blank.
#[derive(Clone, Copy, Debug, PartialEq, Eq, Structural)]
pub enum HdmaMode {
    Gdma,
    Hdma,
}

/// The CGB VRAM copy engine registers (0xff51..=0xff55).
pub struct Hdma {
    pub src: u16,
    pub dst: u16,
    pub active: bool,
    pub mode: HdmaMode,
    pub remain: u8,
}

impl Hdma {
    /// The source keeps its low four bits clear; the destination stays in VRAM, 16-byte aligned.
    pub open spec fn wf(&self) -> bool {
        &&& self.src & 0x000f == 0
        &&& self.dst & 0x000f == 0
        &&& self.remain <= 0x7f
    }

    pub fn power_up() -> (r: Self)
        ensures
            r.wf(),
            r.src == 0 && r.dst == 0x8000 && !r.active && r.mode == HdmaMode::Gdma && r.remain == 0,
    {
        proof { crate::bits::lemma_constants(); }
        Self { src: 0x0000, dst: 0x8000, active: false, mode: HdmaMode::Gdma, remain: 0x00 }
    }

    pub open spec fn peek(&self, a: u16) -> u8 {
        if a == 0xff51 {
            (self.src >> 8) as u8
        } else if a == 0xff52 {
            self.src as u8
        } else if a == 0xff53 {
            (self.dst >> 8) as u8
        } else if a == 0xff54 {
            self.dst as u8
        } else if a == 0xff55 {
            self.remain | if self.active {
                0x00u8
            } else {
                0x80u8
            }
        } else {
            0
        }
    }

    pub fn get(&self, a: u16) -> (r: u8)
        ensures
            r == self.peek(a),
    {
        if a == 0xff51 {
            (self.src >> 8) as u8
        } else if a == 0xff52 {
            self.src as u8
        } else if a == 0xff53 {
            (self.dst >> 8) as u8
        } else if a == 0xff54 {
            self.dst as u8
        } else if a == 0xff55 {
            self.remain | if self.active {
                0x00
            } else {
                0x80
            }
        } else {
            0
        }
    }

    /// Writes a register. A write to 0xff55 starts a copy of (v & 0x7f) + 1 blocks, in H-blank
    /// mode when bit 7 is set; while an H-blank copy runs, a write with bit 7 clear stops it.
    pub fn set(&mut self, a: u16, v: u8)
        requires
            old(self).wf(),
        ensures
            final(self).wf(),
            a == 0xff55 && old(self).active && old(self).mode == HdmaMode::Hdma ==> final(self).active == (v
                & 0x80 != 0) && final(self).remain == old(self).remain && final(self).mode == old(self).mode,
            a == 0xff55 && !(old(self).active && old(self).mode == HdmaMode::Hdma) ==> final(self).active
                && final(self).remain == v & 0x7f && final(self).mode == (if v & 0x80 != 0 {
                HdmaMode::Hdma
            } else {
                HdmaMode::Gdma
            }),
            a == 0xff55 ==> final(self).src == old(self).src && final(self).dst == old(self).dst,
            a != 0xff55 ==> final(self).active == old(self).active && final(self).remain == old(self).remain
                && final(self).mode == old(self).mode,
    {
        let src = self.src;
        let dst = self.dst;
        if a == 0xff51 {
            self.src = ((v as u16) << 8u16) | (src & 0x00f0);
            assert((((v as u16) << 8u16) | (src & 0x00f0)) & 0x000f == 0) by (bit_vector);
        } else if a == 0xff52 {
            self.src = (src & 0xff00) | ((v & 0xf0) as u16);
            assert(((src & 0xff00) | ((v & 0xf0) as u16)) & 0x000f == 0) by (bit_vector);
        } else if a == 0xff53 {
            self.dst = 0x8000 | (((v & 0x1f) as u16) << 8u16) | (dst & 0x00f0);
            assert((0x8000 | (((v & 0x1f) as u16) << 8u16) | (dst & 0x00f0)) & 0x000f == 0) by (bit_vector);
        } else if a == 0xff54 {
            self.dst = (dst & 0xff00) | ((v & 0xf0) as u16);
            assert(((dst & 0xff00) | ((v & 0xf0) as u16)) & 0x000f == 0) by (bit_vector);
        } else if a == 0xff55 {
            if self.active && self.mode == HdmaMode::Hdma {
                if v & 0x80 == 0x00 {
                    self.active = false;
                }
                return;
            }
            self.active = true;
            self.remain = v & 0x7f;
            proof { crate::bits::lemma_u8_fields(v); }
            self.mode = if v & 0x80 != 0x00 {
                HdmaMode::Hdma
            } else {
                HdmaMode::Gdma
            };
        }
    }
}

/// The LCD control register (0xff40).
pub struct Lcdc {
    pub data: u8,
}

impl Lcdc {
    pub fn power_up() -> (r: Self)
        ensures
            r.data == 0x48,
    {
        Self { data: 0b0100_1000 }
    }

    /// Whether bit `i` is set.
    pub open spec fn bit(&self, i: u8) -> bool {
        self.data & (1u8 << i) != 0
    }

    pub fn get_bit(&self, i: u8) -> (r: bool)
        requires
            i < 8,
        ensures
            r == self.bit(i),
    {
        self.data & (1u8 << i) != 0
    }
}

/// The interrupt enables and the mode of the LCD status register (0xff41).
pub struct Stat {
    pub enable_ly_interrupt: bool,
    pub enable_m2_interrupt: bool,
    pub enable_m1_interrupt: bool,
    pub enable_m0_interrupt: bool,
    pub mode: u8,
}

impl Stat {
    pub fn power_up() -> (r: Self)
        ensures
            !r.enable_ly_interrupt && !r.enable_m2_interrupt && !r.enable_m1_interrupt
                && !r.enable_m0_interrupt && r.mode == 0,
    {
        Self {
            enable_ly_interrupt: false,
            enable_m2_interrupt: false,
            enable_m1_interrupt: false,
            enable_m0_interrupt: false,
            mode: 0x00,
        }
    }
}

/// A CGB palette index register: a six-bit index and an auto-increment flag.
pub struct Bgpi {
    pub i: u8,
    pub auto_increment: bool,
}

impl Bgpi {
    pub fn power_up() -> (r: Self)
        ensures
            r.i == 0 && !r.auto_increment,
    {
        Self { i: 0x00, auto_increment: false }
    }

    pub fn get(&self) -> (r: u8)
        ensures
            r == (if self.auto_increment {
                0x80u8
            } else {
                0u8
            }) | self.i,
    {
        let a: u8 = if self.auto_increment {
            0x80
        } else {
            0x00
        };
        a | self.i
    }

    pub fn set(&mut self, v: u8)
        ensures
            final(self).auto_increment == (v & 0x80 != 0),
            final(self).i == v & 0x3f,
    {
        self.auto_increment = v & 0x80 != 0x00;
        self.i = v & 0x3f;
    }
}

/// The four DMG gray levels.
#[derive(Clone, Copy, Debug, PartialEq, Eq, Structural)]
pub enum GrayShades {
    White,
    Light,
    Dark,
    Black,
}

impl GrayShades {
    /// The display value of this gray level.
    pub fn value(self) -> (r: u8)
        ensures
            r == shade_value(self),
    {
        match self {
            GrayShades::White => 0xff,
            GrayShades::Light => 0xc0,
            GrayShades::Dark => 0x60,
            GrayShades::Black => 0x00,
        }
    }
}

/// The display value of a gray level.
pub open spec fn shade_value(s: GrayShades) -> u8 {
    match s {
        GrayShades::White => 0xff,
        GrayShades::Light => 0xc0,
        GrayShades::Dark => 0x60,
        GrayShades::Black => 0x00,
    }
}

/// The display value that palette `pal` gives color index `i`.
pub open spec fn gray_of(pal: u8, i: u8) -> u8 {
    let c = (pal >> (2 * i) as u8) & 0x03;
    if c == 0 {
        0xff
    } else if c == 1 {
        0xc0
    } else if c == 2 {
        0x60
    } else {
        0x00
    }
}

/// The CGB display values of a 15-bit color.
pub open spec fn cgb_rgb(r: u8, g: u8, b: u8) -> (u8, u8, u8) {
    (
        ((r as int * 13 + g as int * 2 + b as int) / 2) as u8,
        ((g as int * 3 + b as int) * 2) as u8,
        ((r as int * 3 + g as int * 2 + b as int * 11) / 2) as u8,
    )
}

/// The attribute byte of a BG map entry or a sprite.
pub struct Attr {
    pub priority: bool,
    pub yflip: bool,
    pub xflip: bool,
    pub palette_number_0: bool,
    pub bank: bool,
    pub palette_number_1: usize,
}

pub fn attr_of(u: u8) -> (r: Attr)
    ensures
        r.priority == (u & 0x80 != 0),
        r.yflip == (u & 0x40 != 0),
        r.xflip == (u & 0x20 != 0),
        r.palette_number_0 == (u & 0x10 != 0),
        r.bank == (u & 0x08 != 0),
        r.palette_number_1 == (u & 0x07) as usize,
        r.palette_number_1 < 8,
{
    proof { crate::bits::lemma_u8_fields(u); }
    Attr {
        priority: u & 0x80 != 0,
        yflip: u & 0x40 != 0,
        xflip: u & 0x20 != 0,
        palette_number_0: u & 0x10 != 0,
        bank: u & 0x08 != 0,
        palette_number_1: (u & 0x07) as usize,
    }
}

fn zeros(n: usize) -> (r: Vec<u8>)
    ensures
        r@ == Seq::new(n as nat, |i: int| 0u8),
{
    filled(n, 0)
}

fn filled(n: usize, x: u8) -> (r: Vec<u8>)
    ensures
        r@ == Seq::new(n as nat, |i: int| x),
{
    let mut r: Vec<u8> = Vec::new();
    let mut i: usize = 0;
    while i < n
        invariant
            i <= n,
            r@ == Seq::new(i as nat, |j: int| x),
        decreases n - i,
    {
        r.push(x);
        i = i + 1;
        assert(r@ =~= Seq::new(i as nat, |j: int| x));
    }
    r
}

/// The pixel processing unit: VRAM, OAM, LCD registers, palettes and the frame buffer.
pub struct Gpu {
    /// The frame, 144 rows of 160 pixels of (R, G, B).
    pub data: Vec<u8>,
    pub term: Term,
    pub h_blank: bool,
    pub v_blank: bool,
    pub lcdc: Lcdc,
    pub stat: Stat,
    pub sy: u8,
    pub sx: u8,
    pub wy: u8,
    pub wx: u8,
    pub ly: u8,
    pub lc: u8,
    pub bgp: u8,
    pub op0: u8,
    pub op1: u8,
    pub cbgpi: Bgpi,
    /// 8 palettes of 4 colors of 3 five-bit components.
    pub cbgpd: Vec<u8>,
    pub cobpi: Bgpi,
    pub cobpd: Vec<u8>,
    /// Two 8 KiB VRAM banks.
    pub ram: Vec<u8>,
    pub ram_bank: usize,
    pub oam: Vec<u8>,
    /// Per pixel of the current line: the BG priority attribute and the BG color index.
    pub prio: Vec<(bool, u8)>,
    pub dots: u32,
    /// How many VBlank interrupts the PPU has requested.
    pub vblanks: Ghost<nat>,
}

/// Offset of the byte of pixel `x` of line `y`, component `k`, in the frame buffer.
pub open spec fn pixel_index(y: int, x: int, k: int) -> int {
    (y * 160 + x) * 3 + k
}

impl Gpu {
    /// Whether two states differ at most in the frame buffer and the per-pixel records.
    pub open spec fn same_regs(&self, o: &Gpu) -> bool {
        &&& self.term == o.term && self.lcdc == o.lcdc && self.stat == o.stat
        &&& self.sy == o.sy && self.sx == o.sx && self.wy == o.wy && self.wx == o.wx
        &&& self.ly == o.ly && self.lc == o.lc && self.bgp == o.bgp && self.op0 == o.op0 && self.op1 == o.op1
        &&& self.cbgpi == o.cbgpi && self.cbgpd@ == o.cbgpd@ && self.cobpi == o.cobpi && self.cobpd@ == o.cobpd@
        &&& self.ram@ == o.ram@ && self.ram_bank == o.ram_bank && self.oam@ == o.oam@
        &&& self.dots == o.dots && self.h_blank == o.h_blank && self.v_blank == o.v_blank
        &&& self.vblanks == o.vblanks
    }

    pub open spec fn wf(&self) -> bool {
        &&& self.data@.len() == 144 * 160 * 3
        &&& self.cbgpd@.len() == 96
        &&& self.cobpd@.len() == 96
        &&& self.ram@.len() == 0x4000
        &&& self.oam@.len() == 0xa0
        &&& self.prio@.len() == 160
        &&& self.ram_bank <= 1
        &&& self.ly < 154
        &&& self.dots < 456
        &&& self.stat.mode <= 3
        &&& (self.ly >= 144) == (self.stat.mode == 1)
        &&& self.cbgpi.i <= 0x3f
        &&& self.cobpi.i <= 0x3f
        &&& forall|i: int| 0 <= i < 96 ==> self.cbgpd@[i] <= 0x1f
        &&& forall|i: int| 0 <= i < 96 ==> self.cobpd@[i] <= 0x1f
    }

    pub fn power_up(term: Term) -> (r: Self)
        ensures
            r.wf(),
            r.term == term,
            r.ly == 0 && r.dots == 0 && r.lcdc.data == 0x48 && !r.v_blank && !r.h_blank,
            forall|i: int| 0 <= i < 144 * 160 * 3 ==> r.data@[i] == 0xff,
    {
        let mut prio: Vec<(bool, u8)> = Vec::new();
        let mut i: usize = 0;
        while i < SCREEN_W
            invariant
                i <= SCREEN_W,
                prio@.len() == i,
            decreases SCREEN_W - i,
        {
            prio.push((true, 0));
            i = i + 1;
        }
        Self {
            data: filled(SCREEN_W * SCREEN_H * 3, 0xff),
            term,
            h_blank: false,
            v_blank: false,
            lcdc: Lcdc::power_up(),
            stat: Stat::power_up(),
            sy: 0x00,
            sx: 0x00,
            wx: 0x00,
            wy: 0x00,
            ly: 0x00,
            lc: 0x00,
            bgp: 0x00,
            op0: 0x00,
            op1: 0x01,
            cbgpi: Bgpi::power_up(),
            cbgpd: zeros(96),
            cobpi: Bgpi::power_up(),
            cobpd: zeros(96),
            ram: zeros(0x4000),
            ram_bank: 0x00,
            oam: zeros(0xa0),
            prio,
            dots: 0,
            vblanks: Ghost(0),
        }
    }

    /// The gray level that the DMG palette `v` gives color index `i`.
    pub fn get_gray_shades(v: u8, i: u8) -> (r: GrayShades)
        requires
            i < 4,
        ensures
            shade_value(r) == gray_of(v, i),
    {
        let c = (v >> (2 * i)) & 0x03;
        if c == 0 {
            GrayShades::White
        } else if c == 1 {
            GrayShades::Light
        } else if c == 2 {
            GrayShades::Dark
        } else {
            GrayShades::Black
        }
    }

    /// Writes a gray pixel at column `x` of the current line.
    fn set_gre(&mut self, x: usize, g: u8)
        requires
            old(self).wf(),
            old(self).ly < 144,
            x < 160,
        ensures
            final(self).wf(),
            final(self).data@ == old(self).data@.update(pixel_index(old(self).ly as int, x as int, 0), g).update(
                pixel_index(old(self).ly as int, x as int, 1),
                g,
            ).update(pixel_index(old(self).ly as int, x as int, 2), g),
            final(self).ly == old(self).ly,
            final(self).prio == old(self).prio,
            final(self).same_regs(old(self)),
    {
        let base = (self.ly as usize * SCREEN_W + x) * 3;
        self.data.set(base, g);
        self.data.set(base + 1, g);
        self.data.set(base + 2, g);
    }

    /// Writes a CGB color at column `x` of the current line, converted to display values.
    pub fn set_rgb(&mut self, x: usize, r: u8, g: u8, b: u8)
        requires
            old(self).wf(),
            old(self).ly < 144,
            x < 160,
            r <= 0x1f && g <= 0x1f && b <= 0x1f,
        ensures
            final(self).wf(),
            final(self).data@ == old(self).data@.update(pixel_index(old(self).ly as int, x as int, 0), cgb_rgb(r, g, b).0).update(
                pixel_index(old(self).ly as int, x as int, 1),
                cgb_rgb(r, g, b).1,
            ).update(pixel_index(old(self).ly as int, x as int, 2), cgb_rgb(r, g, b).2),
            final(self).ly == old(self).ly,
            final(self).prio == old(self).prio,
            final(self).same_regs(old(self)),
    {
        let r = r as u32;
        let g = g as u32;
        let b = b as u32;
        let sr: u32 = r * 13 + g * 2 + b;
        let sg: u32 = g * 3 + b;
        let sb: u32 = r * 3 + g * 2 + b * 11;
        let lr = (sr >> 1u32) as u8;
        let lg = (sg << 1u32) as u8;
        let lb = (sb >> 1u32) as u8;
        assert(sr >> 1u32 == sr / 2 && sg << 1u32 == sg * 2 && sb >> 1u32 == sb / 2) by (bit_vector)
            requires sg <= 0x7f;
        let base = (self.ly as usize * SCREEN_W + x) * 3;
        self.data.set(base, lr);
        self.data.set(base + 1, lg);
        self.data.set(base + 2, lb);
    }

    /// The STAT register as read: enables, LY=LYC coincidence and mode.
    pub open spec fn stat_byte(&self) -> u8 {
        (if self.stat.enable_ly_interrupt { 0x40u8 } else { 0u8 }) | (if self.stat.enable_m2_interrupt {
            0x20u8
        } else {
            0u8
        }) | (if self.stat.enable_m1_interrupt { 0x10u8 } else { 0u8 }) | (if self.stat.enable_m0_interrupt {
            0x08u8
        } else {
            0u8
        }) | (if self.ly == self.lc { 0x04u8 } else { 0u8 }) | self.stat.mode
    }

    /// The byte of a CGB palette table that index register value `i` addresses.
    pub open spec fn palette_byte(pd: Seq<u8>, i: u8) -> u8 {
        let base = ((i >> 3) as int * 4 + ((i >> 1) & 0x3) as int) * 3;
        if i & 0x01 == 0 {
            pd[base] | ((pd[base + 1] << 5u8) as u8)
        } else {
            (pd[base + 1] >> 3u8) | ((pd[base + 2] << 2u8) as u8)
        }
    }

    pub open spec fn peek(&self, a: u16) -> u8 {
        if 0x8000 <= a <= 0x9fff {
            byte_at(self.ram@, self.ram_bank as int * 0x2000 + a as int - 0x8000)
        } else if 0xfe00 <= a <= 0xfe9f {
            byte_at(self.oam@, a as int - 0xfe00)
        } else if a == 0xff40 {
            self.lcdc.data
        } else if a == 0xff41 {
            self.stat_byte()
        } else if a == 0xff42 {
            self.sy
        } else if a == 0xff43 {
            self.sx
        } else if a == 0xff44 {
            self.ly
        } else if a == 0xff45 {
            self.lc
        } else if a == 0xff47 {
            self.bgp
        } else if a == 0xff48 {
            self.op0
        } else if a == 0xff49 {
            self.op1
        } else if a == 0xff4a {
            self.wy
        } else if a == 0xff4b {
            self.wx
        } else if a == 0xff4f {
            0xfe | self.ram_bank as u8
        } else if a == 0xff68 {
            (if self.cbgpi.auto_increment { 0x80u8 } else { 0u8 }) | self.cbgpi.i
        } else if a == 0xff69 {
            Self::palette_byte(self.cbgpd@, self.cbgpi.i)
        } else if a == 0xff6a {
            (if self.cobpi.auto_increment { 0x80u8 } else { 0u8 }) | self.cobpi.i
        } else if a == 0xff6b {
            Self::palette_byte(self.cobpd@, self.cobpi.i)
        } else {
            0
        }
    }

    fn read_palette(pd: &Vec<u8>, i: u8) -> (r: u8)
        requires
            pd@.len() == 96,
            i <= 0x3f,
        ensures
            r == Self::palette_byte(pd@, i),
    {
        let base = ((i >> 3) as usize * 4 + ((i >> 1) & 0x3) as usize) * 3;
        proof { crate::bits::lemma_u8_fields(i); }
        if i & 0x01 == 0x00 {
            pd[base] | (pd[base + 1] << 5u8)
        } else {
            (pd[base + 1] >> 3u8) | (pd[base + 2] << 2u8)
        }
    }

    /// Writes a palette byte: the low byte holds red and the low green bits, the high byte the
    /// high green bits and blue.
    fn write_palette(pd: &mut Vec<u8>, i: u8, v: u8)
        requires
            old(pd)@.len() == 96,
            i <= 0x3f,
            forall|k: int| 0 <= k < 96 ==> old(pd)@[k] <= 0x1f,
        ensures
            final(pd)@.len() == 96,
            forall|k: int| 0 <= k < 96 ==> final(pd)@[k] <= 0x1f,
            Self::palette_byte(final(pd)@, i) == if i & 0x01 == 0 { v } else { v & 0x7f },
    {
        let base = ((i >> 3) as usize * 4 + ((i >> 1) & 0x3) as usize) * 3;
        proof { crate::bits::lemma_u8_fields(i); }
        if i & 0x01 == 0x00 {
            let g = pd[base + 1];
            pd.set(base, v & 0x1f);
            pd.set(base + 1, (g & 0x18) | (v >> 5u8));
            assert(v & 0x1f <= 0x1f && (g & 0x18) | (v >> 5u8) <= 0x1f && (v & 0x1f) | ((((g & 0x18) | (v >> 5u8)) << 5u8)
                as u8) == v) by (bit_vector);
        } else {
            let g = pd[base + 1];
            pd.set(base + 1, (g & 0x07) | ((v & 0x03) << 3u8));
            pd.set(base + 2, (v >> 2u8) & 0x1f);
            assert((g & 0x07) | ((v & 0x03) << 3u8) <= 0x1f && (v >> 2u8) & 0x1f <= 0x1f && (((g & 0x07) | ((v & 0x03)
                << 3u8)) >> 3u8) | ((((v >> 2u8) & 0x1f) << 2u8) as u8) == v & 0x7f) by (bit_vector);
        }
    }

    /// Reads VRAM, OAM or an LCD register; other addresses read 0.
    pub fn get(&self, a: u16) -> (r: u8)
        requires
            self.wf(),
        ensures
            r == self.peek(a),
    {
        if 0x8000 <= a && a <= 0x9fff {
            read_at(&self.ram, self.ram_bank * 0x2000 + a as usize - 0x8000)
        } else if 0xfe00 <= a && a <= 0xfe9f {
            read_at(&self.oam, a as usize - 0xfe00)
        } else if a == 0xff40 {
            self.lcdc.data
        } else if a == 0xff41 {
            let bit6: u8 = if self.stat.enable_ly_interrupt { 0x40 } else { 0x00 };
            let bit5: u8 = if self.stat.enable_m2_interrupt { 0x20 } else { 0x00 };
            let bit4: u8 = if self.stat.enable_m1_interrupt { 0x10 } else { 0x00 };
            let bit3: u8 = if self.stat.enable_m0_interrupt { 0x08 } else { 0x00 };
            let bit2: u8 = if self.ly == self.lc { 0x04 } else { 0x00 };
            bit6 | bit5 | bit4 | bit3 | bit2 | self.stat.mode
        } else if a == 0xff42 {
            self.sy
        } else if a == 0xff43 {
            self.sx
        } else if a == 0xff44 {
            self.ly
        } else if a == 0xff45 {
            self.lc
        } else if a == 0xff47 {
            self.bgp
        } else if a == 0xff48 {
            self.op0
        } else if a == 0xff49 {
            self.op1
        } else if a == 0xff4a {
            self.wy
        } else if a == 0xff4b {
            self.wx
        } else if a == 0xff4f {
            0xfe | self.ram_bank as u8
        } else if a == 0xff68 {
            self.cbgpi.get()
        } else if a == 0xff69 {
            Self::read_palette(&self.cbgpd, self.cbgpi.i)
        } else if a == 0xff6a {
            self.cobpi.get()
        } else if a == 0xff6b {
            Self::read_palette(&self.cobpd, self.cobpi.i)
        } else {
            0
        }
    }

    /// Writes VRAM, OAM or an LCD register; other addresses are ignored. Turning the LCD off
    /// resets LY, the dot counter and the mode, and clears the frame to white.
    pub fn set(&mut self, a: u16, v: u8)
        requires
            old(self).wf(),
        ensures
            final(self).wf(),
            final(self).term == old(self).term,
            0x8000 <= a <= 0x9fff ==> final(self).ram@ == store_at(
                old(self).ram@,
                old(self).ram_bank as int * 0x2000 + a as int - 0x8000,
                v,
            ),
            !(0x8000 <= a <= 0x9fff) ==> final(self).ram@ == old(self).ram@,
            0xfe00 <= a <= 0xfe9f ==> final(self).oam@ == old(self).oam@.update(a as int - 0xfe00, v),
            (0x8000 <= a <= 0x9fff || 0xfe00 <= a <= 0xfe9f) ==> final(self).lcdc == old(self).lcdc && final(self).stat
                == old(self).stat && final(self).ly == old(self).ly && final(self).dots == old(self).dots
                && final(self).h_blank == old(self).h_blank && final(self).v_blank == old(self).v_blank,
            !(0xfe00 <= a <= 0xfe9f) ==> final(self).oam@ == old(self).oam@,
            a == 0xff40 ==> final(self).lcdc.data == v,
            a == 0xff40 && v & 0x80 == 0 ==> final(self).ly == 0 && final(self).dots == 0 && final(self).stat.mode
                == 0 && final(self).v_blank && forall|i: int| 0 <= i < 144 * 160 * 3 ==> final(self).data@[i]
                == 0xff,
            a != 0xff40 ==> final(self).lcdc == old(self).lcdc,
            a != 0xff40 ==> final(self).ly == old(self).ly && final(self).dots == old(self).dots,
            a == 0xff42 ==> final(self).sy == v,
            a == 0xff43 ==> final(self).sx == v,
            a == 0xff45 ==> final(self).lc == v,
            a == 0xff47 ==> final(self).bgp == v,
            a != 0xff47 ==> final(self).bgp == old(self).bgp,
            a != 0xff42 ==> final(self).sy == old(self).sy,
            a != 0xff43 ==> final(self).sx == old(self).sx,
            a != 0xff45 ==> final(self).lc == old(self).lc,
            a != 0xff48 ==> final(self).op0 == old(self).op0,
            a != 0xff49 ==> final(self).op1 == old(self).op1,
            a != 0xff4a ==> final(self).wy == old(self).wy,
            a != 0xff4b ==> final(self).wx == old(self).wx,
            a == 0xff48 ==> final(self).op0 == v,
            a == 0xff49 ==> final(self).op1 == v,
            a == 0xff4a ==> final(self).wy == v,
            a == 0xff4b ==> final(self).wx == v,
            a == 0xff4f ==> final(self).ram_bank == (v & 0x01) as usize,
            a == 0xff68 ==> final(self).cbgpi.i == v & 0x3f && final(self).cbgpi.auto_increment == (v & 0x80 != 0),
            a == 0xff6a ==> final(self).cobpi.i == v & 0x3f && final(self).cobpi.auto_increment == (v & 0x80 != 0),
            a == 0xff69 ==> Self::palette_byte(final(self).cbgpd@, old(self).cbgpi.i) == (if old(self).cbgpi.i & 0x01 == 0 {
                v
            } else {
                v & 0x7f
            }) && final(self).cbgpi.auto_increment == old(self).cbgpi.auto_increment && final(self).cbgpi.i == (if old(
                self).cbgpi.auto_increment {
                ((old(self).cbgpi.i + 1) % 256) as u8 & 0x3f
            } else {
                old(self).cbgpi.i
            }),
            a == 0xff6b ==> Self::palette_byte(final(self).cobpd@, old(self).cobpi.i) == (if old(self).cobpi.i & 0x01 == 0 {
                v
            } else {
                v & 0x7f
            }) && final(self).cobpi.auto_increment == old(self).cobpi.auto_increment && final(self).cobpi.i == (if old(
                self).cobpi.auto_increment {
                ((old(self).cobpi.i + 1) % 256) as u8 & 0x3f
            } else {
                old(self).cobpi.i
            }),
            a != 0xff4f ==> final(self).ram_bank == old(self).ram_bank,
    {
        if 0x8000 <= a && a <= 0x9fff {
            write_at(&mut self.ram, self.ram_bank * 0x2000 + a as usize - 0x8000, v);
        } else if 0xfe00 <= a && a <= 0xfe9f {
            self.oam.set(a as usize - 0xfe00, v);
        } else if a == 0xff40 {
            self.lcdc.data = v;
            if v & 0x80 == 0 {
                self.dots = 0;
                self.ly = 0;
                self.stat.mode = 0;
                self.data = filled(SCREEN_W * SCREEN_H * 3, 0xff);
                self.v_blank = true;
            }
        } else if a == 0xff41 {
            self.stat.enable_ly_interrupt = v & 0x40 != 0x00;
            self.stat.enable_m2_interrupt = v & 0x20 != 0x00;
            self.stat.enable_m1_interrupt = v & 0x10 != 0x00;
            self.stat.enable_m0_interrupt = v & 0x08 != 0x00;
        } else if a == 0xff42 {
            self.sy = v;
        } else if a == 0xff43 {
            self.sx = v;
        } else if a == 0xff45 {
            self.lc = v;
        } else if a == 0xff47 {
            self.bgp = v;
        } else if a == 0xff48 {
            self.op0 = v;
        } else if a == 0xff49 {
            self.op1 = v;
        } else if a == 0xff4a {
            self.wy = v;
        } else if a == 0xff4b {
            self.wx = v;
        } else if a == 0xff4f {
            proof { crate::bits::lemma_u8_fields(v); }
            self.ram_bank = (v & 0x01) as usize;
        } else if a == 0xff68 {
            self.cbgpi.set(v);
            proof { crate::bits::lemma_u8_fields(v); }
        } else if a == 0xff69 {
            Self::write_palette(&mut self.cbgpd, self.cbgpi.i, v);
            if self.cbgpi.auto_increment {
                let ni = self.cbgpi.i + 1;
                proof { crate::bits::lemma_u8_fields(ni); }
                self.cbgpi.i = ni & 0x3f;
            }
        } else if a == 0xff6a {
            self.cobpi.set(v);
            proof { crate::bits::lemma_u8_fields(v); }
        } else if a == 0xff6b {
            Self::write_palette(&mut self.cobpd, self.cobpi.i, v);
            if self.cobpi.auto_increment {
                let ni = self.cobpi.i + 1;
                proof { crate::bits::lemma_u8_fields(ni); }
                self.cobpi.i = ni & 0x3f;
            }
        }
    }

    /// The 2-bit color index of column `tx` (0 = leftmost) of a tile row with bytes `lo`, `hi`.
    pub open spec fn color_of(lo: u8, hi: u8, tx: u8) -> u8 {
        (if hi & (0x80u8 >> tx) != 0 { 2u8 } else { 0u8 }) | (if lo & (0x80u8 >> tx) != 0 { 1u8 } else { 0u8 })
    }

    pub fn tile_color(lo: u8, hi: u8, tx: u8) -> (r: u8)
        requires
            tx < 8,
        ensures
            r == Self::color_of(lo, hi, tx),
            r < 4,
    {
        let l: u8 = if lo & (0x80u8 >> tx) != 0 { 1 } else { 0 };
        let h: u8 = if hi & (0x80u8 >> tx) != 0 { 2 } else { 0 };
        assert(h | l < 4) by (bit_vector)
            requires (h == 0 || h == 2) && (l == 0 || l == 1);
        h | l
    }

    /// A byte of VRAM bank 0 at bus address `a`.
    fn get_ram0(&self, a: usize) -> (r: u8)
        ensures
            r == byte_at(self.ram@, a - 0x8000),
    {
        if a >= 0x8000 {
            read_at(&self.ram, a - 0x8000)
        } else {
            0
        }
    }

    /// A byte of VRAM bank 1 at bus address `a`.
    fn get_ram1(&self, a: usize) -> (r: u8)
        ensures
            r == byte_at(self.ram@, a - 0x6000),
    {
        if a >= 0x6000 {
            read_at(&self.ram, a - 0x6000)
        } else {
            0
        }
    }

    /// The attribute byte (CGB; 0 on DMG) and the 2-bit color index of the background or window
    /// at column `x` of the current line, fetched from the tile map and tile data in VRAM.
    pub open spec fn bg_entry(&self, x: int) -> (u8, u8) {
        let show_window = self.lcdc.bit(5) && self.wy <= self.ly;
        let wx = ((self.wx as int + 249) % 256) as u8;
        let in_window = show_window && x >= wx;
        let py: u8 = if show_window { (self.ly - self.wy) as u8 } else { ((self.sy as int + self.ly as int) % 256) as u8 };
        let px: u8 = if in_window { (x - wx) as u8 } else { ((self.sx as int + x) % 256) as u8 };
        let ty = ((py >> 3u8) & 31) as int;
        let tx = ((px >> 3u8) & 31) as int;
        let map = if in_window {
            if self.lcdc.bit(6) { 0x9c00int } else { 0x9800int }
        } else if self.lcdc.bit(3) {
            0x9c00int
        } else {
            0x9800int
        };
        let tile_addr = map + ty * 32 + tx;
        let tn = byte_at(self.ram@, tile_addr - 0x8000);
        let cgb = self.term == Term::GBC;
        let attr: u8 = if cgb { byte_at(self.ram@, tile_addr - 0x6000) } else { 0 };
        let loc = if self.lcdc.bit(4) { 0x8000 + tn as int * 16 } else { 0x8800 + (tn ^ 0x80) as int * 16 };
        let tyy: int = if attr & 0x40 != 0 { 7 - (py % 8) as int } else { (py % 8) as int };
        let row = loc + tyy * 2;
        let bank1 = cgb && attr & 0x08 != 0;
        let lo = if bank1 { byte_at(self.ram@, row - 0x6000) } else { byte_at(self.ram@, row - 0x8000) };
        let hi = if bank1 { byte_at(self.ram@, row + 1 - 0x6000) } else { byte_at(self.ram@, row + 1 - 0x8000) };
        let txx: int = if attr & 0x20 != 0 { 7 - (px % 8) as int } else { (px % 8) as int };
        (attr, Self::color_of(lo, hi, txx as u8))
    }

    /// Renders the background and window of the current line and records, per pixel, the
    /// BG priority attribute and color index. On DMG each pixel is its color index through BGP.
    fn draw_bg(&mut self)
        requires
            old(self).wf(),
            old(self).ly < 144,
        ensures
            final(self).wf(),
            final(self).same_regs(old(self)),
            forall|x: int| 0 <= x < 160 ==> final(self).prio@[x].1 < 4,
            forall|x: int|
                0 <= x < 160 ==> #[trigger] final(self).prio@[x] == (old(self).bg_entry(x).0 & 0x80 != 0, old(
                    self,
                ).bg_entry(x).1),
            final(self).term != Term::GBC ==> forall|x: int, k: int| 0 <= x < 160 && 0 <= k < 3 ==> final(self).data@[
                pixel_index(final(self).ly as int, x, k)] == gray_of(final(self).bgp, final(self).prio@[x].1),
            final(self).term == Term::GBC ==> forall|x: int|
                0 <= x < 160 ==> #[trigger] final(self).pixel(x) == ({
                    let e = old(self).bg_entry(x);
                    let k = ((e.0 & 0x07) as int * 4 + e.1 as int) * 3;
                    cgb_rgb(old(self).cbgpd@[k], old(self).cbgpd@[k + 1], old(self).cbgpd@[k + 2])
                }),
            forall|y: int, x: int, k: int| 0 <= y < 144 && y != final(self).ly && 0 <= x < 160 && 0 <= k < 3 ==> final(self).data@[
                pixel_index(y, x, k)] == old(self).data@[pixel_index(y, x, k)],
    {
        let mut x: usize = 0;
        while x < SCREEN_W
            invariant
                self.wf(),
                x <= SCREEN_W,
                self.same_regs(old(self)),
                self.ly < 144,
                forall|j: int| 0 <= j < x ==> self.prio@[j].1 < 4,
                forall|j: int|
                    0 <= j < x ==> #[trigger] self.prio@[j] == (old(self).bg_entry(j).0 & 0x80 != 0, old(self).bg_entry(
                        j,
                    ).1),
                self.term != Term::GBC ==> forall|j: int, k: int| 0 <= j < x && 0 <= k < 3 ==> self.data@[pixel_index(
                    self.ly as int, j, k)] == gray_of(self.bgp, self.prio@[j].1),
                self.term == Term::GBC ==> forall|j: int|
                    0 <= j < x ==> #[trigger] self.pixel(j) == ({
                        let e = old(self).bg_entry(j);
                        let k = ((e.0 & 0x07) as int * 4 + e.1 as int) * 3;
                        cgb_rgb(old(self).cbgpd@[k], old(self).cbgpd@[k + 1], old(self).cbgpd@[k + 2])
                    }),
                forall|y: int, j: int, k: int| 0 <= y < 144 && y != self.ly && 0 <= j < 160 && 0 <= k < 3 ==> self.data@[
                    pixel_index(y, j, k)] == old(self).data@[pixel_index(y, j, k)],
            decreases SCREEN_W - x,
        {
            let ghost pre = *self;
            let (attr_byte, color) = self.bg_fetch(x);
            let tile_attr = attr_of(attr_byte);
            self.prio.set(x, (tile_attr.priority, color));
            if self.term == Term::GBC {
                let base = (tile_attr.palette_number_1 * 4 + color as usize) * 3;
                let r = self.cbgpd[base];
                let g = self.cbgpd[base + 1];
                let b = self.cbgpd[base + 2];
                self.set_rgb(x, r, g, b);
                assert forall|j: int| 0 <= j < x + 1 implies #[trigger] self.pixel(j) == ({
                    let e = old(self).bg_entry(j);
                    let k = ((e.0 & 0x07) as int * 4 + e.1 as int) * 3;
                    cgb_rgb(old(self).cbgpd@[k], old(self).cbgpd@[k + 1], old(self).cbgpd@[k + 2])
                }) by {
                    if j < x {
                        assert(self.pixel(j) == pre.pixel(j));
                    }
                }
            } else {
                let shade = Self::get_gray_shades(self.bgp, color).value();
                self.set_gre(x, shade);
            }
            x = x + 1;
        }
    }

    /// Fetches the attribute byte and color index of the background or window at column `x`.
    fn bg_fetch(&self, x: usize) -> (r: (u8, u8))
        requires
            self.wf(),
            x < 160,
        ensures
            r == self.bg_entry(x as int),
            r.1 < 4,
    {
        let show_window = self.lcdc.get_bit(5) && self.wy <= self.ly;
        let tile_base: usize = if self.lcdc.get_bit(4) { 0x8000 } else { 0x8800 };
        let wx = ((self.wx as u16 + 249) % 256) as u8;
        let py: u8 = if show_window { self.ly - self.wy } else { ((self.sy as u16 + self.ly as u16) % 256) as u8 };
        let ty: usize = ((py >> 3u8) & 31) as usize;
        proof { crate::bits::lemma_u8_fields(py); }
        let in_window = show_window && x as u8 >= wx;
        let px: u8 = if in_window { x as u8 - wx } else { ((self.sx as u16 + x as u16) % 256) as u8 };
        let tx: usize = ((px >> 3u8) & 31) as usize;
        proof { crate::bits::lemma_u8_fields(px); }
        let bg_base: usize = if in_window {
            if self.lcdc.get_bit(6) { 0x9c00 } else { 0x9800 }
        } else if self.lcdc.get_bit(3) {
            0x9c00
        } else {
            0x9800
        };
        let tile_addr = bg_base + ty * 32 + tx;
        let tile_number = self.get_ram0(tile_addr);
        let tile_offset: usize = if self.lcdc.get_bit(4) {
            tile_number as usize * 16
        } else {
            (tile_number ^ 0x80) as usize * 16
        };
        let tile_location = tile_base + tile_offset;
        let attr_byte: u8 = if self.term == Term::GBC { self.get_ram1(tile_addr) } else { 0 };
        let tile_attr = attr_of(attr_byte);
        let tile_y: u8 = if tile_attr.yflip { 7 - py % 8 } else { py % 8 };
        let row = tile_location + tile_y as usize * 2;
        let (lo, hi) = if self.term == Term::GBC && tile_attr.bank {
            (self.get_ram1(row), self.get_ram1(row + 1))
        } else {
            (self.get_ram0(row), self.get_ram0(row + 1))
        };
        let tile_x: u8 = if tile_attr.xflip { 7 - px % 8 } else { px % 8 };
        let color = Self::tile_color(lo, hi, tile_x);
        (attr_byte, color)
    }

    /// Where sprite `i` starts on the screen: X and Y from OAM less 8 and 16, modulo 256.
    pub open spec fn sprite_x(&self, i: int) -> u8 {
        ((self.oam@[i * 4 + 1] as int + 248) % 256) as u8
    }

    pub open spec fn sprite_y(&self, i: int) -> u8 {
        ((self.oam@[i * 4] as int + 240) % 256) as u8
    }

    /// The color sprite `i` puts at column `x` of the current line, if it covers it with a
    /// non-transparent pixel that priority does not hide. Sprites are 8 or 16 (LCDC bit 2) rows
    /// tall; the attribute byte flips them (bits 6, 5), picks the VRAM bank on CGB (bit 3), puts
    /// them behind the background (bit 7) and picks the palette: OBP1 or OBP0 by bit 4 on DMG,
    /// OCPD palette bits 0-2 on CGB. On CGB with LCDC bit 0 clear sprites always win.
    pub open spec fn sprite_color(&self, i: int, x: int) -> Option<(u8, u8, u8)> {
        let tall = self.lcdc.bit(2);
        let size: int = if tall { 16 } else { 8 };
        let px = self.sprite_x(i);
        let tile = self.oam@[i * 4 + 2] & (if tall { 0xfeu8 } else { 0xffu8 });
        let attr = self.oam@[i * 4 + 3];
        let dy = (self.ly as int - self.sprite_y(i) as int + 256) % 256;
        let j = (x - px as int + 256) % 256;
        let cgb = self.term == Term::GBC;
        if !(dy < size) || (px >= 160 && px <= 0xf8) || !(j < 8) {
            None
        } else {
            let ty = if attr & 0x40 != 0 { size - 1 - dy } else { dy };
            let addr = 0x8000 + tile as int * 16 + ty * 2;
            let bank1 = cgb && attr & 0x08 != 0;
            let lo = if bank1 { byte_at(self.ram@, addr - 0x6000) } else { byte_at(self.ram@, addr - 0x8000) };
            let hi = if bank1 { byte_at(self.ram@, addr + 1 - 0x6000) } else { byte_at(self.ram@, addr + 1 - 0x8000) };
            let tx = if attr & 0x20 != 0 { 7 - j } else { j };
            let color = Self::color_of(lo, hi, tx as u8);
            let pr = self.prio@[x];
            let hidden = if cgb && !self.lcdc.bit(0) {
                false
            } else if pr.0 {
                pr.1 != 0
            } else {
                attr & 0x80 != 0 && pr.1 != 0
            };
            if color == 0 || hidden {
                None
            } else if cgb {
                let k = ((attr & 0x07) as int * 4 + color as int) * 3;
                Some(cgb_rgb(self.cobpd@[k], self.cobpd@[k + 1], self.cobpd@[k + 2]))
            } else {
                let g = gray_of(if attr & 0x10 != 0 { self.op1 } else { self.op0 }, color);
                Some((g, g, g))
            }
        }
    }

    /// The color the first `k` sprites put at column `x`: the last of them that shows there.
    pub open spec fn sprite_layer(&self, k: nat, x: int) -> Option<(u8, u8, u8)>
        decreases k,
    {
        if k == 0 {
            None
        } else {
            match self.sprite_color(k - 1, x) {
                Some(c) => Some(c),
                None => self.sprite_layer((k - 1) as nat, x),
            }
        }
    }

    /// The pixel at column `x` of the current line.
    pub open spec fn pixel(&self, x: int) -> (u8, u8, u8) {
        (
            self.data@[pixel_index(self.ly as int, x, 0)],
            self.data@[pixel_index(self.ly as int, x, 1)],
            self.data@[pixel_index(self.ly as int, x, 2)],
        )
    }

    /// Renders the sprites that cover the current line over the background: each pixel takes
    /// the color of the last of the 40 sprites that shows there, or stays as it was.
    #[verifier::rlimit(100)]
    fn draw_sprites(&mut self)
        requires
            old(self).wf(),
            old(self).ly < 144,
        ensures
            final(self).wf(),
            final(self).same_regs(old(self)),
            final(self).prio == old(self).prio,
            forall|x: int|
                0 <= x < 160 ==> #[trigger] final(self).pixel(x) == match old(self).sprite_layer(40, x) {
                    Some(c) => c,
                    None => old(self).pixel(x),
                },
            forall|y: int, x: int, k: int| 0 <= y < 144 && y != final(self).ly && 0 <= x < 160 && 0 <= k < 3 ==> final(self).data@[
                pixel_index(y, x, k)] == old(self).data@[pixel_index(y, x, k)],
    {
        let tall = self.lcdc.get_bit(2);
        let sprite_size: u8 = if tall { 16 } else { 8 };
        let mut i: usize = 0;
        while i < 40
            invariant
                self.wf(),
                i <= 40,
                tall == old(self).lcdc.bit(2),
                sprite_size == if tall { 16u8 } else { 8u8 },
                self.same_regs(old(self)),
                self.ly < 144,
                self.prio == old(self).prio,
                forall|x: int|
                    0 <= x < 160 ==> #[trigger] self.pixel(x) == match old(self).sprite_layer(i as nat, x) {
                        Some(c) => c,
                        None => old(self).pixel(x),
                    },
                forall|y: int, j: int, k: int| 0 <= y < 144 && y != self.ly && 0 <= j < 160 && 0 <= k < 3 ==> self.data@[
                    pixel_index(y, j, k)] == old(self).data@[pixel_index(y, j, k)],
            decreases 40 - i,
        {
            let sprite_addr = i * 4;
            let py = ((self.oam[sprite_addr] as u16 + 240) % 256) as u8;
            let px = ((self.oam[sprite_addr + 1] as u16 + 248) % 256) as u8;
            let tile_number = self.oam[sprite_addr + 2] & if tall { 0xfe } else { 0xff };
            let attr_byte = self.oam[sprite_addr + 3];
            let tile_attr = attr_of(attr_byte);
            let dy = ((self.ly as u16 + 256 - py as u16) % 256) as u8;
            let on_line = dy < sprite_size;
            let on_screen = !(px >= 160 && px <= 0xff - 7);
            let ghost layer_i = |x: int| match old(self).sprite_layer(i as nat, x) {
                Some(c) => c,
                None => old(self).pixel(x),
            };
            if on_line && on_screen {
                let tile_y: u8 = if tile_attr.yflip { sprite_size - 1 - dy } else { dy };
                let tile_y_addr: usize = 0x8000 + tile_number as usize * 16 + tile_y as usize * 2;
                let (lo, hi) = if self.term == Term::GBC && tile_attr.bank {
                    (self.get_ram1(tile_y_addr), self.get_ram1(tile_y_addr + 1))
                } else {
                    (self.get_ram0(tile_y_addr), self.get_ram0(tile_y_addr + 1))
                };
                let mut x: u8 = 0;
                while x < 8
                    invariant
                        self.wf(),
                        x <= 8,
                        tile_attr.palette_number_1 < 8,
                        tile_attr.palette_number_1 == (attr_byte & 0x07) as usize,
                        tile_attr.xflip == (attr_byte & 0x20 != 0),
                        tile_attr.priority == (attr_byte & 0x80 != 0),
                        tile_attr.palette_number_0 == (attr_byte & 0x10 != 0),
                        i < 40,
                        attr_byte == old(self).oam@[i * 4 + 3],
                        px == old(self).sprite_x(i as int),
                        dy < sprite_size,
                        !(px >= 160 && px <= 0xf8),
                        dy as int == (old(self).ly as int - old(self).sprite_y(i as int) as int + 256) % 256,
                        lo == (if old(self).term == Term::GBC && attr_byte & 0x08 != 0 {
                            byte_at(old(self).ram@, tile_y_addr - 0x6000)
                        } else {
                            byte_at(old(self).ram@, tile_y_addr - 0x8000)
                        }),
                        hi == (if old(self).term == Term::GBC && attr_byte & 0x08 != 0 {
                            byte_at(old(self).ram@, tile_y_addr + 1 - 0x6000)
                        } else {
                            byte_at(old(self).ram@, tile_y_addr + 1 - 0x8000)
                        }),
                        tile_y_addr == 0x8000 + (old(self).oam@[i * 4 + 2] & (if tall { 0xfeu8 } else { 0xffu8 })) as int * 16
                            + (if attr_byte & 0x40 != 0 { sprite_size as int - 1 - dy as int } else { dy as int }) * 2,
                        tall == old(self).lcdc.bit(2),
                        sprite_size == if tall { 16u8 } else { 8u8 },
                        self.same_regs(old(self)),
                        self.ly < 144,
                        self.prio == old(self).prio,
                        forall|c: int|
                            0 <= c < 160 ==> #[trigger] self.pixel(c) == if (c - px as int + 256) % 256 < x && old(
                                self,
                            ).sprite_color(i as int, c) is Some {
                                old(self).sprite_color(i as int, c)->Some_0
                            } else {
                                layer_i(c)
                            },
                        forall|y: int, j: int, k: int| 0 <= y < 144 && y != self.ly && 0 <= j < 160 && 0 <= k < 3 ==> self.data@[
                            pixel_index(y, j, k)] == old(self).data@[pixel_index(y, j, k)],
                    decreases 8 - x,
                {
                    let ghost pre = *self;
                    let col16: u16 = (px as u16 + x as u16) % 256;
                    let col = col16 as u8;
                    proof {
                        assert((col16 as int - px as int + 256) % 256 == x as int) by (nonlinear_arith)
                            requires
                                col16 as int == (px as int + x as int) % 256,
                                x < 8,
                                px < 256,
                        ;
                        assert forall|c: int| #![trigger self.pixel(c)] 0 <= c < 160 && c != col16 as int implies (c - px as int + 256) % 256
                            != x as int by {
                            assert((c - px as int + 256) % 256 != x as int) by (nonlinear_arith)
                                requires
                                    col16 as int == (px as int + x as int) % 256,
                                    c != col16 as int,
                                    0 <= c < 160,
                                    x < 8,
                                    px < 256,
                            ;
                        }
                    }
                    if col < 160 {
                        let tile_x: u8 = if tile_attr.xflip { 7 - x } else { x };
                        let color = Self::tile_color(lo, hi, tile_x);
                        if color != 0 {
                            let prio = self.prio[col as usize];
                            let skip = if self.term == Term::GBC && !self.lcdc.get_bit(0) {
                                false
                            } else if prio.0 {
                                prio.1 != 0
                            } else {
                                tile_attr.priority && prio.1 != 0
                            };
                            if !skip {
                                if self.term == Term::GBC {
                                    let base = (tile_attr.palette_number_1 * 4 + color as usize) * 3;
                                    let r = self.cobpd[base];
                                    let g = self.cobpd[base + 1];
                                    let b = self.cobpd[base + 2];
                                    self.set_rgb(col as usize, r, g, b);
                                } else {
                                    let pal = if tile_attr.palette_number_0 { self.op1 } else { self.op0 };
                                    let shade = Self::get_gray_shades(pal, color).value();
                                    self.set_gre(col as usize, shade);
                                }
                            } else {
                            }
                        }
                    }
                    proof {
                        assert forall|c: int| 0 <= c < 160 implies #[trigger] self.pixel(c) == if (c - px as int + 256) % 256
                            < x + 1 && old(self).sprite_color(i as int, c) is Some {
                            old(self).sprite_color(i as int, c)->Some_0
                        } else {
                            layer_i(c)
                        } by {
                            if c != col16 as int {
                                assert(self.pixel(c) == pre.pixel(c));
                                assert(pre.pixel(c) == if (c - px as int + 256) % 256 < x && old(self).sprite_color(i as int, c) is Some {
                                    old(self).sprite_color(i as int, c)->Some_0
                                } else {
                                    layer_i(c)
                                });
                                assert((c - px as int + 256) % 256 != x as int);
                            }
                        }
                    }
                    x = x + 1;
                }
            }
            assert forall|c: int| 0 <= c < 160 implies #[trigger] self.pixel(c) == match old(self).sprite_layer((i + 1) as nat, c) {
                Some(cc) => cc,
                None => old(self).pixel(c),
            } by {
                assert(old(self).sprite_layer((i + 1) as nat, c) == match old(self).sprite_color(i as int, c) {
                    Some(cc) => Some(cc),
                    None => old(self).sprite_layer(i as nat, c),
                });
            }
            i = i + 1;
        }
    }

    /// Advances the dot counter by `cycles` in steps of at most 80 dots, moving LY on at each
    /// 456-dot line end, switching modes, requesting VBlank and LCDStat interrupts, and
    /// rendering each visible line as it enters H-blank. Nothing happens while the LCD is off.
    #[verifier::rlimit(100)]
    pub fn next(&mut self, intf: &mut Intf, cycles: u32)
        requires
            old(self).wf(),
        ensures
            final(self).wf(),
            final(self).term == old(self).term,
            final(self).lcdc == old(self).lcdc,
            final(self).ram@ == old(self).ram@,
            final(self).oam@ == old(self).oam@,
            !old(self).lcdc.bit(7) ==> final(self).ly == old(self).ly && final(self).dots == old(self).dots
                && final(intf).data == old(intf).data,
            old(self).lcdc.bit(7) ==> final(self).dots as int == (old(self).dots as int + cycles as int) % 456,
            old(self).lcdc.bit(7) ==> final(self).vblanks@ == old(self).vblanks@ + vblank_count(
                old(self).ly as int,
                ((old(self).dots as int + cycles as int) / 456) as nat,
            ),
            !old(self).lcdc.bit(7) ==> final(self).vblanks == old(self).vblanks,
            old(self).lcdc.bit(7) && vblank_count(old(self).ly as int, ((old(self).dots as int + cycles as int) / 456) as nat)
                > 0 ==> final(intf).data & 0x01 != 0 && final(self).v_blank,
            old(self).lcdc.bit(7) && cycles > 0 ==> final(self).stat.mode == mode_of(final(self).ly, final(self).dots),
            old(self).lcdc.bit(7) && old(self).term != Term::GBC && old(self).lcdc.bit(0) && !old(self).lcdc.bit(1)
                && old(self).ly < 144 && old(self).dots < 172 && 252 <= old(self).dots + cycles < 456 ==> final(self).ly == old(self).ly && forall|x: int|
                0 <= x < 160 ==> #[trigger] final(self).pixel(x) == rendered_gray(*old(self), x),
            old(self).lcdc.bit(7) ==> final(self).ly as int == (old(self).ly as int + (old(self).dots as int
                + cycles as int) / 456) % 154,
            final(intf).data & old(intf).data == old(intf).data,
            final(intf).data | 0x03 == old(intf).data | 0x03,
    {
        proof { crate::bits::lemma_u8_fields(intf.data); }
        if !self.lcdc.get_bit(7) {
            return;
        }
        self.h_blank = false;
        if cycles == 0 {
            return;
        }
        let c: u32 = (cycles - 1) / 80 + 1;
        let ghost d0 = self.dots as int;
        let ghost ly0 = self.ly as int;
        let ghost intf0 = intf.data;
        let ghost vb0 = self.vblanks@;
        let ghost cond = old(self).lcdc.bit(7) && old(self).term != Term::GBC && old(self).lcdc.bit(0) && !old(self).lcdc.bit(1)
            && old(self).ly < 144 && old(self).dots < 172 && 252 <= old(self).dots + cycles < 456;
        let mut done: u32 = 0;
        let mut i: u32 = 0;
        while i < c
            invariant
                self.wf(),
                c == (cycles - 1) / 80 + 1,
                i <= c,
                done == 80 * i || (i == c && done == cycles),
                done <= cycles,
                self.term == old(self).term,
                self.lcdc == old(self).lcdc,
                self.ram@ == old(self).ram@,
                self.oam@ == old(self).oam@,
                self.dots as int == (d0 + done) % 456,
                self.ly as int == (ly0 + (d0 + done) / 456) % 154,
                self.vblanks@ == vb0 + vblank_count(ly0, ((d0 + done) / 456) as nat),
                self.vblanks@ > vb0 ==> intf.data & 0x01 != 0 && self.v_blank,
                i > 0 ==> self.stat.mode == mode_of(self.ly, self.dots),
                d0 == old(self).dots as int && ly0 == old(self).ly as int,
                cond == (old(self).lcdc.bit(7) && old(self).term != Term::GBC && old(self).lcdc.bit(0) && !old(self).lcdc.bit(1)
                    && old(self).ly < 144 && old(self).dots < 172 && 252 <= old(self).dots + cycles < 456),
                cond ==> self.term == old(self).term && self.lcdc == old(self).lcdc && self.bgp == old(self).bgp
                    && self.ly == old(self).ly,
                cond && d0 + done >= 252 ==> forall|x: int|
                    0 <= x < 160 ==> #[trigger] self.pixel(x) == rendered_gray(*old(self), x),
                cond ==> old(self).wy == self.wy && old(self).wx == self.wx && old(self).sy == self.sy && old(self).sx
                    == self.sx && old(self).ram@ == self.ram@,
                intf.data & intf0 == intf0,
                intf.data | 0x03 == intf0 | 0x03,
                0 <= d0 < 456,
                0 <= ly0 < 154,
            decreases c - i,
        {
            let ghost head = *self;
            let ghost done0 = done as int;
            let step: u32 = if i == c - 1 { cycles - done } else { 80 };
            assert(step <= 80) by (nonlinear_arith)
                requires
                    step == (if i == c - 1 { cycles - done } else { 80 }),
                    c == (cycles - 1) / 80 + 1,
                    done == 80 * i,
                    i < c,
                    cycles >= 1,
            ;
            proof {
                lemma_dot_advance(d0, ly0, done as int, step as int);
            }
            self.dots = self.dots + step;
            let d = self.dots;
            self.dots = self.dots % 456;
            if d != self.dots {
                self.ly = (self.ly + 1) % 154;
                if self.stat.enable_ly_interrupt && self.ly == self.lc {
                    raise(intf, Flag::LCDStat, Ghost(intf0));
                }
            }
            done = done + step;
            proof {
                assert(done <= cycles) by (nonlinear_arith)
                    requires
                        step == (if i == c - 1 { cycles - (80 * i) } else { 80 }),
                        done == 80 * i + step,
                        c == (cycles - 1) / 80 + 1,
                        i < c,
                        cycles >= 1,
                ;
                if cond {
                    assert((ly0 + (d0 + done) / 456) % 154 == ly0) by (nonlinear_arith)
                        requires 0 <= d0 + done < 456, 0 <= ly0 < 154;
                }
            }
            assert(i + 1 < c ==> done == 80 * (i + 1)) by (nonlinear_arith)
                requires
                    step == (if i == c - 1 { cycles - (80 * i) } else { 80 }),
                    done == 80 * i + step,
            ;
            if self.ly >= 144 {
                if self.stat.mode != 1 {
                    self.stat.mode = 1;
                    self.v_blank = true;
                    raise(intf, Flag::VBlank, Ghost(intf0));
                    self.vblanks = Ghost(self.vblanks@ + 1);
                    if self.stat.enable_m1_interrupt {
                        raise(intf, Flag::LCDStat, Ghost(intf0));
                    }
                }
            } else if self.dots < 80 {
                if self.stat.mode != 2 {
                    self.stat.mode = 2;
                    if self.stat.enable_m2_interrupt {
                        raise(intf, Flag::LCDStat, Ghost(intf0));
                    }
                }
            } else if self.dots < 80 + 172 {
                self.stat.mode = 3;
            } else if self.stat.mode != 0 {
                self.stat.mode = 0;
                self.h_blank = true;
                if self.stat.enable_m0_interrupt {
                    raise(intf, Flag::LCDStat, Ghost(intf0));
                }
                if self.term == Term::GBC || self.lcdc.get_bit(0) {
                    let ghost before = *self;
                    self.draw_bg();
                    proof {
                        if cond {
                            assert forall|x: int| 0 <= x < 160 implies #[trigger] self.pixel(x) == rendered_gray(*old(self), x) by {
                                assert(before.bg_entry(x) == old(self).bg_entry(x));
                                assert(self.prio@[x].1 == old(self).bg_entry(x).1);
                            }
                        }
                    }
                }
                if self.lcdc.get_bit(1) {
                    self.draw_sprites();
                }
            }
            proof {
                if cond && d0 + done >= 252 && d0 + done0 >= 252 {
                    assert forall|x: int| 0 <= x < 160 implies #[trigger] self.pixel(x) == rendered_gray(*old(self), x) by {
                        assert(self.pixel(x) == head.pixel(x));
                    }
                }
            }
            i = i + 1;
        }
    }
}

/// The DMG pixel that the background puts at column `x` of the current line of `g`.
pub open spec fn rendered_gray(g: Gpu, x: int) -> (u8, u8, u8) {
    let v = gray_of(g.bgp, g.bg_entry(x).1);
    (v, v, v)
}

/// The mode of a visible or blank line at a dot: 2 (OAM scan) for dots 0-79, 3 (transfer)
/// for 80-251, 0 (H-blank) after; 1 (V-blank) on lines 144-153.
pub open spec fn mode_of(ly: u8, dots: u32) -> u8 {
    if ly >= 144 {
        1
    } else if dots < 80 {
        2
    } else if dots < 252 {
        3
    } else {
        0
    }
}

/// How many of the first `k` line changes from line `ly` enter line 144, where VBlank starts.
pub open spec fn vblank_count(ly: int, k: nat) -> nat
    decreases k,
{
    if k == 0 {
        0
    } else {
        vblank_count(ly, (k - 1) as nat) + if (ly + k) % 154 == 144 {
            1nat
        } else {
            0nat
        }
    }
}

/// Over 154 line changes from line `ly`, VBlank starts once, at the change numbered `j0`.
proof fn lemma_vblank_count(ly: int, k: nat)
    requires
        0 <= ly < 154,
        k <= 154,
    ensures
        vblank_count(ly, k) == if k >= (if ly < 144 { 144 - ly } else { 298 - ly }) {
            1nat
        } else {
            0nat
        },
    decreases k,
{
    if k > 0 {
        lemma_vblank_count(ly, (k - 1) as nat);
        let t = ly + k;
        assert(t % 154 == if t < 154 { t } else { t - 154 }) by (nonlinear_arith)
            requires 1 <= t < 308;
    }
}

/// With the LCD on, over one frame period of 70224 cycles the PPU requests VBlank exactly once,
/// whatever line and dot it starts from.
pub proof fn lemma_one_vblank_per_frame(ly: u8, dots: u32)
    requires
        ly < 154,
        dots < 456,
    ensures
        vblank_count(ly as int, ((dots as int + 70224) / 456) as nat) == 1,
{
    lemma_frame_period(ly, dots);
    assert((dots as int + 70224) / 456 == 154) by (nonlinear_arith)
        requires dots < 456;
    lemma_vblank_count(ly as int, 154);
}

/// Requests a VBlank or LCDStat interrupt; no other line of IF changes.
fn raise(intf: &mut Intf, f: Flag, base: Ghost<u8>)
    requires
        f == Flag::VBlank || f == Flag::LCDStat,
        old(intf).data & base@ == base@,
        old(intf).data | 0x03 == base@ | 0x03,
    ensures
        final(intf).data == old(intf).data | flag_mask(f),
        final(intf).data & base@ == base@,
        final(intf).data | 0x03 == base@ | 0x03,
        f == Flag::VBlank || old(intf).data & 0x01 != 0 ==> final(intf).data & 0x01 != 0,
{
    let ghost d = intf.data;
    let ghost b = base@;
    intf.hi(f);
    assert(((d | 0x01) & b == b) && ((d | 0x01) | 0x03 == b | 0x03) && ((d | 0x02) & b == b) && ((d | 0x02) | 0x03
        == b | 0x03) && (d | 0x01) & 0x01 != 0 && (d & 0x01 != 0 ==> (d | 0x02) & 0x01 != 0)) by (bit_vector)
        requires
            d & b == b,
            d | 0x03 == b | 0x03,
    ;
}

/// One step of at most 80 dots moves the line on exactly when the dot counter wraps.
proof fn lemma_dot_advance(d0: int, ly0: int, done: int, step: int)
    requires
        0 <= d0 < 456,
        0 <= ly0 < 154,
        done >= 0,
        0 <= step <= 80,
    ensures
        ((d0 + done) % 456 + step) % 456 == (d0 + done + step) % 456,
        ((d0 + done) % 456 + step >= 456) == ((d0 + done + step) / 456 == (d0 + done) / 456 + 1),
        ((d0 + done) % 456 + step < 456) == ((d0 + done + step) / 456 == (d0 + done) / 456),
        (((ly0 + (d0 + done) / 456) % 154) + 1) % 154 == (ly0 + (d0 + done) / 456 + 1) % 154,
{
    let t = d0 + done;
    assert(t == 456 * (t / 456) + t % 456) by (nonlinear_arith) requires t >= 0;
    assert(0 <= t % 456 < 456) by (nonlinear_arith) requires t >= 0;
    let q = t / 456;
    let r = t % 456;
    if r + step >= 456 {
        assert((t + step) / 456 == q + 1 && (t + step) % 456 == r + step - 456) by (nonlinear_arith)
            requires t == 456 * q + r, 0 <= r < 456, r + step >= 456, step <= 80, q >= 0;
    } else {
        assert((t + step) / 456 == q && (t + step) % 456 == r + step) by (nonlinear_arith)
            requires t == 456 * q + r, 0 <= r < 456, r + step < 456, step >= 0, q >= 0;
    }
    let u = ly0 + q;
    assert(((u % 154) + 1) % 154 == (u + 1) % 154) by (nonlinear_arith) requires u >= 0;
}


/// With the LCD on, 70224 cycles (154 lines of 456 dots) bring LY and the dot counter back
/// to where they were.
pub proof fn lemma_frame_period(ly: u8, dots: u32)
    requires
        ly < 154,
        dots < 456,
    ensures
        (dots as int + 70224) % 456 == dots as int,
        (ly as int + (dots as int + 70224) / 456) % 154 == ly as int,
{
    assert((dots as int + 70224) % 456 == dots as int && (dots as int + 70224) / 456 == 154) by (nonlinear_arith)
        requires dots < 456;
    assert((ly as int + 154) % 154 == ly as int) by (nonlinear_arith)
        requires ly < 154;
}

/// VBlank requests over `a` and then `b` line changes add up to those over `a + b` from the
/// same line, so a frame split over several calls of `Gpu::next` still requests VBlank once;
/// LY moves on the same way whatever the split.
pub proof fn lemma_vblank_compose(ly: int, a: nat, b: nat)
    requires
        0 <= ly,
    ensures
        vblank_count(ly, a + b) == vblank_count(ly, a) + vblank_count((ly + a) % 154, b),
        ((ly + a) % 154 + b) % 154 == (ly + a + b) % 154,
    decreases b,
{
    let x = ly + a;
    assert(((x % 154) + b) % 154 == (x + b) % 154) by (nonlinear_arith)
        requires x >= 0;
    if b > 0 {
        lemma_vblank_compose(ly, a, (b - 1) as nat);
        assert((a + b - 1) as nat == a + (b - 1) as nat);
        assert(((x % 154) + b) % 154 == (ly + (a + b)) % 154);
    }
}

} // verus!
