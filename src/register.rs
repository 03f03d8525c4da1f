use crate::convention::Term;
use vstd::prelude::*;

verus! {

/// The four flags of F.
#[derive(Clone, Copy, Debug, PartialEq, Eq, Structural)]
pub enum Flag {
    /// Carry (bit 4).
    C,
    /// Half carry (bit 5).
    H,
    /// Subtract (bit 6).
    N,
    /// Zero (bit 7).
    Z,
}

/// The bit of F that holds `f`.
pub open spec fn flag_mask(f: Flag) -> u8 {
    match f {
        Flag::C => 0x10,
        Flag::H => 0x20,
        Flag::N => 0x40,
        Flag::Z => 0x80,
    }
}

/// The 16-bit value of a register pair with high byte `h` and low byte `l`.
pub open spec fn pair(h: u8, l: u8) -> u16 {
    ((h as u16) << 8u16) | (l as u16)
}

/// The register file of the CPU.
#[derive(Clone, Copy)]
pub struct Register {
    pub a: u8,
    pub f: u8,
    pub b: u8,
    pub c: u8,
    pub d: u8,
    pub e: u8,
    pub h: u8,
    pub l: u8,
    pub sp: u16,
    pub pc: u16,
}

impl Register {
    /// The low nibble of F always reads as zero.
    pub open spec fn wf(&self) -> bool {
        self.f & 0x0f == 0
    }

    /// Whether flag `f` is set in F.
    pub open spec fn flag(&self, f: Flag) -> bool {
        self.f & flag_mask(f) != 0
    }

    /// Post-boot register values of each model.
    pub open spec fn power_up_spec(term: Term) -> Register {
        Register {
            a: match term {
                Term::GB => 0x01u8,
                Term::GBP => 0xffu8,
                Term::GBC => 0x11u8,
                Term::SGB => 0x01u8,
            },
            f: 0xb0,
            b: 0x00,
            c: 0x13,
            d: 0x00,
            e: 0xd8,
            h: 0x01,
            l: 0x4d,
            sp: 0xfffe,
            pc: 0x0100,
        }
    }

    pub fn power_up(term: Term) -> (r: Self)
        ensures
            r == Self::power_up_spec(term),
            r.wf(),
    {
        let a: u8 = match term {
            Term::GB => 0x01,
            Term::GBP => 0xff,
            Term::GBC => 0x11,
            Term::SGB => 0x01,
        };
        let r = Self { a, f: 0xb0, b: 0x00, c: 0x13, d: 0x00, e: 0xd8, h: 0x01, l: 0x4d, sp: 0xfffe, pc: 0x0100 };
        proof { crate::bits::lemma_constants(); }
        r
    }

    pub fn get_af(&self) -> (r: u16)
        ensures
            r == pair(self.a, self.f),
    {
        ((self.a as u16) << 8u16) | (self.f as u16)
    }

    pub fn get_bc(&self) -> (r: u16)
        ensures
            r == pair(self.b, self.c),
    {
        ((self.b as u16) << 8u16) | (self.c as u16)
    }

    pub fn get_de(&self) -> (r: u16)
        ensures
            r == pair(self.d, self.e),
    {
        ((self.d as u16) << 8u16) | (self.e as u16)
    }

    pub fn get_hl(&self) -> (r: u16)
        ensures
            r == pair(self.h, self.l),
    {
        ((self.h as u16) << 8u16) | (self.l as u16)
    }

    /// Writes AF; the low nibble of F is dropped.
    pub fn set_af(&mut self, v: u16)
        ensures
            final(self).a == (v >> 8) as u8,
            final(self).f == (v & 0x00f0) as u8,
            pair(final(self).a, final(self).f) == v & 0xfff0,
            final(self).wf(),
            final(self).b == old(self).b && final(self).c == old(self).c,
            final(self).d == old(self).d && final(self).e == old(self).e,
            final(self).h == old(self).h && final(self).l == old(self).l,
            final(self).sp == old(self).sp && final(self).pc == old(self).pc,
    {
        self.a = (v >> 8u16) as u8;
        self.f = (v & 0x00f0) as u8;
        proof { crate::bits::lemma_u16_split(v); }
    }

    pub fn set_bc(&mut self, v: u16)
        ensures
            pair(final(self).b, final(self).c) == v,
            final(self).b == (v >> 8) as u8,
            final(self).c == v as u8,
            final(self).a == old(self).a && final(self).f == old(self).f,
            final(self).d == old(self).d && final(self).e == old(self).e,
            final(self).h == old(self).h && final(self).l == old(self).l,
            final(self).sp == old(self).sp && final(self).pc == old(self).pc,
    {
        self.b = (v >> 8u16) as u8;
        self.c = v as u8;
        proof { crate::bits::lemma_u16_split(v); }
    }

    pub fn set_de(&mut self, v: u16)
        ensures
            pair(final(self).d, final(self).e) == v,
            final(self).d == (v >> 8) as u8,
            final(self).e == v as u8,
            final(self).a == old(self).a && final(self).f == old(self).f,
            final(self).b == old(self).b && final(self).c == old(self).c,
            final(self).h == old(self).h && final(self).l == old(self).l,
            final(self).sp == old(self).sp && final(self).pc == old(self).pc,
    {
        self.d = (v >> 8u16) as u8;
        self.e = v as u8;
        proof { crate::bits::lemma_u16_split(v); }
    }

    pub fn set_hl(&mut self, v: u16)
        ensures
            pair(final(self).h, final(self).l) == v,
            final(self).h == (v >> 8) as u8,
            final(self).l == v as u8,
            final(self).a == old(self).a && final(self).f == old(self).f,
            final(self).b == old(self).b && final(self).c == old(self).c,
            final(self).d == old(self).d && final(self).e == old(self).e,
            final(self).sp == old(self).sp && final(self).pc == old(self).pc,
    {
        self.h = (v >> 8u16) as u8;
        self.l = v as u8;
        proof { crate::bits::lemma_u16_split(v); }
    }

    pub fn get_flag(&self, f: Flag) -> (r: bool)
        ensures
            r == self.flag(f),
    {
        let m: u8 = match f {
            Flag::C => 0x10,
            Flag::H => 0x20,
            Flag::N => 0x40,
            Flag::Z => 0x80,
        };
        (self.f & m) != 0
    }

    /// Sets or clears one flag; F's low nibble stays zero.
    pub fn set_flag(&mut self, f: Flag, v: bool)
        requires
            old(self).wf(),
        ensures
            final(self).wf(),
            final(self).flag(f) == v,
            forall|g: Flag| g != f ==> final(self).flag(g) == old(self).flag(g),
            final(self).a == old(self).a,
            final(self).b == old(self).b && final(self).c == old(self).c,
            final(self).d == old(self).d && final(self).e == old(self).e,
            final(self).h == old(self).h && final(self).l == old(self).l,
            final(self).sp == old(self).sp && final(self).pc == old(self).pc,
    {
        let m: u8 = match f {
            Flag::C => 0x10,
            Flag::H => 0x20,
            Flag::N => 0x40,
            Flag::Z => 0x80,
        };
        let old_f = self.f;
        if v {
            self.f = self.f | m;
        } else {
            self.f = self.f & !m;
        }
        let nf = self.f;
        assert(m == 0x10 || m == 0x20 || m == 0x40 || m == 0x80);
        assert(nf & 0x0f == 0 && ((nf & m != 0) == v)
            && ((nf & 0x10 != 0) == (if m == 0x10 { v } else { old_f & 0x10 != 0 }))
            && ((nf & 0x20 != 0) == (if m == 0x20 { v } else { old_f & 0x20 != 0 }))
            && ((nf & 0x40 != 0) == (if m == 0x40 { v } else { old_f & 0x40 != 0 }))
            && ((nf & 0x80 != 0) == (if m == 0x80 { v } else { old_f & 0x80 != 0 }))) by (bit_vector)
            requires
                old_f & 0x0f == 0,
                m == 0x10 || m == 0x20 || m == 0x40 || m == 0x80,
                nf == (if v { old_f | m } else { old_f & !m }),
        ;
    }
}


/// Writing a pair and reading it back gives the written value; for AF the low nibble of F
/// reads back as zero.
pub proof fn lemma_pair_round_trip(v: u16)
    ensures
        pair((v >> 8) as u8, v as u8) == v,
        pair((v >> 8) as u8, (v & 0x00f0) as u8) == v & 0xfff0,
{
    crate::bits::lemma_u16_split(v);
}

} // verus!
