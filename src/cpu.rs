use crate::convention::Term;
use crate::mmunit::{stack_ram, Mmunit};
use crate::register::{pair, Flag, Register};
use vstd::prelude::*;

verus! {

/// Machine cycles of each primary opcode (0 for the prefix byte and for invalid opcodes).
pub open spec fn op_cycles() -> Seq<u32> {
    seq![
        1u32, 3, 2, 2, 1, 1, 2, 1, 5, 2, 2, 2, 1, 1, 2, 1,
        0, 3, 2, 2, 1, 1, 2, 1, 3, 2, 2, 2, 1, 1, 2, 1,
        2, 3, 2, 2, 1, 1, 2, 1, 2, 2, 2, 2, 1, 1, 2, 1,
        2, 3, 2, 2, 3, 3, 3, 1, 2, 2, 2, 2, 1, 1, 2, 1,
        1, 1, 1, 1, 1, 1, 2, 1, 1, 1, 1, 1, 1, 1, 2, 1,
        1, 1, 1, 1, 1, 1, 2, 1, 1, 1, 1, 1, 1, 1, 2, 1,
        1, 1, 1, 1, 1, 1, 2, 1, 1, 1, 1, 1, 1, 1, 2, 1,
        2, 2, 2, 2, 2, 2, 1, 2, 1, 1, 1, 1, 1, 1, 2, 1,
        1, 1, 1, 1, 1, 1, 2, 1, 1, 1, 1, 1, 1, 1, 2, 1,
        1, 1, 1, 1, 1, 1, 2, 1, 1, 1, 1, 1, 1, 1, 2, 1,
        1, 1, 1, 1, 1, 1, 2, 1, 1, 1, 1, 1, 1, 1, 2, 1,
        1, 1, 1, 1, 1, 1, 2, 1, 1, 1, 1, 1, 1, 1, 2, 1,
        2, 3, 3, 4, 3, 4, 2, 4, 2, 4, 3, 0, 3, 6, 2, 4,
        2, 3, 3, 0, 3, 4, 2, 4, 2, 4, 3, 0, 3, 0, 2, 4,
        3, 3, 2, 0, 0, 4, 2, 4, 4, 1, 4, 0, 0, 0, 2, 4,
        3, 3, 2, 1, 0, 4, 2, 4, 3, 2, 4, 1, 0, 0, 2, 4,
    ]
}

fn op_cycles_table() -> (r: Vec<u32>)
    ensures
        r@ == op_cycles(),
{
    let r: Vec<u32> = vec![
        1, 3, 2, 2, 1, 1, 2, 1, 5, 2, 2, 2, 1, 1, 2, 1,
        0, 3, 2, 2, 1, 1, 2, 1, 3, 2, 2, 2, 1, 1, 2, 1,
        2, 3, 2, 2, 1, 1, 2, 1, 2, 2, 2, 2, 1, 1, 2, 1,
        2, 3, 2, 2, 3, 3, 3, 1, 2, 2, 2, 2, 1, 1, 2, 1,
        1, 1, 1, 1, 1, 1, 2, 1, 1, 1, 1, 1, 1, 1, 2, 1,
        1, 1, 1, 1, 1, 1, 2, 1, 1, 1, 1, 1, 1, 1, 2, 1,
        1, 1, 1, 1, 1, 1, 2, 1, 1, 1, 1, 1, 1, 1, 2, 1,
        2, 2, 2, 2, 2, 2, 1, 2, 1, 1, 1, 1, 1, 1, 2, 1,
        1, 1, 1, 1, 1, 1, 2, 1, 1, 1, 1, 1, 1, 1, 2, 1,
        1, 1, 1, 1, 1, 1, 2, 1, 1, 1, 1, 1, 1, 1, 2, 1,
        1, 1, 1, 1, 1, 1, 2, 1, 1, 1, 1, 1, 1, 1, 2, 1,
        1, 1, 1, 1, 1, 1, 2, 1, 1, 1, 1, 1, 1, 1, 2, 1,
        2, 3, 3, 4, 3, 4, 2, 4, 2, 4, 3, 0, 3, 6, 2, 4,
        2, 3, 3, 0, 3, 4, 2, 4, 2, 4, 3, 0, 3, 0, 2, 4,
        3, 3, 2, 0, 0, 4, 2, 4, 4, 1, 4, 0, 0, 0, 2, 4,
        3, 3, 2, 1, 0, 4, 2, 4, 3, 2, 4, 1, 0, 0, 2, 4,
    ];
    assert(r@ =~= op_cycles());
    r
}

/// Machine cycles of a CB-prefixed opcode: 2 for register operands; for (HL), 3 for BIT and
/// 4 for the others.
pub open spec fn cb_cycles(cb: u8) -> u32 {
    if cb & 0x07 != 0x06 {
        2
    } else if 0x40 <= cb < 0x80 {
        3
    } else {
        4
    }
}

/// Opcodes that do not exist on this CPU.
pub open spec fn invalid_opcode(op: u8) -> bool {
    op == 0xd3 || op == 0xdb || op == 0xdd || op == 0xe3 || op == 0xe4 || op == 0xeb || op == 0xec || op == 0xed
        || op == 0xf4 || op == 0xfc || op == 0xfd
}

/// Whether a conditional opcode's condition (NZ, Z, NC, C by bits 3-4) holds for flags `f`.
pub open spec fn condition(op: u8, f: u8) -> bool {
    let cc = (op >> 3) & 0x03;
    if cc == 0 {
        f & 0x80 == 0
    } else if cc == 1 {
        f & 0x80 != 0
    } else if cc == 2 {
        f & 0x10 == 0
    } else {
        f & 0x10 != 0
    }
}

/// Extra machine cycles of a taken conditional branch: 1 for JR and JP, 3 for RET and CALL.
pub open spec fn branch_bonus(op: u8, f: u8) -> u32 {
    if (op == 0x20 || op == 0x28 || op == 0x30 || op == 0x38 || op == 0xc2 || op == 0xca || op == 0xd2 || op
        == 0xda) && condition(op, f) {
        1
    } else if (op == 0xc0 || op == 0xc8 || op == 0xd0 || op == 0xd8 || op == 0xc4 || op == 0xcc || op == 0xd4
        || op == 0xdc) && condition(op, f) {
        3
    } else {
        0
    }
}

/// The number of the lowest set bit among the five interrupt lines of `p`.
pub open spec fn lowest_bit(p: u8) -> int {
    if p & 0x01 != 0 {
        0
    } else if p & 0x02 != 0 {
        1
    } else if p & 0x04 != 0 {
        2
    } else if p & 0x08 != 0 {
        3
    } else {
        4
    }
}

/// The F byte holding the four flags.
pub open spec fn flags_byte(z: bool, n: bool, h: bool, c: bool) -> u8 {
    (if z { 0x80u8 } else { 0u8 }) | (if n { 0x40u8 } else { 0u8 }) | (if h { 0x20u8 } else { 0u8 }) | (if c {
        0x10u8
    } else {
        0u8
    })
}

/// Register operand `i` of the B, C, D, E, H, L, -, A order (6 names (HL), a memory operand).
pub open spec fn r8_of(r: Register, i: u8) -> u8 {
    if i == 0 {
        r.b
    } else if i == 1 {
        r.c
    } else if i == 2 {
        r.d
    } else if i == 3 {
        r.e
    } else if i == 4 {
        r.h
    } else if i == 5 {
        r.l
    } else {
        r.a
    }
}

/// `r` with register operand `i` (not 6) set to `v`.
pub open spec fn with_r8(r: Register, i: u8, v: u8) -> Register {
    if i == 0 {
        Register { b: v, ..r }
    } else if i == 1 {
        Register { c: v, ..r }
    } else if i == 2 {
        Register { d: v, ..r }
    } else if i == 3 {
        Register { e: v, ..r }
    } else if i == 4 {
        Register { h: v, ..r }
    } else if i == 5 {
        Register { l: v, ..r }
    } else {
        Register { a: v, ..r }
    }
}

/// `r` after the opcode byte has been fetched.
pub open spec fn fetched(r: Register) -> Register {
    Register { pc: ((r.pc + 1) % 65536) as u16, ..r }
}

/// The carry flag of `r` as 0 or 1.
pub open spec fn carry_of(r: Register) -> int {
    if r.f & 0x10 != 0 {
        1
    } else {
        0
    }
}

/// The registers after 8-bit ALU operation `k` (ADD, ADC, SUB, SBC, AND, XOR, OR, CP) of A and `n`.
pub open spec fn alu_result(k: u8, r: Register, n: u8) -> Register {
    let a = r.a;
    let c = carry_of(r);
    if k == 0 {
        Register {
            a: ((a + n) % 256) as u8,
            f: flags_byte((a + n) % 256 == 0, false, (a & 0x0f) + (n & 0x0f) > 0x0f, a + n > 0xff),
            ..r
        }
    } else if k == 1 {
        Register {
            a: ((a + n + c) % 256) as u8,
            f: flags_byte((a + n + c) % 256 == 0, false, (a & 0x0f) + (n & 0x0f) + c > 0x0f, a + n + c > 0xff),
            ..r
        }
    } else if k == 2 {
        Register { a: ((a - n + 256) % 256) as u8, f: flags_byte(a == n, true, (a & 0x0f) < (n & 0x0f), a < n), ..r }
    } else if k == 3 {
        Register {
            a: ((a - n - c + 512) % 256) as u8,
            f: flags_byte((a - n - c + 512) % 256 == 0, true, (a & 0x0f) < (n & 0x0f) + c, a < n + c),
            ..r
        }
    } else if k == 4 {
        Register { a: a & n, f: flags_byte(a & n == 0, false, true, false), ..r }
    } else if k == 5 {
        Register { a: a ^ n, f: flags_byte(a ^ n == 0, false, false, false), ..r }
    } else if k == 6 {
        Register { a: a | n, f: flags_byte(a | n == 0, false, false, false), ..r }
    } else {
        Register { f: flags_byte(a == n, true, (a & 0x0f) < (n & 0x0f), a < n), ..r }
    }
}

/// The registers after INC of operand `i` (not 6): the carry is kept.
pub open spec fn inc_result(r: Register, i: u8) -> Register {
    let v = r8_of(r, i);
    let n = ((v + 1) % 256) as u8;
    with_r8(Register { f: flags_byte(n == 0, false, (v & 0x0f) + 1 > 0x0f, r.f & 0x10 != 0), ..r }, i, n)
}

/// The registers after DEC of operand `i` (not 6): the carry is kept.
pub open spec fn dec_result(r: Register, i: u8) -> Register {
    let v = r8_of(r, i);
    let n = ((v + 255) % 256) as u8;
    with_r8(Register { f: flags_byte(n == 0, true, v & 0x0f == 0, r.f & 0x10 != 0), ..r }, i, n)
}

/// The value of rotate/shift `y` (RLC, RRC, RL, RR, SLA, SRA, SWAP, SRL) of `v` with carry `c`.
pub open spec fn shift_value(y: u8, v: u8, c: int) -> u8 {
    if y == 0 {
        ((v << 1u8) as u8) | (v >> 7u8)
    } else if y == 1 {
        (v >> 1u8) | ((v << 7u8) as u8)
    } else if y == 2 {
        ((v << 1u8) as u8) | (c as u8)
    } else if y == 3 {
        (v >> 1u8) | ((((c as u8) << 7u8) as u8))
    } else if y == 4 {
        (v << 1u8) as u8
    } else if y == 5 {
        (v >> 1u8) | (v & 0x80)
    } else if y == 6 {
        (v >> 4u8) | ((v << 4u8) as u8)
    } else {
        v >> 1u8
    }
}

/// The carry out of rotate/shift `y` of `v`.
pub open spec fn shift_carry(y: u8, v: u8) -> bool {
    if y == 6 {
        false
    } else if y == 0 || y == 2 || y == 4 {
        v & 0x80 != 0
    } else {
        v & 0x01 != 0
    }
}

/// The value CB-prefixed opcode `cb` leaves in its operand `v` (for BIT, `v` itself).
pub open spec fn cb_value(cb: u8, v: u8, c: int) -> u8 {
    let x = cb >> 6u8;
    let y = (cb >> 3u8) & 0x07;
    if x == 0 {
        shift_value(y, v, c)
    } else if x == 1 {
        v
    } else if x == 2 {
        v & !((1u8 << y) as u8)
    } else {
        v | ((1u8 << y) as u8)
    }
}

/// The flags after CB-prefixed opcode `cb` on operand `v`; RES and SET keep them.
pub open spec fn cb_flags(cb: u8, v: u8, r: Register) -> u8 {
    let x = cb >> 6u8;
    let y = (cb >> 3u8) & 0x07;
    if x == 0 {
        let n = shift_value(y, v, carry_of(r));
        flags_byte(if y == 6 { v == 0 } else { n == 0 }, false, false, shift_carry(y, v))
    } else if x == 1 {
        flags_byte(v & ((1u8 << y) as u8) == 0, false, true, r.f & 0x10 != 0)
    } else {
        r.f
    }
}

/// The registers after CB-prefixed opcode `cb` on a register operand (operand bits not 6).
pub open spec fn cb_result(cb: u8, r: Register) -> Register {
    let x = cb >> 6u8;
    let y = (cb >> 3u8) & 0x07;
    let z = cb & 0x07;
    let v = r8_of(r, z);
    if x == 0 {
        let n = shift_value(y, v, carry_of(r));
        let zf = if y == 6 { v == 0 } else { n == 0 };
        with_r8(Register { f: flags_byte(zf, false, false, shift_carry(y, v)), ..r }, z, n)
    } else if x == 1 {
        Register { f: flags_byte(v & ((1u8 << y) as u8) == 0, false, true, r.f & 0x10 != 0), ..r }
    } else if x == 2 {
        with_r8(r, z, v & !((1u8 << y) as u8))
    } else {
        with_r8(r, z, v | ((1u8 << y) as u8))
    }
}

/// The destination of a relative jump by the signed byte `e` from `pc`.
pub open spec fn jr_dest(pc: u16, e: u8) -> u16 {
    ((pc + (if e < 0x80 { e as int } else { e as int - 256 }) + 65536) % 65536) as u16
}

/// Whether `op` is JR, JR cc or JP cc.
pub open spec fn is_jump(op: u8) -> bool {
    op == 0x18 || op == 0x20 || op == 0x28 || op == 0x30 || op == 0x38 || op == 0xc2 || op == 0xca || op == 0xd2
        || op == 0xda
}

/// PC after jump `op`, whose first operand byte is at `q`, taken from memory `m`.
pub open spec fn jump_dest(op: u8, f: u8, q: u16, m: Mmunit) -> u16 {
    if op == 0x18 {
        jr_dest(((q + 1) % 65536) as u16, m.peek(q))
    } else if op == 0x20 || op == 0x28 || op == 0x30 || op == 0x38 {
        if condition(op, f) {
            jr_dest(((q + 1) % 65536) as u16, m.peek(q))
        } else {
            ((q + 1) % 65536) as u16
        }
    } else if condition(op, f) {
        pair(m.peek(((q + 1) % 65536) as u16), m.peek(q))
    } else {
        ((q + 2) % 65536) as u16
    }
}

/// What one instruction does, from the CPU and bus before its opcode is fetched (`c0`, `m0`)
/// to the state after it ran (`c1`, `m1`): an invalid opcode changes nothing but PC; otherwise
/// register loads and 8-bit ALU operations between registers, INC and DEC of a register, loads
/// of an immediate byte or word, ADD HL, the accumulator rotates, PUSH and POP, CALL, RET, JP, JR,
/// JR cc and JP cc, HALT, NOP, DI, EI and CB-prefixed operations on registers.
#[verifier::opaque]
pub open spec fn instruction_effect(c0: Cpu, m0: Mmunit, c1: Cpu, m1: Mmunit) -> bool {
    let op = m0.peek(c0.reg.pc);
    let pc1 = ((c0.reg.pc + 1) % 65536) as u16;
    &&& invalid_opcode(op) ==> c1.reg == fetched(c0.reg) && m1 == m0 && c1.halted == c0.halted
        && c1.enable_interrupts == c0.enable_interrupts
    &&& op == 0xcb && m0.peek(pc1) & 0x07 == 6 ==> {
        let cb = m0.peek(pc1);
        let hl = pair(c0.reg.h, c0.reg.l);
        let v = m0.peek(hl);
        &&& c1.reg == (Register { f: cb_flags(cb, v, c0.reg), ..fetched(fetched(c0.reg)) })
        &&& cb >> 6 == 1 ==> m1 == m0
        &&& cb >> 6 != 1 && stack_ram(hl) ==> m1.peek(hl) == cb_value(cb, v, carry_of(c0.reg))
    }
    &&& op == 0xcb && m0.peek(pc1) & 0x07 != 6 ==> c1.reg == cb_result(m0.peek(pc1), fetched(fetched(c0.reg))) && m1
        == m0
    &&& op != 0xcb && !invalid_opcode(op) ==> op_effect(op, Cpu { reg: fetched(c0.reg), ..c0 }, m0, c1, m1)
}

/// The 16-bit register pair `p` of the BC, DE, HL, SP order.
pub open spec fn r16_of(r: Register, p: u8) -> u16 {
    if p == 0 {
        pair(r.b, r.c)
    } else if p == 1 {
        pair(r.d, r.e)
    } else if p == 2 {
        pair(r.h, r.l)
    } else {
        r.sp
    }
}

/// `r` with pair `p` of the BC, DE, HL, SP order set to `v`.
pub open spec fn with_r16(r: Register, p: u8, v: u16) -> Register {
    if p == 0 {
        Register { b: (v >> 8) as u8, c: v as u8, ..r }
    } else if p == 1 {
        Register { d: (v >> 8) as u8, e: v as u8, ..r }
    } else if p == 2 {
        Register { h: (v >> 8) as u8, l: v as u8, ..r }
    } else {
        Register { sp: v, ..r }
    }
}

/// Whether the word `w` sits at `s` (low byte) and `s + 1` of the bus, where both are plain RAM.
pub open spec fn pushed(m: Mmunit, s: int, w: u16) -> bool {
    let s1 = ((s + 1) % 65536) as u16;
    stack_ram(s as u16) && stack_ram(s1) ==> m.peek(s as u16) == (w & 0xff) as u8 && m.peek(s1) == (w >> 8) as u8
}

/// Whether every plain-RAM byte of `m1` other than the two at `s` and `s + 1` is as in `m0`,
/// where both of those are plain RAM.
pub open spec fn stack_kept(m0: Mmunit, m1: Mmunit, s: int) -> bool {
    let s1 = ((s + 1) % 65536) as u16;
    stack_ram(s as u16) && stack_ram(s1) ==> forall|b: u16|
        stack_ram(b) && b != s as u16 && b != s1 ==> #[trigger] m1.peek(b) == m0.peek(b)
}

/// The registers after RLCA (0x07), RRCA (0x0f), RLA (0x17) or RRA (0x1f): Z, N and H clear.
pub open spec fn rotated_a(op: u8, r: Register) -> Register {
    let y: u8 = if op == 0x07 {
        0
    } else if op == 0x0f {
        1
    } else if op == 0x17 {
        2
    } else {
        3
    };
    Register {
        a: shift_value(y, r.a, carry_of(r)),
        f: flags_byte(false, false, false, shift_carry(y, r.a)),
        ..r
    }
}

/// What the opcodes outside the regular operand groups do (the state `c` after the opcode
/// fetch): DAA, CPL, SCF, CCF, JP (HL), LD SP,HL, RET cc, RETI, CALL cc and the loads of A
/// from (BC), (DE), (HL+), (HL-), (FF00+n), (FF00+C) and (nn).
pub open spec fn misc_effect(op: u8, c: Cpu, m0: Mmunit, c1: Cpu, m1: Mmunit) -> bool {
    let r = c.reg;
    let pc1 = ((r.pc + 1) % 65536) as u16;
    let w = pair(m0.peek(pc1), m0.peek(r.pc));
    let hl = pair(r.h, r.l);
    let top = pair(m0.peek(((r.sp + 1) % 65536) as u16), m0.peek(r.sp));
    let s2 = (r.sp + 65534) % 65536;
    let same = c1.halted == c.halted && c1.enable_interrupts == c.enable_interrupts;
    let popped = Register { pc: top, sp: ((r.sp + 2) % 65536) as u16, ..r };
    let zf = r.f & 0x80 != 0;
    let cf = r.f & 0x10 != 0;
    &&& op == 0x27 ==> ({
        let adj = c.daa_adjust();
        let v: u8 = if r.f & 0x40 == 0 { ((r.a + adj) % 256) as u8 } else { ((r.a - adj + 256) % 256) as u8 };
        c1.reg == (Register { a: v, f: flags_byte(v == 0, r.f & 0x40 != 0, false, adj >= 0x60), ..r })
    }) && m1 == m0 && same
    &&& op == 0x2f ==> c1.reg == (Register { a: !r.a, f: flags_byte(zf, true, true, cf), ..r }) && m1 == m0 && same
    &&& op == 0x37 ==> c1.reg == (Register { f: flags_byte(zf, false, false, true), ..r }) && m1 == m0 && same
    &&& op == 0x3f ==> c1.reg == (Register { f: flags_byte(zf, false, false, !cf), ..r }) && m1 == m0 && same
    &&& op == 0xe9 ==> c1.reg == (Register { pc: hl, ..r }) && m1 == m0 && same
    &&& op == 0xf9 ==> c1.reg == (Register { sp: hl, ..r }) && m1 == m0 && same
    &&& op == 0xd9 ==> c1.reg == popped && m1 == m0 && c1.enable_interrupts && c1.halted == c.halted
    &&& (op == 0xc0 || op == 0xc8 || op == 0xd0 || op == 0xd8) ==> c1.reg == (if condition(op, r.f) { popped } else { r })
        && m1 == m0 && same
    &&& (op == 0xc4 || op == 0xcc || op == 0xd4 || op == 0xdc) ==> same && if condition(op, r.f) {
        &&& c1.reg == (Register { pc: w, sp: s2 as u16, ..r })
        &&& pushed(m1, s2, ((r.pc + 2) % 65536) as u16)
        &&& stack_kept(m0, m1, s2)
    } else {
        c1.reg == (Register { pc: ((r.pc + 2) % 65536) as u16, ..r }) && m1 == m0
    }
    &&& op == 0x0a ==> c1.reg == (Register { a: m0.peek(pair(r.b, r.c)), ..r }) && m1 == m0 && same
    &&& op == 0x1a ==> c1.reg == (Register { a: m0.peek(pair(r.d, r.e)), ..r }) && m1 == m0 && same
    &&& op == 0x2a ==> c1.reg == (Register {
        a: m0.peek(hl),
        h: ((((hl + 1) % 65536) as u16) >> 8) as u8,
        l: ((hl + 1) % 65536) as u8,
        ..r
    }) && m1 == m0 && same
    &&& op == 0x3a ==> c1.reg == (Register {
        a: m0.peek(hl),
        h: ((((hl + 65535) % 65536) as u16) >> 8) as u8,
        l: ((hl + 65535) % 65536) as u8,
        ..r
    }) && m1 == m0 && same
    &&& op == 0xf0 ==> c1.reg == (Register { a: m0.peek(0xff00u16 | (m0.peek(r.pc) as u16)), pc: pc1, ..r }) && m1 == m0
        && same
    &&& op == 0xf2 ==> c1.reg == (Register { a: m0.peek(0xff00u16 | (r.c as u16)), ..r }) && m1 == m0 && same
    &&& op == 0xfa ==> c1.reg == (Register { a: m0.peek(w), pc: ((r.pc + 2) % 65536) as u16, ..r }) && m1 == m0 && same
    &&& op == 0x02 ==> c1.reg == r && same && (stack_ram(pair(r.b, r.c)) ==> m1.peek(pair(r.b, r.c)) == r.a)
    &&& op == 0x12 ==> c1.reg == r && same && (stack_ram(pair(r.d, r.e)) ==> m1.peek(pair(r.d, r.e)) == r.a)
    &&& op == 0x22 ==> c1.reg == (Register {
        h: ((((hl + 1) % 65536) as u16) >> 8) as u8,
        l: ((hl + 1) % 65536) as u8,
        ..r
    }) && same && (stack_ram(hl) ==> m1.peek(hl) == r.a)
    &&& op == 0x32 ==> c1.reg == (Register {
        h: ((((hl + 65535) % 65536) as u16) >> 8) as u8,
        l: ((hl + 65535) % 65536) as u8,
        ..r
    }) && same && (stack_ram(hl) ==> m1.peek(hl) == r.a)
    &&& op == 0xe0 ==> c1.reg == (Register { pc: pc1, ..r }) && same && (stack_ram(0xff00u16 | (m0.peek(r.pc) as u16))
        ==> m1.peek(0xff00u16 | (m0.peek(r.pc) as u16)) == r.a)
    &&& op == 0xe2 ==> c1.reg == r && same && (stack_ram(0xff00u16 | (r.c as u16)) ==> m1.peek(0xff00u16 | (r.c as u16))
        == r.a)
    &&& op == 0xea ==> c1.reg == (Register { pc: ((r.pc + 2) % 65536) as u16, ..r }) && same && (stack_ram(w) ==> m1.peek(w)
        == r.a)
    &&& op == 0x08 ==> c1.reg == (Register { pc: ((r.pc + 2) % 65536) as u16, ..r }) && same && pushed(m1, w as int, r.sp)
    &&& (op == 0xe8 || op == 0xf8) ==> {
        let e = m0.peek(r.pc);
        let sum = ((r.sp + (if e < 0x80 { e as int } else { e as int - 256 }) + 65536) % 65536) as u16;
        let f = flags_byte(false, false, (r.sp & 0x000f) + (e & 0x0f) > 0x0f, (r.sp & 0x00ff) + e > 0xff);
        &&& op == 0xe8 ==> c1.reg == (Register { sp: sum, f: f, pc: pc1, ..r })
        &&& op == 0xf8 ==> c1.reg == (Register { h: (sum >> 8) as u8, l: sum as u8, f: f, pc: pc1, ..r })
        &&& m1 == m0 && same
    }
}

/// What primary opcode `op` (not 0xcb, not invalid) does from state `c`, its opcode fetched,
/// and bus `m0`, to `c1` and `m1`.
pub open spec fn op_effect(op: u8, c: Cpu, m0: Mmunit, c1: Cpu, m1: Mmunit) -> bool {
    let r = c.reg;
    let y = (op >> 3) & 0x07;
    let z = op & 0x07;
    let p = y >> 1;
    let pc1 = ((r.pc + 1) % 65536) as u16;
    let w = pair(m0.peek(pc1), m0.peek(r.pc));
    let top = pair(m0.peek(((r.sp + 1) % 65536) as u16), m0.peek(r.sp));
    let s2 = (r.sp + 65534) % 65536;
    let same = c1.halted == c.halted && c1.enable_interrupts == c.enable_interrupts;
    &&& 0x40 <= op < 0x80 && op != 0x76 && y != 6 && z != 6 ==> c1.reg == with_r8(r, y, r8_of(r, z)) && m1 == m0 && same
    &&& 0x80 <= op < 0xc0 && z != 6 ==> c1.reg == alu_result(y, r, r8_of(r, z)) && m1 == m0 && same
    &&& op == 0x76 ==> c1.halted && c1.reg == r && m1 == m0 && c1.enable_interrupts == c.enable_interrupts
    &&& (op == 0x00 || op == 0x10) ==> c1 == c && m1 == m0
    &&& op == 0xf3 ==> !c1.enable_interrupts && c1.reg == r && c1.halted == c.halted && m1 == m0
    &&& op == 0xfb ==> c1.enable_interrupts && c1.reg == r && c1.halted == c.halted && m1 == m0
    &&& op >> 6 == 0 && z == 4 && y != 6 ==> c1.reg == inc_result(r, y) && m1 == m0 && same
    &&& op >> 6 == 0 && z == 5 && y != 6 ==> c1.reg == dec_result(r, y) && m1 == m0 && same
    &&& op >> 6 == 0 && z == 6 && y != 6 ==> c1.reg == with_r8(fetched(r), y, m0.peek(r.pc)) && m1 == m0 && same
    &&& op >> 6 == 0 && z == 1 && y & 1 == 0 ==> c1.reg == with_r16(Register { pc: ((r.pc + 2) % 65536) as u16, ..r }, p, w)
        && m1 == m0 && same
    &&& op >> 6 == 0 && z == 1 && y & 1 == 1 ==> {
        let hl = pair(r.h, r.l);
        let v = r16_of(r, p);
        let sum = ((hl + v) % 65536) as u16;
        &&& c1.reg == (Register {
            h: (sum >> 8) as u8,
            l: sum as u8,
            f: flags_byte(r.f & 0x80 != 0, false, (hl & 0x0fff) + (v & 0x0fff) > 0x0fff, hl + v > 0xffff),
            ..r
        })
        &&& m1 == m0 && same
    }
    &&& op >> 6 == 3 && z == 1 && y & 1 == 0 ==> {
        let r2 = Register { sp: ((r.sp + 2) % 65536) as u16, ..r };
        &&& c1.reg == if p == 3 {
            Register { a: (top >> 8) as u8, f: (top & 0x00f0) as u8, ..r2 }
        } else {
            with_r16(r2, p, top)
        }
        &&& m1 == m0 && same
    }
    &&& op >> 6 == 3 && z == 5 && y & 1 == 0 ==> c1.reg == (Register { sp: s2 as u16, ..r }) && pushed(
        m1,
        s2,
        if p == 3 { pair(r.a, r.f) } else { r16_of(r, p) },
    ) && stack_kept(m0, m1, s2) && same
    &&& (op == 0x07 || op == 0x0f || op == 0x17 || op == 0x1f) ==> c1.reg == rotated_a(op, r) && m1 == m0 && same
    &&& op == 0xc3 ==> c1.reg == (Register { pc: w, ..r }) && m1 == m0 && same
    &&& op == 0xcd ==> c1.reg == (Register { pc: w, sp: s2 as u16, ..r }) && pushed(m1, s2, ((r.pc + 2) % 65536) as u16)
        && stack_kept(m0, m1, s2) && same
    &&& op == 0xc9 ==> c1.reg == (Register { pc: top, sp: ((r.sp + 2) % 65536) as u16, ..r }) && m1 == m0 && same
    &&& is_jump(op) ==> c1.reg == (Register { pc: jump_dest(op, r.f, r.pc, m0), ..r }) && m1 == m0 && same
    &&& misc_effect(op, c, m0, c1, m1)
    &&& op >> 6 == 0 && z == 3 && y & 1 == 0 ==> c1.reg == with_r16(r, p, ((r16_of(r, p) + 1) % 65536) as u16) && m1 == m0
        && same
    &&& op >> 6 == 0 && z == 3 && y & 1 == 1 ==> c1.reg == with_r16(r, p, ((r16_of(r, p) + 65535) % 65536) as u16) && m1
        == m0 && same
    &&& op >> 6 == 3 && z == 6 ==> c1.reg == alu_result(y, fetched(r), m0.peek(r.pc)) && m1 == m0 && same
    &&& op >> 6 == 3 && z == 7 ==> c1.reg == (Register { pc: (y as int * 8) as u16, sp: s2 as u16, ..r }) && pushed(
        m1,
        s2,
        r.pc,
    ) && stack_kept(m0, m1, s2) && same
    &&& 0x40 <= op < 0x80 && op != 0x76 && y != 6 && z == 6 ==> c1.reg == with_r8(r, y, m0.peek(pair(r.h, r.l))) && m1 == m0 && same
    &&& 0x80 <= op < 0xc0 && z == 6 ==> c1.reg == alu_result(y, r, m0.peek(pair(r.h, r.l))) && m1 == m0 && same
    &&& 0x40 <= op < 0x80 && op != 0x76 && y == 6 && z != 6 ==> c1.reg == r && same && (stack_ram(pair(r.h, r.l)) ==> m1.peek(
        pair(r.h, r.l),
    ) == r8_of(r, z))
    &&& op >> 6 == 0 && z == 6 && y == 6 ==> c1.reg == fetched(r) && same && (stack_ram(pair(r.h, r.l)) ==> m1.peek(
        pair(r.h, r.l),
    ) == m0.peek(r.pc))
    &&& op >> 6 == 0 && z == 4 && y == 6 ==> {
        let v = m0.peek(pair(r.h, r.l));
        let n = ((v + 1) % 256) as u8;
        &&& c1.reg == (Register { f: flags_byte(n == 0, false, (v & 0x0f) + 1 > 0x0f, r.f & 0x10 != 0), ..r })
        &&& same
        &&& stack_ram(pair(r.h, r.l)) ==> m1.peek(pair(r.h, r.l)) == n
    }
    &&& op >> 6 == 0 && z == 5 && y == 6 ==> {
        let v = m0.peek(pair(r.h, r.l));
        let n = ((v + 255) % 256) as u8;
        &&& c1.reg == (Register { f: flags_byte(n == 0, true, v & 0x0f == 0, r.f & 0x10 != 0), ..r })
        &&& same
        &&& stack_ram(pair(r.h, r.l)) ==> m1.peek(pair(r.h, r.l)) == n
    }
}

/// The cost in clocks of fetching and running the instruction at PC, or the invalid opcode.
pub open spec fn ex_result(c: Cpu, m: Mmunit) -> Result<u32, CpuError> {
    let op = m.peek(c.reg.pc);
    if invalid_opcode(op) {
        Err(CpuError::InvalidOpcode(op))
    } else if op == 0xcb {
        Ok((4 * cb_cycles(m.peek(((c.reg.pc + 1) % 65536) as u16))) as u32)
    } else {
        Ok((4 * (op_cycles()[op as int] + branch_bonus(op, c.reg.f))) as u32)
    }
}

/// What one CPU step returns: 16 clocks for an interrupt dispatch, 4 for a halted step,
/// otherwise the cost of the instruction at PC.
pub open spec fn next_result(c: Cpu, m: Mmunit) -> Result<u32, CpuError> {
    let pending = m.intf.data & m.inte & 0x1f;
    if pending != 0 && c.enable_interrupts {
        Ok(16)
    } else if pending == 0 && c.halted {
        Ok(4)
    } else {
        ex_result(c, m)
    }
}

/// One CPU step from `c0`, `m0` to `c1`, `m1` with result `r`: an interrupt dispatch, a halted
/// step, or one instruction.
pub open spec fn stepped(c0: Cpu, m0: Mmunit, c1: Cpu, m1: Mmunit, r: Result<u32, CpuError>) -> bool {
    &&& r == next_result(c0, m0)
    &&& ({
        let pending = m0.intf.data & m0.inte & 0x1f;
        let n = lowest_bit(pending);
        let sp = c0.reg.sp as int;
        &&& pending != 0 && c0.enable_interrupts ==> {
            &&& !c1.halted
            &&& !c1.enable_interrupts
            &&& c1.reg == (Register { pc: (0x40 + 8 * n) as u16, sp: ((sp + 65534) % 65536) as u16, ..c0.reg })
            &&& ((sp + 65534) % 65536 != 0xff0f && (sp + 65535) % 65536 != 0xff0f) ==> m1.intf.data
                == m0.intf.data & !((1u8 << n as u8) as u8)
            &&& pushed(m1, (sp + 65534) % 65536, c0.reg.pc)
        }
        &&& pending == 0 && c0.halted ==> c1.reg == c0.reg && c1.halted && m1
            == m0
        &&& !(pending != 0 && c0.enable_interrupts) && !(pending == 0 && c0.halted) ==> instruction_effect(
            Cpu { halted: false, ..c0 },
            m0,
            c1,
            m1,
        )
    })
}

/// Fatal CPU conditions.
#[derive(Clone, Copy, Debug, PartialEq, Eq, Structural)]
pub enum CpuError {
    InvalidOpcode(u8),
}

/// The Sharp LR35902 core: registers, HALT state and the interrupt master enable.
pub struct Cpu {
    pub reg: Register,
    pub halted: bool,
    pub enable_interrupts: bool,
}

impl Cpu {
    pub open spec fn wf(&self) -> bool {
        self.reg.wf()
    }

    pub fn power_up(term: Term) -> (r: Self)
        ensures
            r.wf(),
            r.reg == Register::power_up_spec(term),
            !r.halted,
            r.enable_interrupts,
    {
        Self { reg: Register::power_up(term), halted: false, enable_interrupts: true }
    }

    /// Sets all four flags at once.
    fn set_flags(&mut self, z: bool, n: bool, h: bool, c: bool)
        ensures
            final(self).reg == (Register { f: flags_byte(z, n, h, c), ..old(self).reg }),
            final(self).reg.wf(),
            final(self).halted == old(self).halted,
            final(self).enable_interrupts == old(self).enable_interrupts,
    {
        let zf: u8 = if z { 0x80 } else { 0 };
        let nf: u8 = if n { 0x40 } else { 0 };
        let hf: u8 = if h { 0x20 } else { 0 };
        let cf: u8 = if c { 0x10 } else { 0 };
        self.reg.f = zf | nf | hf | cf;
        assert((zf | nf | hf | cf) & 0x0f == 0) by (bit_vector)
            requires
                zf == 0x80 || zf == 0,
                nf == 0x40 || nf == 0,
                hf == 0x20 || hf == 0,
                cf == 0x10 || cf == 0,
        ;
    }

    /// Whether the carry flag is set, as 0 or 1.
    pub open spec fn carry(&self) -> int {
        if self.reg.f & 0x10 != 0 {
            1
        } else {
            0
        }
    }

    fn carry_bit(&self) -> (r: u8)
        ensures
            r == self.carry(),
    {
        if self.reg.f & 0x10 != 0 {
            1
        } else {
            0
        }
    }

    /// A = A + n.
    fn alu_add(&mut self, n: u8)
        ensures
            final(self).reg == (Register {
                a: ((old(self).reg.a + n) % 256) as u8,
                f: flags_byte(
                    (old(self).reg.a + n) % 256 == 0,
                    false,
                    (old(self).reg.a & 0x0f) + (n & 0x0f) > 0x0f,
                    old(self).reg.a + n > 0xff,
                ),
                ..old(self).reg
            }),
            final(self).wf(),
            final(self).halted == old(self).halted && final(self).enable_interrupts == old(self).enable_interrupts,
    {
        let a = self.reg.a;
        let r = ((a as u16 + n as u16) % 256) as u8;
        self.set_flags(r == 0, false, (a & 0x0f) as u16 + (n & 0x0f) as u16 > 0x0f, a as u16 + n as u16 > 0xff);
        self.reg.a = r;
    }

    /// A = A + n + carry.
    fn alu_adc(&mut self, n: u8)
        ensures
            final(self).reg == (Register {
                a: ((old(self).reg.a + n + old(self).carry()) % 256) as u8,
                f: flags_byte(
                    (old(self).reg.a + n + old(self).carry()) % 256 == 0,
                    false,
                    (old(self).reg.a & 0x0f) + (n & 0x0f) + old(self).carry() > 0x0f,
                    old(self).reg.a + n + old(self).carry() > 0xff,
                ),
                ..old(self).reg
            }),
            final(self).wf(),
            final(self).halted == old(self).halted && final(self).enable_interrupts == old(self).enable_interrupts,
    {
        let a = self.reg.a;
        let c = self.carry_bit();
        let r = ((a as u16 + n as u16 + c as u16) % 256) as u8;
        self.set_flags(r == 0, false, (a & 0x0f) as u16 + (n & 0x0f) as u16 + c as u16 > 0x0f, a as u16 + n as u16 + c as u16 > 0xff);
        self.reg.a = r;
    }

    /// A = A - n.
    fn alu_sub(&mut self, n: u8)
        ensures
            final(self).reg == (Register {
                a: ((old(self).reg.a - n + 256) % 256) as u8,
                f: flags_byte(old(self).reg.a == n, true, (old(self).reg.a & 0x0f) < (n & 0x0f), old(self).reg.a < n),
                ..old(self).reg
            }),
            final(self).wf(),
            final(self).halted == old(self).halted && final(self).enable_interrupts == old(self).enable_interrupts,
    {
        let a = self.reg.a;
        let r = ((a as u16 + 256 - n as u16) % 256) as u8;
        self.set_flags(a == n, true, (a & 0x0f) < (n & 0x0f), a < n);
        self.reg.a = r;
    }

    /// A = A - n - carry.
    fn alu_sbc(&mut self, n: u8)
        ensures
            final(self).reg == (Register {
                a: ((old(self).reg.a - n - old(self).carry() + 512) % 256) as u8,
                f: flags_byte(
                    (old(self).reg.a - n - old(self).carry() + 512) % 256 == 0,
                    true,
                    (old(self).reg.a & 0x0f) < (n & 0x0f) + old(self).carry(),
                    old(self).reg.a < n + old(self).carry(),
                ),
                ..old(self).reg
            }),
            final(self).wf(),
            final(self).halted == old(self).halted && final(self).enable_interrupts == old(self).enable_interrupts,
    {
        let a = self.reg.a;
        let c = self.carry_bit();
        let r = ((a as u16 + 512 - n as u16 - c as u16) % 256) as u8;
        self.set_flags(r == 0, true, ((a & 0x0f) as u16) < (n & 0x0f) as u16 + c as u16, (a as u16) < n as u16 + c as u16);
        self.reg.a = r;
    }

    /// A = A & n.
    fn alu_and(&mut self, n: u8)
        ensures
            final(self).reg == (Register { a: old(self).reg.a & n, f: flags_byte(old(self).reg.a & n == 0, false, true, false), ..old(self).reg }),
            final(self).wf(),
            final(self).halted == old(self).halted && final(self).enable_interrupts == old(self).enable_interrupts,
    {
        let r = self.reg.a & n;
        self.set_flags(r == 0, false, true, false);
        self.reg.a = r;
    }

    /// A = A | n.
    fn alu_or(&mut self, n: u8)
        ensures
            final(self).reg == (Register { a: old(self).reg.a | n, f: flags_byte(old(self).reg.a | n == 0, false, false, false), ..old(self).reg }),
            final(self).wf(),
            final(self).halted == old(self).halted && final(self).enable_interrupts == old(self).enable_interrupts,
    {
        let r = self.reg.a | n;
        self.set_flags(r == 0, false, false, false);
        self.reg.a = r;
    }

    /// A = A ^ n.
    fn alu_xor(&mut self, n: u8)
        ensures
            final(self).reg == (Register { a: old(self).reg.a ^ n, f: flags_byte(old(self).reg.a ^ n == 0, false, false, false), ..old(self).reg }),
            final(self).wf(),
            final(self).halted == old(self).halted && final(self).enable_interrupts == old(self).enable_interrupts,
    {
        let r = self.reg.a ^ n;
        self.set_flags(r == 0, false, false, false);
        self.reg.a = r;
    }

    /// Compares A with n: the flags of A - n, A unchanged.
    fn alu_cp(&mut self, n: u8)
        ensures
            final(self).reg == (Register {
                f: flags_byte(old(self).reg.a == n, true, (old(self).reg.a & 0x0f) < (n & 0x0f), old(self).reg.a < n),
                ..old(self).reg
            }),
            final(self).wf(),
            final(self).halted == old(self).halted && final(self).enable_interrupts == old(self).enable_interrupts,
    {
        let r = self.reg.a;
        self.alu_sub(n);
        self.reg.a = r;
    }

    /// a + 1; carry unchanged.
    fn alu_inc(&mut self, a: u8) -> (r: u8)
        ensures
            r == ((a + 1) % 256) as u8,
            final(self).reg == (Register {
                f: flags_byte(r == 0, false, (a & 0x0f) + 1 > 0x0f, old(self).reg.f & 0x10 != 0),
                ..old(self).reg
            }),
            final(self).wf(),
            final(self).halted == old(self).halted && final(self).enable_interrupts == old(self).enable_interrupts,
    {
        let r = ((a as u16 + 1) % 256) as u8;
        let c = self.reg.f & 0x10 != 0;
        self.set_flags(r == 0, false, (a & 0x0f) as u16 + 1 > 0x0f, c);
        r
    }

    /// a - 1; carry unchanged.
    fn alu_dec(&mut self, a: u8) -> (r: u8)
        ensures
            r == ((a + 255) % 256) as u8,
            final(self).reg == (Register {
                f: flags_byte(r == 0, true, a & 0x0f == 0, old(self).reg.f & 0x10 != 0),
                ..old(self).reg
            }),
            final(self).wf(),
            final(self).halted == old(self).halted && final(self).enable_interrupts == old(self).enable_interrupts,
    {
        let r = ((a as u16 + 255) % 256) as u8;
        let c = self.reg.f & 0x10 != 0;
        self.set_flags(r == 0, true, a & 0x0f == 0, c);
        r
    }

    /// HL = HL + n; Z unchanged.
    fn alu_add_hl(&mut self, n: u16)
        ensures
            ({
                let s = ((pair(old(self).reg.h, old(self).reg.l) + n) % 65536) as u16;
                final(self).reg == (Register {
                    h: (s >> 8) as u8,
                    l: s as u8,
                    f: flags_byte(
                        old(self).reg.f & 0x80 != 0,
                        false,
                        (pair(old(self).reg.h, old(self).reg.l) & 0x0fff) + (n & 0x0fff) > 0x0fff,
                        pair(old(self).reg.h, old(self).reg.l) + n > 0xffff,
                    ),
                    ..old(self).reg
                })
            }),
            pair(final(self).reg.h, final(self).reg.l) == ((pair(old(self).reg.h, old(self).reg.l) + n) % 65536) as u16,
            final(self).reg.f == flags_byte(
                old(self).reg.f & 0x80 != 0,
                false,
                (pair(old(self).reg.h, old(self).reg.l) & 0x0fff) + (n & 0x0fff) > 0x0fff,
                pair(old(self).reg.h, old(self).reg.l) + n > 0xffff,
            ),
            final(self).reg.a == old(self).reg.a && final(self).reg.b == old(self).reg.b && final(self).reg.c == old(self).reg.c,
            final(self).reg.d == old(self).reg.d && final(self).reg.e == old(self).reg.e,
            final(self).reg.sp == old(self).reg.sp && final(self).reg.pc == old(self).reg.pc,
            final(self).wf(),
            final(self).halted == old(self).halted && final(self).enable_interrupts == old(self).enable_interrupts,
    {
        let a = self.reg.get_hl();
        let r = ((a as u32 + n as u32) % 65536) as u16;
        let z = self.reg.f & 0x80 != 0;
        self.set_flags(z, false, (a & 0x0fff) as u32 + (n & 0x0fff) as u32 > 0x0fff, a as u32 + n as u32 > 0xffff);
        self.reg.set_hl(r);
    }

    /// The sum SP + e for a signed byte `e`, and the flags it sets (H and C from the low byte).
    fn sp_plus(&mut self, e: u8) -> (r: u16)
        ensures
            r == ((old(self).reg.sp + (if e < 0x80 { e as int } else { e as int - 256 }) + 65536) % 65536) as u16,
            final(self).reg == (Register {
                f: flags_byte(
                    false,
                    false,
                    (old(self).reg.sp & 0x000f) + (e & 0x0f) > 0x0f,
                    (old(self).reg.sp & 0x00ff) + e > 0xff,
                ),
                ..old(self).reg
            }),
            final(self).wf(),
            final(self).halted == old(self).halted && final(self).enable_interrupts == old(self).enable_interrupts,
    {
        let a = self.reg.sp;
        let b: u16 = if e < 0x80 { e as u16 } else { 0xff00 | e as u16 };
        assert(b & 0x00ff == e && b & 0x000f == e & 0x0f && (e >= 0x80 ==> b == 0xff00 + e as u16)) by (bit_vector)
            requires b == (if e < 0x80 { e as u16 } else { 0xff00u16 | e as u16 });
        self.set_flags(false, false, (a & 0x000f) as u32 + (e & 0x0f) as u32 > 0x000f, (a & 0x00ff) as u32 + e as u32 > 0x00ff);
        let r = ((a as u32 + b as u32) % 65536) as u16;
        r
    }

    /// Swaps the nibbles of a.
    fn alu_swap(&mut self, a: u8) -> (r: u8)
        ensures
            r == (a >> 4u8) | ((a << 4u8) as u8),
            final(self).reg == (Register { f: flags_byte(a == 0, false, false, false), ..old(self).reg }),
            final(self).wf(),
            final(self).halted == old(self).halted && final(self).enable_interrupts == old(self).enable_interrupts,
    {
        self.set_flags(a == 0x00, false, false, false);
        (a >> 4u8) | (a << 4u8)
    }

    /// The decimal adjustment of A after a BCD addition or subtraction.
    pub open spec fn daa_adjust(&self) -> u8 {
        let a = self.reg.a;
        let base: u8 = (if self.reg.f & 0x10 != 0 { 0x60u8 } else { 0u8 }) | (if self.reg.f & 0x20 != 0 { 0x06u8 } else { 0u8 });
        if self.reg.f & 0x40 == 0 {
            base | (if a & 0x0f > 0x09 { 0x06u8 } else { 0u8 }) | (if a > 0x99 { 0x60u8 } else { 0u8 })
        } else {
            base
        }
    }

    fn alu_daa(&mut self)
        ensures
            ({
                let adj = old(self).daa_adjust();
                let r: u8 = if old(self).reg.f & 0x40 == 0 {
                    ((old(self).reg.a + adj) % 256) as u8
                } else {
                    ((old(self).reg.a - adj + 256) % 256) as u8
                };
                final(self).reg == (Register {
                    a: r,
                    f: flags_byte(r == 0, old(self).reg.f & 0x40 != 0, false, adj >= 0x60),
                    ..old(self).reg
                })
            }),
            final(self).wf(),
            final(self).halted == old(self).halted && final(self).enable_interrupts == old(self).enable_interrupts,
    {
        let mut a = self.reg.a;
        let mut adjust: u8 = if self.reg.f & 0x10 != 0 { 0x60 } else { 0x00 };
        if self.reg.f & 0x20 != 0 {
            adjust = adjust | 0x06;
        }
        let sub = self.reg.f & 0x40 != 0;
        if !sub {
            if a & 0x0f > 0x09 {
                adjust = adjust | 0x06;
            }
            if a > 0x99 {
                adjust = adjust | 0x60;
            }
            a = ((a as u16 + adjust as u16) % 256) as u8;
        } else {
            a = ((a as u16 + 256 - adjust as u16) % 256) as u8;
        }
        let ghost g = old(self).daa_adjust();
        assert(adjust == g) by {
            let x = old(self).reg.a;
            let f = old(self).reg.f;
            assert(((if f & 0x10 != 0 { 0x60u8 } else { 0u8 }) | (if f & 0x20 != 0 { 0x06u8 } else { 0u8 })) == (
            if f & 0x20 != 0 { (if f & 0x10 != 0 { 0x60u8 } else { 0u8 }) | 0x06u8 } else { if f & 0x10 != 0 { 0x60u8 } else { 0u8 } })) by (bit_vector);
            assert(forall|p: u8, q: u8, t: u8| (p | q) | t == p | (q | t) && p | 0u8 == p) by (bit_vector);
        };
        self.set_flags(a == 0, sub, false, adjust >= 0x60);
        self.reg.a = a;
    }

    /// A = !A; sets N and H.
    fn alu_cpl(&mut self)
        requires
            old(self).wf(),
        ensures
            final(self).reg == (Register {
                a: !old(self).reg.a,
                f: flags_byte(old(self).reg.f & 0x80 != 0, true, true, old(self).reg.f & 0x10 != 0),
                ..old(self).reg
            }),
            final(self).wf(),
            final(self).halted == old(self).halted && final(self).enable_interrupts == old(self).enable_interrupts,
    {
        let z = self.reg.f & 0x80 != 0;
        let c = self.reg.f & 0x10 != 0;
        self.set_flags(z, true, true, c);
        self.reg.a = !self.reg.a;
    }

    /// Complements the carry; clears N and H.
    fn alu_ccf(&mut self)
        ensures
            final(self).reg == (Register {
                f: flags_byte(old(self).reg.f & 0x80 != 0, false, false, old(self).reg.f & 0x10 == 0),
                ..old(self).reg
            }),
            final(self).wf(),
            final(self).halted == old(self).halted && final(self).enable_interrupts == old(self).enable_interrupts,
    {
        let z = self.reg.f & 0x80 != 0;
        let c = self.reg.f & 0x10 == 0;
        self.set_flags(z, false, false, c);
    }

    /// Sets the carry; clears N and H.
    fn alu_scf(&mut self)
        ensures
            final(self).reg == (Register { f: flags_byte(old(self).reg.f & 0x80 != 0, false, false, true), ..old(self).reg }),
            final(self).wf(),
            final(self).halted == old(self).halted && final(self).enable_interrupts == old(self).enable_interrupts,
    {
        let z = self.reg.f & 0x80 != 0;
        self.set_flags(z, false, false, true);
    }

    /// Rotates left; bit 7 goes to carry and bit 0.
    fn alu_rlc(&mut self, a: u8) -> (r: u8)
        ensures
            r == (((a << 1u8) as u8) | (a >> 7u8)),
            final(self).reg == (Register { f: flags_byte(r == 0, false, false, a & 0x80 != 0), ..old(self).reg }),
            final(self).wf(),
            final(self).halted == old(self).halted && final(self).enable_interrupts == old(self).enable_interrupts,
    {
        let r = (a << 1u8) | (a >> 7u8);
        self.set_flags(r == 0, false, false, a & 0x80 != 0);
        r
    }

    /// Rotates left through carry.
    fn alu_rl(&mut self, a: u8) -> (r: u8)
        ensures
            r == (((a << 1u8) as u8) | (old(self).carry() as u8)),
            final(self).reg == (Register { f: flags_byte(r == 0, false, false, a & 0x80 != 0), ..old(self).reg }),
            final(self).wf(),
            final(self).halted == old(self).halted && final(self).enable_interrupts == old(self).enable_interrupts,
    {
        let r = (a << 1u8) | self.carry_bit();
        self.set_flags(r == 0, false, false, a & 0x80 != 0);
        r
    }

    /// Rotates right; bit 0 goes to carry and bit 7.
    fn alu_rrc(&mut self, a: u8) -> (r: u8)
        ensures
            r == ((a >> 1u8) | ((a << 7u8) as u8)),
            final(self).reg == (Register { f: flags_byte(r == 0, false, false, a & 0x01 != 0), ..old(self).reg }),
            final(self).wf(),
            final(self).halted == old(self).halted && final(self).enable_interrupts == old(self).enable_interrupts,
    {
        let r = (a >> 1u8) | (a << 7u8);
        self.set_flags(r == 0, false, false, a & 0x01 != 0);
        r
    }

    /// Rotates right through carry.
    fn alu_rr(&mut self, a: u8) -> (r: u8)
        ensures
            r == ((a >> 1u8) | (((old(self).carry() as u8) << 7u8) as u8)),
            final(self).reg == (Register { f: flags_byte(r == 0, false, false, a & 0x01 != 0), ..old(self).reg }),
            final(self).wf(),
            final(self).halted == old(self).halted && final(self).enable_interrupts == old(self).enable_interrupts,
    {
        let r = (a >> 1u8) | (self.carry_bit() << 7u8);
        self.set_flags(r == 0, false, false, a & 0x01 != 0);
        r
    }

    /// Shifts left; bit 7 goes to carry.
    fn alu_sla(&mut self, a: u8) -> (r: u8)
        ensures
            r == ((a << 1u8) as u8),
            final(self).reg == (Register { f: flags_byte(r == 0, false, false, a & 0x80 != 0), ..old(self).reg }),
            final(self).wf(),
            final(self).halted == old(self).halted && final(self).enable_interrupts == old(self).enable_interrupts,
    {
        let r = a << 1u8;
        self.set_flags(r == 0, false, false, a & 0x80 != 0);
        r
    }

    /// Shifts right keeping bit 7; bit 0 goes to carry.
    fn alu_sra(&mut self, a: u8) -> (r: u8)
        ensures
            r == ((a >> 1u8) | (a & 0x80)),
            final(self).reg == (Register { f: flags_byte(r == 0, false, false, a & 0x01 != 0), ..old(self).reg }),
            final(self).wf(),
            final(self).halted == old(self).halted && final(self).enable_interrupts == old(self).enable_interrupts,
    {
        let r = (a >> 1u8) | (a & 0x80);
        self.set_flags(r == 0, false, false, a & 0x01 != 0);
        r
    }

    /// Shifts right; bit 0 goes to carry.
    fn alu_srl(&mut self, a: u8) -> (r: u8)
        ensures
            r == (a >> 1u8),
            final(self).reg == (Register { f: flags_byte(r == 0, false, false, a & 0x01 != 0), ..old(self).reg }),
            final(self).wf(),
            final(self).halted == old(self).halted && final(self).enable_interrupts == old(self).enable_interrupts,
    {
        let r = a >> 1u8;
        self.set_flags(r == 0, false, false, a & 0x01 != 0);
        r
    }

    /// Tests bit `b` of `a`: Z is set when it is clear; H set, N clear, C unchanged.
    fn alu_bit(&mut self, a: u8, b: u8)
        requires
            b < 8,
        ensures
            final(self).reg == (Register {
                f: flags_byte(a & ((1u8 << b) as u8) == 0, false, true, old(self).reg.f & 0x10 != 0),
                ..old(self).reg
            }),
            final(self).wf(),
            final(self).halted == old(self).halted && final(self).enable_interrupts == old(self).enable_interrupts,
    {
        let r = a & (1u8 << b) == 0x00;
        let c = self.reg.f & 0x10 != 0;
        self.set_flags(r, false, true, c);
    }

    /// PC = PC + e for a signed byte `e`.
    fn alu_jr(&mut self, e: u8)
        ensures
            final(self).reg == (Register {
                pc: ((old(self).reg.pc + (if e < 0x80 { e as int } else { e as int - 256 }) + 65536) % 65536) as u16,
                ..old(self).reg
            }),
            final(self).halted == old(self).halted && final(self).enable_interrupts == old(self).enable_interrupts,
    {
        let d: u32 = if e < 0x80 { e as u32 } else { 65536 - 256 + e as u32 };
        self.reg.pc = ((self.reg.pc as u32 + d) % 65536) as u16;
    }

    /// Reads the byte at PC and moves PC past it.
    fn imm(&mut self, mem: &Mmunit) -> (r: u8)
        requires
            mem.wf(),
        ensures
            r == mem.peek(old(self).reg.pc),
            final(self).reg == (Register { pc: ((old(self).reg.pc + 1) % 65536) as u16, ..old(self).reg }),
            final(self).halted == old(self).halted && final(self).enable_interrupts == old(self).enable_interrupts,
    {
        let v = mem.get(self.reg.pc);
        self.reg.pc = self.reg.pc.wrapping_add(1);
        v
    }

    /// Reads the little-endian word at PC and moves PC past it.
    fn imm_word(&mut self, mem: &Mmunit) -> (r: u16)
        requires
            mem.wf(),
        ensures
            r == pair(mem.peek(((old(self).reg.pc + 1) % 65536) as u16), mem.peek(old(self).reg.pc)),
            final(self).reg == (Register { pc: ((old(self).reg.pc + 2) % 65536) as u16, ..old(self).reg }),
            final(self).halted == old(self).halted && final(self).enable_interrupts == old(self).enable_interrupts,
    {
        let lo = self.imm(mem);
        let hi = self.imm(mem);
        ((hi as u16) << 8u16) | (lo as u16)
    }

    /// Pushes a word: SP moves down by two and the word is written there, low byte first.
    fn stack_add(&mut self, mem: &mut Mmunit, v: u16)
        requires
            old(mem).wf(),
        ensures
            final(mem).wf(),
            final(mem).speed == old(mem).speed && final(mem).term == old(mem).term,
            final(self).reg == (Register { sp: ((old(self).reg.sp + 65534) % 65536) as u16, ..old(self).reg }),
            final(self).halted == old(self).halted && final(self).enable_interrupts == old(self).enable_interrupts,
            final(mem).term == old(mem).term && final(mem).speed == old(mem).speed,
            (old(self).reg.sp + 65534) % 65536 != 0xff0f && (old(self).reg.sp + 65535) % 65536 != 0xff0f ==> final(mem).intf
                == old(mem).intf,
            (old(self).reg.sp + 65534) % 65536 != 0xffff && (old(self).reg.sp + 65535) % 65536 != 0xffff ==> final(mem).inte
                == old(mem).inte,
            pushed(*final(mem), (old(self).reg.sp + 65534) % 65536, v),
            stack_kept(*old(mem), *final(mem), (old(self).reg.sp + 65534) % 65536),
    {
        self.reg.sp = self.reg.sp.wrapping_sub(2);
        let sp = self.reg.sp;
        mem.set(sp, (v & 0xff) as u8);
        mem.set(sp.wrapping_add(1), (v >> 8u16) as u8);
    }

    /// Pops a word: reads it at SP, low byte first, and moves SP up by two.
    fn stack_pop(&mut self, mem: &Mmunit) -> (r: u16)
        requires
            mem.wf(),
        ensures
            r == pair(mem.peek(((old(self).reg.sp + 1) % 65536) as u16), mem.peek(old(self).reg.sp)),
            final(self).reg == (Register { sp: ((old(self).reg.sp + 2) % 65536) as u16, ..old(self).reg }),
            final(self).halted == old(self).halted && final(self).enable_interrupts == old(self).enable_interrupts,
    {
        let lo = mem.get(self.reg.sp);
        let hi = mem.get(self.reg.sp.wrapping_add(1));
        self.reg.sp = self.reg.sp.wrapping_add(2);
        ((hi as u16) << 8u16) | (lo as u16)
    }

    /// The 8-bit operand `i` of the B, C, D, E, H, L, (HL), A order.
    fn get_r8(&self, mem: &Mmunit, i: u8) -> (r: u8)
        requires
            mem.wf(),
            i < 8,
        ensures
            i == 0 ==> r == self.reg.b,
            i == 1 ==> r == self.reg.c,
            i == 2 ==> r == self.reg.d,
            i == 3 ==> r == self.reg.e,
            i == 4 ==> r == self.reg.h,
            i == 5 ==> r == self.reg.l,
            i == 6 ==> r == mem.peek(pair(self.reg.h, self.reg.l)),
            i == 7 ==> r == self.reg.a,
    {
        match i {
            0 => self.reg.b,
            1 => self.reg.c,
            2 => self.reg.d,
            3 => self.reg.e,
            4 => self.reg.h,
            5 => self.reg.l,
            6 => mem.get(self.reg.get_hl()),
            _ => self.reg.a,
        }
    }

    /// Writes the 8-bit operand `i` of the B, C, D, E, H, L, (HL), A order.
    fn set_r8(&mut self, mem: &mut Mmunit, i: u8, v: u8)
        requires
            old(self).wf(),
            old(mem).wf(),
            i < 8,
        ensures
            final(self).wf(),
            final(mem).wf(),
            final(mem).speed == old(mem).speed && final(mem).term == old(mem).term,
            final(self).halted == old(self).halted && final(self).enable_interrupts == old(self).enable_interrupts,
            i == 0 ==> final(self).reg == (Register { b: v, ..old(self).reg }),
            i == 1 ==> final(self).reg == (Register { c: v, ..old(self).reg }),
            i == 2 ==> final(self).reg == (Register { d: v, ..old(self).reg }),
            i == 3 ==> final(self).reg == (Register { e: v, ..old(self).reg }),
            i == 4 ==> final(self).reg == (Register { h: v, ..old(self).reg }),
            i == 5 ==> final(self).reg == (Register { l: v, ..old(self).reg }),
            i == 6 ==> final(self).reg == old(self).reg,
            i == 6 && stack_ram(pair(old(self).reg.h, old(self).reg.l)) ==> final(mem).peek(pair(old(self).reg.h, old(self).reg.l))
                == v,
            i == 7 ==> final(self).reg == (Register { a: v, ..old(self).reg }),
            i != 6 ==> *final(mem) == *old(mem),
    {
        match i {
            0 => self.reg.b = v,
            1 => self.reg.c = v,
            2 => self.reg.d = v,
            3 => self.reg.e = v,
            4 => self.reg.h = v,
            5 => self.reg.l = v,
            6 => mem.set(self.reg.get_hl(), v),
            _ => self.reg.a = v,
        }
    }

    /// The 8-bit ALU operation `k` (ADD, ADC, SUB, SBC, AND, XOR, OR, CP) on A and `v`.
    fn alu_op(&mut self, k: u8, v: u8)
        requires
            old(self).wf(),
            k < 8,
        ensures
            final(self).wf(),
            final(self).halted == old(self).halted && final(self).enable_interrupts == old(self).enable_interrupts,
            final(self).reg == alu_result(k, old(self).reg, v),
    {
        match k {
            0 => self.alu_add(v),
            1 => self.alu_adc(v),
            2 => self.alu_sub(v),
            3 => self.alu_sbc(v),
            4 => self.alu_and(v),
            5 => self.alu_xor(v),
            6 => self.alu_or(v),
            _ => self.alu_cp(v),
        }
    }

    /// The 16-bit register pair `p` of the BC, DE, HL, SP order.
    fn get_r16(&self, p: u8) -> (r: u16)
        requires
            p < 4,
        ensures
            p == 0 ==> r == pair(self.reg.b, self.reg.c),
            p == 1 ==> r == pair(self.reg.d, self.reg.e),
            p == 2 ==> r == pair(self.reg.h, self.reg.l),
            p == 3 ==> r == self.reg.sp,
    {
        match p {
            0 => self.reg.get_bc(),
            1 => self.reg.get_de(),
            2 => self.reg.get_hl(),
            _ => self.reg.sp,
        }
    }

    /// Writes the 16-bit register pair `p` of the BC, DE, HL, SP order.
    fn set_r16(&mut self, p: u8, v: u16)
        requires
            old(self).wf(),
            p < 4,
        ensures
            final(self).wf(),
            final(self).halted == old(self).halted && final(self).enable_interrupts == old(self).enable_interrupts,
            final(self).reg.pc == old(self).reg.pc,
            p == 0 ==> pair(final(self).reg.b, final(self).reg.c) == v,
            p == 1 ==> pair(final(self).reg.d, final(self).reg.e) == v,
            p == 2 ==> pair(final(self).reg.h, final(self).reg.l) == v,
            p == 3 ==> final(self).reg.sp == v,
            final(self).reg == with_r16(old(self).reg, p, v),
    {
        match p {
            0 => self.reg.set_bc(v),
            1 => self.reg.set_de(v),
            2 => self.reg.set_hl(v),
            _ => self.reg.sp = v,
        }
    }

    /// Whether the condition of a conditional opcode holds now.
    fn cond(&self, op: u8) -> (r: bool)
        ensures
            r == condition(op, self.reg.f),
    {
        let cc = (op >> 3u8) & 0x03;
        if cc == 0 {
            self.reg.f & 0x80 == 0
        } else if cc == 1 {
            self.reg.f & 0x80 != 0
        } else if cc == 2 {
            self.reg.f & 0x10 == 0
        } else {
            self.reg.f & 0x10 != 0
        }
    }

    /// Runs a CB-prefixed instruction: rotates and shifts, BIT, RES and SET on any operand.
    fn ex_cb(&mut self, mem: &mut Mmunit, cb: u8)
        requires
            old(self).wf(),
            old(mem).wf(),
        ensures
            final(self).wf(),
            final(mem).wf(),
            final(mem).speed == old(mem).speed && final(mem).term == old(mem).term,
            cb & 0x07 != 6 ==> final(self).reg == cb_result(cb, old(self).reg) && *final(mem) == *old(mem),
            cb & 0x07 == 6 ==> {
                let hl = pair(old(self).reg.h, old(self).reg.l);
                let v = old(mem).peek(hl);
                &&& final(self).reg == (Register { f: cb_flags(cb, v, old(self).reg), ..old(self).reg })
                &&& cb >> 6 == 1 ==> *final(mem) == *old(mem)
                &&& cb >> 6 != 1 && stack_ram(hl) ==> final(mem).peek(hl) == cb_value(cb, v, carry_of(old(self).reg))
            },
            final(self).halted == old(self).halted,
            final(self).enable_interrupts == old(self).enable_interrupts,
    {
        let x = cb >> 6u8;
        let y = (cb >> 3u8) & 0x07;
        let z = cb & 0x07;
        proof { crate::bits::lemma_u8_fields(cb); }
        let v = self.get_r8(mem, z);
        if x == 0 {
            let r = match y {
                0 => self.alu_rlc(v),
                1 => self.alu_rrc(v),
                2 => self.alu_rl(v),
                3 => self.alu_rr(v),
                4 => self.alu_sla(v),
                5 => self.alu_sra(v),
                6 => self.alu_swap(v),
                _ => self.alu_srl(v),
            };
            self.set_r8(mem, z, r);
        } else if x == 1 {
            self.alu_bit(v, y);
        } else if x == 2 {
            self.set_r8(mem, z, v & !(1u8 << y));
        } else {
            self.set_r8(mem, z, v | (1u8 << y));
        }
    }

    /// Runs a primary instruction other than the CB prefix, once its opcode has been fetched.
    #[verifier::rlimit(100)]
    fn execute(&mut self, mem: &mut Mmunit, op: u8)
        requires
            old(self).wf(),
            old(mem).wf(),
        ensures
            final(self).wf(),
            final(mem).wf(),
            final(mem).speed == old(mem).speed && final(mem).term == old(mem).term,
            op_effect(op, *old(self), *old(mem), *final(self), *final(mem)),
    {
        if op == 0x18 || op == 0x20 || op == 0x28 || op == 0x30 || op == 0x38 || op == 0xc2 || op == 0xca
            || op == 0xd2 || op == 0xda || op == 0x00 || op == 0x10 || op == 0xf3 || op == 0xfb || op == 0xc3
            || op == 0xc9 || op == 0x07 || op == 0x0f || op == 0x17 || op == 0x1f || op == 0xcd || op == 0x27
            || op == 0x2f || op == 0x37 || op == 0x3f || op == 0xe9 || op == 0xf9 || op == 0xd9 || op == 0xc0
            || op == 0xc8 || op == 0xd0 || op == 0xd8 || op == 0xc4 || op == 0xcc || op == 0xd4 || op == 0xdc
            || op == 0x0a || op == 0x1a || op == 0x2a || op == 0x3a || op == 0xf0 || op == 0xf2 || op == 0xfa || op == 0x02 || op == 0x12 || op == 0x22 || op == 0x32 || op == 0xe0 || op == 0xe2 || op == 0xea || op == 0xe8 || op == 0xf8 || op == 0x08 {
            assert(!(op >> 6 == 0 && (op & 0x07 == 1 || op & 0x07 == 3 || op & 0x07 == 4 || op & 0x07 == 5 || op & 0x07
                == 6)) && !(op >> 6 == 3 && (((op & 0x07 == 1 || op & 0x07 == 5) && ((op >> 3) & 0x07) & 1 == 0) || op
                & 0x07 == 6 || op & 0x07 == 7))) by (bit_vector)
                requires
                    op == 0x18 || op == 0x20 || op == 0x28 || op == 0x30 || op == 0x38 || op == 0xc2
                        || op == 0xca || op == 0xd2 || op == 0xda || op == 0x00 || op == 0x10 || op == 0xf3
                        || op == 0xfb || op == 0xc3 || op == 0xc9 || op == 0x07 || op == 0x0f || op == 0x17
                        || op == 0x1f || op == 0xcd || op == 0x27 || op == 0x2f || op == 0x37 || op == 0x3f
                        || op == 0xe9 || op == 0xf9 || op == 0xd9 || op == 0xc0 || op == 0xc8 || op == 0xd0
                        || op == 0xd8 || op == 0xc4 || op == 0xcc || op == 0xd4 || op == 0xdc || op == 0x0a
                        || op == 0x1a || op == 0x2a || op == 0x3a || op == 0xf0 || op == 0xf2 || op == 0xfa || op == 0x02 || op == 0x12 || op == 0x22 || op == 0x32 || op == 0xe0 || op == 0xe2 || op == 0xea || op == 0xe8 || op == 0xf8 || op == 0x08,
            ;
            self.execute_misc(mem, op);
            return;
        }
        let x = op >> 6u8;
        let y = (op >> 3u8) & 0x07;
        let z = op & 0x07;
        let p = y >> 1u8;
        proof { crate::bits::lemma_u8_fields(op); }
        if x == 1 {
            if op == 0x76 {
                self.halted = true;
            } else {
                let v = self.get_r8(mem, z);
                self.set_r8(mem, y, v);
            }
        } else if x == 2 {
            let v = self.get_r8(mem, z);
            self.alu_op(y, v);
        } else if x == 0 && z == 4 {
            let v = self.get_r8(mem, y);
            let r = self.alu_inc(v);
            self.set_r8(mem, y, r);
        } else if x == 0 && z == 5 {
            let v = self.get_r8(mem, y);
            let r = self.alu_dec(v);
            self.set_r8(mem, y, r);
        } else if x == 0 && z == 6 {
            let v = self.imm(mem);
            self.set_r8(mem, y, v);
        } else if x == 3 && z == 6 {
            let v = self.imm(mem);
            self.alu_op(y, v);
        } else if x == 0 && z == 1 && y & 1 == 0 {
            let v = self.imm_word(mem);
            self.set_r16(p, v);
        } else if x == 0 && z == 1 {
            let v = self.get_r16(p);
            self.alu_add_hl(v);
        } else if x == 0 && z == 3 && y & 1 == 0 {
            let v = self.get_r16(p);
            self.set_r16(p, ((v as u32 + 1) % 65536) as u16);
        } else if x == 0 && z == 3 {
            let v = self.get_r16(p);
            self.set_r16(p, ((v as u32 + 65535) % 65536) as u16);
        } else if x == 3 && z == 7 {
            let pc = self.reg.pc;
            self.stack_add(mem, pc);
            self.reg.pc = (y as u16) * 8;
        } else if x == 3 && z == 5 && y & 1 == 0 {
            let v = if p == 3 {
                self.reg.get_af()
            } else {
                self.get_r16(p)
            };
            self.stack_add(mem, v);
        } else if x == 3 && z == 1 && y & 1 == 0 {
            let v = self.stack_pop(mem);
            if p == 3 {
                self.reg.set_af(v);
            } else {
                self.set_r16(p, v);
            }
        } else {
            self.execute_misc(mem, op);
        }
    }

    /// The instructions that do not fall into a regular operand group.
    #[verifier::rlimit(100)]
    fn execute_misc(&mut self, mem: &mut Mmunit, op: u8)
        requires
            old(self).wf(),
            old(mem).wf(),
        ensures
            final(self).wf(),
            final(mem).wf(),
            final(mem).speed == old(mem).speed && final(mem).term == old(mem).term,
            op == 0x00 || op == 0x10 ==> *final(self) == *old(self) && *final(mem) == *old(mem),
            op == 0xf3 ==> !final(self).enable_interrupts && final(self).reg == old(self).reg,
            op == 0xfb ==> final(self).enable_interrupts && final(self).reg == old(self).reg,
            op == 0xc3 ==> final(self).reg == (Register {
                pc: pair(old(mem).peek(((old(self).reg.pc + 1) % 65536) as u16), old(mem).peek(old(self).reg.pc)),
                ..old(self).reg
            }) && *final(mem) == *old(mem),
            op == 0xc9 ==> final(self).reg == (Register {
                pc: pair(old(mem).peek(((old(self).reg.sp + 1) % 65536) as u16), old(mem).peek(old(self).reg.sp)),
                sp: ((old(self).reg.sp + 2) % 65536) as u16,
                ..old(self).reg
            }) && *final(mem) == *old(mem),
            is_jump(op) ==> final(self).reg == (Register {
                pc: jump_dest(op, old(self).reg.f, old(self).reg.pc, *old(mem)),
                ..old(self).reg
            }) && *final(mem) == *old(mem),
            (op == 0x07 || op == 0x0f || op == 0x17 || op == 0x1f) ==> final(self).reg == rotated_a(op, old(self).reg)
                && *final(mem) == *old(mem),
            op == 0xcd ==> final(self).reg == (Register {
                pc: pair(old(mem).peek(((old(self).reg.pc + 1) % 65536) as u16), old(mem).peek(old(self).reg.pc)),
                sp: ((old(self).reg.sp + 65534) % 65536) as u16,
                ..old(self).reg
            }) && pushed(*final(mem), (old(self).reg.sp + 65534) % 65536, ((old(self).reg.pc + 2) % 65536) as u16),
            op == 0xcd ==> stack_kept(*old(mem), *final(mem), (old(self).reg.sp + 65534) % 65536),
            op != 0xd9 && op != 0xf3 && op != 0xfb ==> final(self).halted == old(self).halted
                && final(self).enable_interrupts == old(self).enable_interrupts,
            (op == 0xf3 || op == 0xfb) ==> final(self).halted == old(self).halted && *final(mem) == *old(mem),
            misc_effect(op, *old(self), *old(mem), *final(self), *final(mem)),
    {
        match op {
            0x02 => {
                let a = self.reg.get_bc();
                mem.set(a, self.reg.a);
            },
            0x12 => {
                let a = self.reg.get_de();
                mem.set(a, self.reg.a);
            },
            0x0a => {
                self.reg.a = mem.get(self.reg.get_bc());
            },
            0x1a => {
                self.reg.a = mem.get(self.reg.get_de());
            },
            0x22 => {
                let a = self.reg.get_hl();
                mem.set(a, self.reg.a);
                self.reg.set_hl(a.wrapping_add(1));
            },
            0x32 => {
                let a = self.reg.get_hl();
                mem.set(a, self.reg.a);
                self.reg.set_hl(a.wrapping_sub(1));
            },
            0x2a => {
                let a = self.reg.get_hl();
                self.reg.a = mem.get(a);
                self.reg.set_hl(a.wrapping_add(1));
            },
            0x3a => {
                let a = self.reg.get_hl();
                self.reg.a = mem.get(a);
                self.reg.set_hl(a.wrapping_sub(1));
            },
            0x07 => {
                let a = self.reg.a;
                let v = self.alu_rlc(a);
                self.reg.a = v;
                self.set_flags(false, false, false, a & 0x80 != 0);
            },
            0x17 => {
                let a = self.reg.a;
                let v = self.alu_rl(a);
                self.reg.a = v;
                self.set_flags(false, false, false, a & 0x80 != 0);
            },
            0x0f => {
                let a = self.reg.a;
                let v = self.alu_rrc(a);
                self.reg.a = v;
                self.set_flags(false, false, false, a & 0x01 != 0);
            },
            0x1f => {
                let a = self.reg.a;
                let v = self.alu_rr(a);
                self.reg.a = v;
                self.set_flags(false, false, false, a & 0x01 != 0);
            },
            0x08 => {
                let a = self.imm_word(mem);
                let sp = self.reg.sp;
                mem.set(a, (sp & 0xff) as u8);
                mem.set(((a as u32 + 1) % 65536) as u16, (sp >> 8u16) as u8);
            },
            0x18 => {
                let n = self.imm(mem);
                self.alu_jr(n);
            },
            0x20 | 0x28 | 0x30 | 0x38 => {
                let c = self.cond(op);
                let n = self.imm(mem);
                if c {
                    self.alu_jr(n);
                }
            },
            0x27 => self.alu_daa(),
            0x2f => self.alu_cpl(),
            0x37 => self.alu_scf(),
            0x3f => self.alu_ccf(),
            0xc0 | 0xc8 | 0xd0 | 0xd8 => {
                if self.cond(op) {
                    self.reg.pc = self.stack_pop(mem);
                }
            },
            0xc2 | 0xca | 0xd2 | 0xda => {
                let c = self.cond(op);
                let nn = self.imm_word(mem);
                if c {
                    self.reg.pc = nn;
                }
            },
            0xc3 => {
                self.reg.pc = self.imm_word(mem);
            },
            0xc4 | 0xcc | 0xd4 | 0xdc => {
                let c = self.cond(op);
                let nn = self.imm_word(mem);
                if c {
                    let pc = self.reg.pc;
                    self.stack_add(mem, pc);
                    self.reg.pc = nn;
                }
            },
            0xcd => {
                let nn = self.imm_word(mem);
                let pc = self.reg.pc;
                self.stack_add(mem, pc);
                self.reg.pc = nn;
            },
            0xc9 => {
                self.reg.pc = self.stack_pop(mem);
            },
            0xd9 => {
                self.reg.pc = self.stack_pop(mem);
                self.enable_interrupts = true;
            },
            0xe0 => {
                let a = 0xff00 | self.imm(mem) as u16;
                mem.set(a, self.reg.a);
            },
            0xf0 => {
                let a = 0xff00 | self.imm(mem) as u16;
                self.reg.a = mem.get(a);
            },
            0xe2 => {
                mem.set(0xff00 | self.reg.c as u16, self.reg.a);
            },
            0xf2 => {
                self.reg.a = mem.get(0xff00 | self.reg.c as u16);
            },
            0xe8 => {
                let e = self.imm(mem);
                let r = self.sp_plus(e);
                self.reg.sp = r;
            },
            0xf8 => {
                let e = self.imm(mem);
                let r = self.sp_plus(e);
                self.reg.set_hl(r);
            },
            0xe9 => {
                self.reg.pc = self.reg.get_hl();
            },
            0xf9 => {
                self.reg.sp = self.reg.get_hl();
            },
            0xea => {
                let a = self.imm_word(mem);
                mem.set(a, self.reg.a);
            },
            0xfa => {
                let a = self.imm_word(mem);
                self.reg.a = mem.get(a);
            },
            0xf3 => {
                self.enable_interrupts = false;
            },
            0xfb => {
                self.enable_interrupts = true;
            },
            _ => {},
        }
    }

    /// Fetches and runs one instruction. Returns its cost in clock cycles: four per machine
    /// cycle of the opcode tables, plus the extra cycles of a taken conditional branch.
    #[verifier::rlimit(60)]
    pub fn ex(&mut self, mem: &mut Mmunit) -> (r: Result<u32, CpuError>)
        requires
            old(self).wf(),
            old(mem).wf(),
        ensures
            final(self).wf(),
            final(mem).wf(),
            final(mem).speed == old(mem).speed && final(mem).term == old(mem).term,
            ({
                let op = old(mem).peek(old(self).reg.pc);
                &&& r == ex_result(*old(self), *old(mem))
                &&& invalid_opcode(op) ==> r == Err::<u32, CpuError>(CpuError::InvalidOpcode(op))
                &&& op == 0xcb ==> r == Ok::<u32, CpuError>((4 * cb_cycles(old(mem).peek(((old(self).reg.pc + 1) % 65536) as u16))) as u32)
                &&& op != 0xcb && !invalid_opcode(op) ==> r == Ok::<u32, CpuError>((4 * (op_cycles()[op as int] + branch_bonus(op, old(self).reg.f))) as u32)
            }),
            instruction_effect(*old(self), *old(mem), *final(self), *final(mem)),
    {
        proof { reveal(instruction_effect); }
        let op = self.imm(mem);
        proof { crate::bits::lemma_u8_fields(op); }
        if op == 0xcb {
            let cb = self.imm(mem);
            self.ex_cb(mem, cb);
            let c: u32 = if cb & 0x07 != 0x06 {
                2
            } else if 0x40 <= cb && cb < 0x80 {
                3
            } else {
                4
            };
            return Ok(4 * c);
        }
        if op == 0xd3 || op == 0xdb || op == 0xdd || op == 0xe3 || op == 0xe4 || op == 0xeb || op == 0xec || op == 0xed
            || op == 0xf4 || op == 0xfc || op == 0xfd {
            return Err(CpuError::InvalidOpcode(op));
        }
        let taken = self.cond(op);
        let bonus: u32 = if (op == 0x20 || op == 0x28 || op == 0x30 || op == 0x38 || op == 0xc2 || op == 0xca || op == 0xd2
            || op == 0xda) && taken {
            1
        } else if (op == 0xc0 || op == 0xc8 || op == 0xd0 || op == 0xd8 || op == 0xc4 || op == 0xcc || op == 0xd4 || op
            == 0xdc) && taken {
            3
        } else {
            0
        };
        let table = op_cycles_table();
        let base = table[op as usize];
        assert(forall|i: int| 0 <= i < 256 ==> op_cycles()[i] <= 6);
        self.execute(mem, op);
        Ok(4 * (base + bonus))
    }

    /// Dispatches a pending interrupt. With IF & IE & 0x1f non-zero, HALT ends; if interrupts
    /// are enabled, the lowest pending line is acknowledged in IF, PC is pushed and the CPU
    /// jumps to 0x40 + 8 × line, costing 16 clocks. Otherwise returns 0.
    pub fn handle_interrupts(&mut self, mem: &mut Mmunit) -> (r: u32)
        requires
            old(self).wf(),
            old(mem).wf(),
        ensures
            final(self).wf(),
            final(mem).wf(),
            final(mem).speed == old(mem).speed && final(mem).term == old(mem).term,
            ({
                let pending = old(mem).intf.data & old(mem).inte & 0x1f;
                let n = lowest_bit(pending);
                let sp = old(self).reg.sp as int;
                &&& pending == 0 ==> r == 0 && *final(self) == *old(self) && *final(mem) == *old(mem)
                &&& pending != 0 && !old(self).enable_interrupts ==> r == 0 && !final(self).halted
                    && final(self).reg == old(self).reg && *final(mem) == *old(mem) && !final(self).enable_interrupts
                &&& pending != 0 && old(self).enable_interrupts ==> {
                    &&& r == 16
                    &&& !final(self).halted
                    &&& !final(self).enable_interrupts
                    &&& final(self).reg == (Register { pc: (0x40 + 8 * n) as u16, sp: ((sp + 65534) % 65536) as u16, ..old(self).reg })
                    &&& ((sp + 65534) % 65536 != 0xff0f && (sp + 65535) % 65536 != 0xff0f) ==> final(mem).intf.data
                        == old(mem).intf.data & !((1u8 << n as u8) as u8)
                    &&& pushed(*final(mem), (sp + 65534) % 65536, old(self).reg.pc)
                }
            }),
    {
        let intf = mem.intf.data;
        let inte = mem.inte;
        let a = intf & inte & 0x1f;
        if a == 0x00 {
            return 0;
        }
        self.halted = false;
        if !self.enable_interrupts {
            return 0;
        }
        self.enable_interrupts = false;
        let n: u8 = if a & 0x01 != 0 {
            0
        } else if a & 0x02 != 0 {
            1
        } else if a & 0x04 != 0 {
            2
        } else if a & 0x08 != 0 {
            3
        } else {
            4
        };
        assert(n < 5);
        mem.set(0xff0f, intf & !(1u8 << n));
        let pc = self.reg.pc;
        self.stack_add(mem, pc);
        self.reg.pc = 0x0040 | ((n as u16) << 3u16);
        assert(0x0040 | ((n as u16) << 3u16) == 0x40 + 8 * (n as u16)) by (bit_vector)
            requires n < 5;
        16
    }

    /// One CPU step: a pending interrupt if any, else 4 clocks while halted, else one
    /// instruction. Returns the clock cycles spent.
    pub fn next(&mut self, mem: &mut Mmunit) -> (r: Result<u32, CpuError>)
        requires
            old(self).wf(),
            old(mem).wf(),
        ensures
            final(self).wf(),
            final(mem).wf(),
            final(mem).speed == old(mem).speed && final(mem).term == old(mem).term,
            r is Ok ==> r->Ok_0 <= 96,
            stepped(*old(self), *old(mem), *final(self), *final(mem), r),
            final(mem).speed == old(mem).speed && final(mem).term == old(mem).term,
    {
        let c = self.handle_interrupts(mem);
        if c != 0 {
            return Ok(c);
        }
        if self.halted {
            return Ok(4);
        }
        assert(self.reg == old(self).reg && self.enable_interrupts == old(self).enable_interrupts && !self.halted);
        assert(*self == (Cpu { halted: false, ..*old(self) }));
        self.ex(mem)
    }

}

} // verus!
