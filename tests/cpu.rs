use gameboy::cartridge;
use gameboy::cpu::{Cpu, CpuError};
use gameboy::convention::Term;
use gameboy::mmunit::Mmunit;
use gameboy::motherboard::MotherBoard;
use gameboy::register::Register;

const LOGO: [u8; 48] = [
    0xCE, 0xED, 0x66, 0x66, 0xCC, 0x0D, 0x00, 0x0B, 0x03, 0x73, 0x00, 0x83, 0x00, 0x0C, 0x00, 0x0D, 0x00, 0x08, 0x11,
    0x1F, 0x88, 0x89, 0x00, 0x0E, 0xDC, 0xCC, 0x6E, 0xE6, 0xDD, 0xDD, 0xD9, 0x99, 0xBB, 0xBB, 0x67, 0x63, 0x6E, 0x0E,
    0xEC, 0xCC, 0xDD, 0xDC, 0x99, 0x9F, 0xBB, 0xB9, 0x33, 0x3E,
];

fn rom_with(program: &[u8]) -> Vec<u8> {
    let mut rom = vec![0u8; 0x8000];
    rom[0x0104..0x0134].copy_from_slice(&LOGO);
    rom[0x0147] = 0x00;
    rom[0x0148] = 0x00;
    rom[0x0149] = 0x00;
    let mut v: u8 = 0;
    for i in 0x0134..0x014d {
        v = v.wrapping_sub(rom[i]).wrapping_sub(1);
    }
    rom[0x014d] = v;
    rom[0x0150..0x0150 + program.len()].copy_from_slice(program);
    rom
}

fn board(program: &[u8]) -> MotherBoard {
    let cart = cartridge::power_up(rom_with(program), None, 0).unwrap();
    let mut mb = MotherBoard::power_up(cart);
    mb.cpu.reg.pc = 0x0150;
    mb
}

fn cpu_and_bus(program: &[u8]) -> (Cpu, Mmunit) {
    let cart = cartridge::power_up(rom_with(program), None, 0).unwrap();
    let mmu = Mmunit::power_up(cart);
    let mut cpu = Cpu::power_up(Term::GB);
    cpu.reg.pc = 0x0150;
    (cpu, mmu)
}

#[test]
fn register_pairs_round_trip() {
    let mut r = Register::power_up(Term::GB);
    r.set_bc(0x1234);
    assert_eq!(r.get_bc(), 0x1234);
    r.set_de(0xbeef);
    assert_eq!(r.get_de(), 0xbeef);
    r.set_hl(0x00ff);
    assert_eq!(r.get_hl(), 0x00ff);
    r.set_af(0x12ff);
    assert_eq!(r.get_af(), 0x12f0);
    assert_eq!(r.f & 0x0f, 0);
}

#[test]
fn post_boot_registers_by_model() {
    let r = Register::power_up(Term::GB);
    assert_eq!((r.a, r.f, r.b, r.c, r.d, r.e, r.h, r.l), (0x01, 0xb0, 0x00, 0x13, 0x00, 0xd8, 0x01, 0x4d));
    assert_eq!((r.sp, r.pc), (0xfffe, 0x0100));
    assert_eq!(Register::power_up(Term::GBP).a, 0xff);
    assert_eq!(Register::power_up(Term::GBC).a, 0x11);
    assert_eq!(Register::power_up(Term::SGB).a, 0x01);
}

#[test]
fn cycle_counts_follow_tables() {
    // NOP, LD BC,d16, JR NZ (Z set after boot: not taken), CB RLC B, CB BIT 0,(HL)
    let (mut cpu, mut mmu) = cpu_and_bus(&[0x00, 0x01, 0x34, 0x12, 0x20, 0x05, 0xcb, 0x00, 0xcb, 0x46]);
    assert_eq!(cpu.next(&mut mmu), Ok(4));
    assert_eq!(cpu.next(&mut mmu), Ok(12));
    assert_eq!(cpu.reg.get_bc(), 0x1234);
    assert_eq!(cpu.next(&mut mmu), Ok(8));
    assert_eq!(cpu.next(&mut mmu), Ok(8));
    assert_eq!(cpu.next(&mut mmu), Ok(12));
}

#[test]
fn taken_branch_adds_cycles() {
    // XOR A clears Z... then JR Z taken (+1 machine cycle); CALL Z taken (+3).
    let (mut cpu, mut mmu) = cpu_and_bus(&[0xaf, 0x28, 0x00, 0xcc, 0x00, 0x02]);
    assert_eq!(cpu.next(&mut mmu), Ok(4));
    assert_eq!(cpu.reg.f, 0x80);
    assert_eq!(cpu.next(&mut mmu), Ok(12));
    assert_eq!(cpu.next(&mut mmu), Ok(24));
    assert_eq!(cpu.reg.pc, 0x0200);
    assert_eq!(cpu.reg.sp, 0xfffc);
}

#[test]
fn invalid_opcode_fails() {
    let (mut cpu, mut mmu) = cpu_and_bus(&[0xd3]);
    assert_eq!(cpu.next(&mut mmu), Err(CpuError::InvalidOpcode(0xd3)));
}

#[test]
fn alu_flags_and_low_nibble() {
    // LD A,0x0f ; ADD A,0x01 -> 0x10 with H ; SUB 0x10 -> 0 with Z,N ; DAA ; SCF ; CCF
    let (mut cpu, mut mmu) = cpu_and_bus(&[0x3e, 0x0f, 0xc6, 0x01, 0xd6, 0x10, 0x27, 0x37, 0x3f]);
    for _ in 0..2 {
        cpu.next(&mut mmu).unwrap();
    }
    assert_eq!(cpu.reg.a, 0x10);
    assert_eq!(cpu.reg.f, 0x20);
    cpu.next(&mut mmu).unwrap();
    assert_eq!(cpu.reg.a, 0x00);
    assert_eq!(cpu.reg.f, 0xc0);
    cpu.next(&mut mmu).unwrap();
    assert_eq!(cpu.reg.f & 0x0f, 0);
    cpu.next(&mut mmu).unwrap();
    assert_eq!(cpu.reg.f & 0x10, 0x10);
    cpu.next(&mut mmu).unwrap();
    assert_eq!(cpu.reg.f & 0x10, 0x00);
    assert_eq!(cpu.reg.f & 0x0f, 0);
}

#[test]
fn push_pop_af_masks_flags() {
    // LD BC,0x12ff ; PUSH BC ; POP AF
    let (mut cpu, mut mmu) = cpu_and_bus(&[0x01, 0xff, 0x12, 0xc5, 0xf1]);
    for _ in 0..3 {
        cpu.next(&mut mmu).unwrap();
    }
    assert_eq!(cpu.reg.a, 0x12);
    assert_eq!(cpu.reg.f, 0xf0);
}

#[test]
fn interrupt_priority_lowest_bit_first() {
    let (mut cpu, mut mmu) = cpu_and_bus(&[0x00]);
    mmu.set(0xffff, 0x1f);
    mmu.set(0xff0f, 0x14);
    assert_eq!(cpu.next(&mut mmu), Ok(16));
    assert_eq!(cpu.reg.pc, 0x0050);
    assert_eq!(mmu.get(0xff0f), 0x10);
    assert!(!cpu.enable_interrupts);
    assert_eq!(cpu.reg.sp, 0xfffc);
}

#[test]
fn boot_ld_a_then_halt() {
    let mut mb = board(&[0x3e, 0x42, 0x76]);
    let mut total = 0;
    assert_eq!(mb.next(), Ok(8));
    assert_eq!(mb.next(), Ok(4));
    total += 12;
    assert_eq!(total, 12);
    assert_eq!(mb.cpu.reg.a, 0x42);
    assert!(mb.cpu.halted);
    for _ in 0..5 {
        assert_eq!(mb.next(), Ok(4));
    }
    assert_eq!(mb.cpu.reg.pc, 0x0153);
}

#[test]
fn timer_overflow_jumps_to_vector() {
    let mut mb = board(&[0x00; 16]);
    mb.mmu.set(0xff06, 0xab);
    mb.mmu.set(0xff07, 0b101);
    mb.mmu.set(0xff05, 0xff);
    mb.mmu.set(0xffff, 0x04);
    mb.mmu.set(0xff0f, 0x00);
    mb.cpu.enable_interrupts = true;
    let mut spent = 0;
    while spent < 16 {
        spent += mb.next().unwrap();
    }
    assert_eq!(mb.mmu.get(0xff05), 0xab);
    assert_eq!(mb.mmu.get(0xff0f) & 0x04, 0x04);
    assert_eq!(mb.next(), Ok(16));
    assert_eq!(mb.cpu.reg.pc, 0x0050);
}

#[test]
fn halt_wakes_on_interrupt() {
    let mut mb = board(&[0x76, 0x00]);
    mb.mmu.set(0xffff, 0x01);
    mb.cpu.enable_interrupts = false;
    assert_eq!(mb.next(), Ok(4));
    assert!(mb.cpu.halted);
    assert_eq!(mb.next(), Ok(4));
    mb.mmu.set(0xff0f, 0x01);
    assert_eq!(mb.next(), Ok(4));
    assert!(!mb.cpu.halted);
}

#[test]
fn cb_operations_on_registers() {
    // LD B,0xf0 ; SWAP B ; BIT 7,B ; SET 0,B ; RES 4,B ; SRL B
    let (mut cpu, mut mmu) = cpu_and_bus(&[0x06, 0xf0, 0xcb, 0x30, 0xcb, 0x78, 0xcb, 0xc0, 0xcb, 0xa0, 0xcb, 0x38]);
    cpu.next(&mut mmu).unwrap();
    assert_eq!(cpu.next(&mut mmu), Ok(8));
    assert_eq!(cpu.reg.b, 0x0f);
    assert_eq!(cpu.reg.f & 0xf0, 0x00);
    cpu.next(&mut mmu).unwrap();
    assert_eq!(cpu.reg.f & 0x80, 0x80);
    assert_eq!(cpu.reg.f & 0x20, 0x20);
    cpu.next(&mut mmu).unwrap();
    assert_eq!(cpu.reg.b, 0x0f);
    cpu.next(&mut mmu).unwrap();
    assert_eq!(cpu.reg.b, 0x0f);
    cpu.next(&mut mmu).unwrap();
    assert_eq!(cpu.reg.b, 0x07);
    assert_eq!(cpu.reg.f & 0x10, 0x10);
}

#[test]
fn relative_jump_backwards() {
    // NOP ; JR -3 (back to the NOP)
    let (mut cpu, mut mmu) = cpu_and_bus(&[0x00, 0x18, 0xfd]);
    cpu.next(&mut mmu).unwrap();
    assert_eq!(cpu.next(&mut mmu), Ok(12));
    assert_eq!(cpu.reg.pc, 0x0150);
}

#[test]
fn add_hl_half_carry_from_bit_11() {
    // LD HL,0x0800 ; LD BC,0x0800 ; ADD HL,BC -> no carry from bit 11 ; LD BC,0x0800 ; ADD HL,BC -> carry from bit 11
    let (mut cpu, mut mmu) = cpu_and_bus(&[0x21, 0x00, 0x08, 0x01, 0x00, 0x08, 0x09, 0x09]);
    cpu.next(&mut mmu).unwrap();
    cpu.next(&mut mmu).unwrap();
    assert_eq!(cpu.next(&mut mmu), Ok(8));
    assert_eq!(cpu.reg.get_hl(), 0x1000);
    assert_eq!(cpu.reg.f & 0x20, 0x20);
    cpu.reg.set_hl(0x0400);
    cpu.reg.set_bc(0x0400);
    cpu.next(&mut mmu).unwrap();
    assert_eq!(cpu.reg.get_hl(), 0x0800);
    assert_eq!(cpu.reg.f & 0x20, 0x00);
}

#[test]
fn rlca_clears_zero() {
    // XOR A (Z set) ; RLCA on zero keeps Z clear
    let (mut cpu, mut mmu) = cpu_and_bus(&[0xaf, 0x07]);
    cpu.next(&mut mmu).unwrap();
    assert_eq!(cpu.next(&mut mmu), Ok(4));
    assert_eq!(cpu.reg.a, 0);
    assert_eq!(cpu.reg.f, 0x00);
}

#[test]
fn call_then_ret_round_trip() {
    // CALL 0x0160 ; at 0x0160: RET
    let mut prog = vec![0xcd, 0x60, 0x01];
    prog.resize(0x10, 0x00);
    prog.push(0xc9);
    let (mut cpu, mut mmu) = cpu_and_bus(&prog);
    let sp0 = cpu.reg.sp;
    assert_eq!(cpu.next(&mut mmu), Ok(24));
    assert_eq!(cpu.reg.pc, 0x0160);
    assert_eq!(cpu.reg.sp, sp0 - 2);
    assert_eq!(cpu.next(&mut mmu), Ok(16));
    assert_eq!(cpu.reg.pc, 0x0153);
    assert_eq!(cpu.reg.sp, sp0);
}

#[test]
fn push_bc_pop_de() {
    // LD BC,0x1234 ; PUSH BC ; POP DE
    let (mut cpu, mut mmu) = cpu_and_bus(&[0x01, 0x34, 0x12, 0xc5, 0xd1]);
    let sp0 = cpu.reg.sp;
    assert_eq!(cpu.next(&mut mmu), Ok(12));
    assert_eq!(cpu.next(&mut mmu), Ok(16));
    assert_eq!(cpu.next(&mut mmu), Ok(12));
    assert_eq!(cpu.reg.get_de(), 0x1234);
    assert_eq!(cpu.reg.get_bc(), 0x1234);
    assert_eq!(cpu.reg.sp, sp0);
}

#[test]
fn writes_through_hl() {
    // LD HL,0xC000 ; LD (HL),0x41 ; INC (HL) ; LD A,(HL+) ; LD (HL),A
    let (mut cpu, mut mmu) = cpu_and_bus(&[0x21, 0x00, 0xc0, 0x36, 0x41, 0x34, 0x2a, 0x77]);
    for _ in 0..5 {
        cpu.next(&mut mmu).unwrap();
    }
    assert_eq!(mmu.get(0xc000), 0x42);
    assert_eq!(cpu.reg.a, 0x42);
    assert_eq!(cpu.reg.get_hl(), 0xc001);
    assert_eq!(mmu.get(0xc001), 0x42);
}
