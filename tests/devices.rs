use gameboy::apu::{Apu, BlipEvent, Lfsr};
use gameboy::cartridge;
use gameboy::clock::Clock;
use gameboy::convention::Term;
use gameboy::gpu::Gpu;
use gameboy::intf::{Flag, Intf};
use gameboy::joypad::{Joypad, JoypadKey};
use gameboy::mmunit::Mmunit;
use gameboy::serial::Serial;
use gameboy::timer::Timer;

const LOGO: [u8; 48] = [
    0xCE, 0xED, 0x66, 0x66, 0xCC, 0x0D, 0x00, 0x0B, 0x03, 0x73, 0x00, 0x83, 0x00, 0x0C, 0x00, 0x0D, 0x00, 0x08, 0x11,
    0x1F, 0x88, 0x89, 0x00, 0x0E, 0xDC, 0xCC, 0x6E, 0xE6, 0xDD, 0xDD, 0xD9, 0x99, 0xBB, 0xBB, 0x67, 0x63, 0x6E, 0x0E,
    0xEC, 0xCC, 0xDD, 0xDC, 0x99, 0x9F, 0xBB, 0xB9, 0x33, 0x3E,
];

fn bus() -> Mmunit {
    let mut rom = vec![0u8; 0x8000];
    rom[0x0104..0x0134].copy_from_slice(&LOGO);
    let mut v: u8 = 0;
    for i in 0x0134..0x014d {
        v = v.wrapping_sub(rom[i]).wrapping_sub(1);
    }
    rom[0x014d] = v;
    Mmunit::power_up(cartridge::power_up(rom, None, 0).unwrap())
}

#[test]
fn clock_divides() {
    let mut c = Clock::power_up(16);
    assert_eq!(c.next(15), 0);
    assert_eq!(c.next(1), 1);
    assert_eq!(c.next(40), 2);
    assert_eq!(c.n, 8);
}

#[test]
fn intf_raises_bits() {
    let mut i = Intf::power_up();
    i.hi(Flag::Timer);
    i.hi(Flag::Joypad);
    assert_eq!(i.data, 0x14);
}

#[test]
fn timer_counts_every_16_cycles() {
    let mut t = Timer::power_up();
    let mut intf = Intf::power_up();
    t.set(0xff07, 0b101);
    t.set(0xff05, 0x00);
    t.next(&mut intf, 16);
    assert_eq!(t.get(0xff05), 1);
    t.next(&mut intf, 0xfe * 16);
    assert_eq!(t.get(0xff05), 0xff);
    assert_eq!(intf.data, 0);
    t.set(0xff06, 0x33);
    t.next(&mut intf, 16);
    assert_eq!(t.get(0xff05), 0x33);
    assert_eq!(intf.data, 0x04);
}

#[test]
fn timer_div_and_tac_change() {
    let mut t = Timer::power_up();
    let mut intf = Intf::power_up();
    t.next(&mut intf, 512);
    assert_eq!(t.get(0xff04), 2);
    t.set(0xff04, 0x55);
    assert_eq!(t.get(0xff04), 0);
    t.set(0xff06, 0x42);
    t.set(0xff07, 0b110);
    assert_eq!(t.get(0xff05), 0x42);
}

#[test]
fn joypad_matrix() {
    let mut j = Joypad::power_up();
    let mut intf = Intf::power_up();
    j.keydown(&mut intf, JoypadKey::A);
    assert_eq!(intf.data, 0x10);
    j.set(0xff00, 0x10);
    assert_eq!(j.get(0xff00), 0x10 | 0x0e);
    j.set(0xff00, 0x20);
    assert_eq!(j.get(0xff00), 0x20 | 0x0f);
    j.keyup(JoypadKey::A);
    j.set(0xff00, 0x10);
    assert_eq!(j.get(0xff00), 0x1f);
}

#[test]
fn serial_registers() {
    let mut s = Serial::power_up();
    s.set(0xff01, 0x12);
    s.set(0xff02, 0x81);
    assert_eq!((s.get(0xff01), s.get(0xff02)), (0x12, 0x81));
}

#[test]
fn oam_dma_copies_from_wram() {
    let mut mmu = bus();
    for i in 0..0xa0u16 {
        mmu.set(0xc000 + i, i as u8);
    }
    mmu.set(0xff46, 0xc0);
    for i in 0..0xa0u16 {
        assert_eq!(mmu.get(0xfe00 + i), i as u8);
    }
}

#[test]
fn bus_map_details() {
    let mut mmu = bus();
    mmu.set(0xc123, 0x44);
    assert_eq!(mmu.get(0xe123), 0x44);
    mmu.set(0xfea0, 0x12);
    assert_eq!(mmu.get(0xfea0), 0x00);
    mmu.set(0xff70, 0x00);
    assert_eq!(mmu.get(0xff70), 1);
    mmu.set(0xff70, 0x03);
    mmu.set(0xd000, 0x99);
    mmu.set(0xff70, 0x01);
    assert_ne!(mmu.get(0xd000), 0x99);
    mmu.set(0xff70, 0x03);
    assert_eq!(mmu.get(0xd000), 0x99);
    mmu.set(0xff80, 0x31);
    assert_eq!(mmu.get(0xff80), 0x31);
    mmu.set(0xff4d, 0x01);
    assert_eq!(mmu.get(0xff4d), 0x01);
    mmu.switch_speed();
    assert_eq!(mmu.get(0xff4d), 0x80);
}

#[test]
fn gdma_copies_blocks_to_vram() {
    let mut mmu = bus();
    for i in 0..0x20u16 {
        mmu.set(0xc000 + i, 0x80 | i as u8);
    }
    mmu.set(0xff51, 0xc0);
    mmu.set(0xff52, 0x00);
    mmu.set(0xff53, 0x01);
    mmu.set(0xff54, 0x00);
    mmu.set(0xff55, 0x01);
    let gpu_cycles = mmu.next(4);
    assert_eq!(gpu_cycles, 4 + 16);
    for i in 0..0x20u16 {
        assert_eq!(mmu.get(0x8100 + i), 0x80 | i as u8);
    }
    assert_eq!(mmu.get(0xff55), 0xff);
}

#[test]
fn scanline_renders_black_tile() {
    let mut gpu = Gpu::power_up(Term::GB);
    let mut intf = Intf::power_up();
    gpu.set(0xff40, 0x91);
    gpu.set(0xff47, 0xe4);
    for i in 0..16u16 {
        gpu.set(0x8000 + i, 0xff);
    }
    gpu.set(0x9801, 0x01);
    gpu.next(&mut intf, 260);
    for x in 0..8 {
        let p = x * 3;
        assert_eq!(&gpu.data[p..p + 3], &[0x00, 0x00, 0x00]);
    }
    let p = 8 * 3;
    assert_eq!(&gpu.data[p..p + 3], &[0xff, 0xff, 0xff]);
}

#[test]
fn frame_period_and_vblank() {
    let mut gpu = Gpu::power_up(Term::GB);
    let mut intf = Intf::power_up();
    gpu.set(0xff40, 0x91);
    let mut vblanks = 0;
    for _ in 0..(70224 / 4) {
        gpu.next(&mut intf, 4);
        if intf.data & 0x01 != 0 {
            vblanks += 1;
            intf.data = 0;
        }
    }
    assert_eq!(gpu.get(0xff44), 0);
    assert_eq!(vblanks, 1);
}

#[test]
fn gray_shades_and_cgb_palette() {
    assert_eq!(Gpu::get_gray_shades(0xe4, 0).value(), 0xff);
    assert_eq!(Gpu::get_gray_shades(0xe4, 1).value(), 0xc0);
    assert_eq!(Gpu::get_gray_shades(0xe4, 2).value(), 0x60);
    assert_eq!(Gpu::get_gray_shades(0xe4, 3).value(), 0x00);
    let mut gpu = Gpu::power_up(Term::GBC);
    gpu.set(0xff68, 0x80);
    gpu.set(0xff69, 0xff);
    gpu.set(0xff69, 0x7f);
    assert_eq!(gpu.get(0xff68), 0x82);
    gpu.set(0xff68, 0x00);
    assert_eq!(gpu.get(0xff69), 0xff);
    gpu.set(0xff40, 0x91);
    gpu.ly = 0;
    gpu.set_rgb(0, 0x1f, 0x1f, 0x1f);
    assert_eq!(&gpu.data[0..3], &[(31 * 16 / 2) as u8, (31 * 4 * 2) as u8, (31 * 16 / 2) as u8]);
}

#[test]
fn square_channel_produces_alternating_deltas() {
    let mut apu = Apu::power_up();
    apu.set(0xff26, 0x80);
    apu.set(0xff11, 0x80);
    apu.set(0xff12, 0xf0);
    apu.set(0xff13, 0x00);
    apu.set(0xff14, 0x87);
    apu.next(8192);
    let events = apu.take_events();
    let deltas: Vec<i32> = events[0]
        .iter()
        .filter_map(|e| match e {
            BlipEvent::Delta(_, d) if *d != 0 => Some(*d),
            _ => None,
        })
        .collect();
    assert!(deltas.len() >= 3);
    for w in deltas.windows(2) {
        assert!(w[0] != 0 && w[1] != 0);
        assert!(w[0].signum() == -w[1].signum());
    }
    assert!(events[0].contains(&BlipEvent::EndFrame(8192)));
}

#[test]
fn sweep_overflow_disables_on_trigger() {
    let mut apu = Apu::power_up();
    apu.set(0xff26, 0x80);
    apu.set(0xff10, 0x11);
    apu.set(0xff12, 0xf0);
    apu.set(0xff13, 0xff);
    apu.set(0xff14, 0x87);
    assert_eq!(apu.get(0xff26) & 0x01, 0x00);
    apu.set(0xff13, 0x00);
    apu.set(0xff14, 0x81);
    assert_eq!(apu.get(0xff26) & 0x01, 0x01);
}

#[test]
fn apu_power_off_clears_registers() {
    let mut apu = Apu::power_up();
    apu.set(0xff26, 0x80);
    apu.set(0xff24, 0x77);
    apu.set(0xff30, 0xab);
    apu.set(0xff26, 0x00);
    assert_eq!(apu.get(0xff24), 0x00);
    assert_eq!(apu.get(0xff30), 0xab);
    assert_eq!(apu.get(0xff10), 0x80);
}

#[test]
fn mixer_gains() {
    let mut apu = Apu::power_up();
    apu.set(0xff26, 0x80);
    apu.set(0xff24, 0x73);
    apu.set(0xff25, 0x21);
    let g = apu.mix_gains();
    assert_eq!(g, vec![(0, 3), (7, 0), (0, 0), (0, 0)]);
}

fn lfsr_period(width: bool) -> usize {
    let mut l = Lfsr::power_up();
    for _ in 0..40000 {
        l.next(width);
    }
    let start = l.n;
    let mut k = 0;
    loop {
        l.next(width);
        k += 1;
        if l.n == start {
            return k;
        }
    }
}

#[test]
fn lfsr_periods() {
    assert_eq!(lfsr_period(true), 127);
    assert_eq!(lfsr_period(false), 32767);
}

#[test]
fn apu_ignores_writes_while_off() {
    let mut apu = Apu::power_up();
    apu.set(0xff11, 0x80);
    apu.set(0xff24, 0x77);
    assert_eq!(apu.get(0xff11), 0x7f);
    assert_eq!(apu.get(0xff24), 0x00);
    apu.set(0xff26, 0x80);
    apu.set(0xff24, 0x77);
    assert_eq!(apu.get(0xff24), 0x77);
}
