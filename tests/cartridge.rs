use gameboy::cartridge::{self, rtc_anchor, Cartridge, CartridgeError, RealTimeClock};

const LOGO: [u8; 48] = [
    0xCE, 0xED, 0x66, 0x66, 0xCC, 0x0D, 0x00, 0x0B, 0x03, 0x73, 0x00, 0x83, 0x00, 0x0C, 0x00, 0x0D, 0x00, 0x08, 0x11,
    0x1F, 0x88, 0x89, 0x00, 0x0E, 0xDC, 0xCC, 0x6E, 0xE6, 0xDD, 0xDD, 0xD9, 0x99, 0xBB, 0xBB, 0x67, 0x63, 0x6E, 0x0E,
    0xEC, 0xCC, 0xDD, 0xDC, 0x99, 0x9F, 0xBB, 0xB9, 0x33, 0x3E,
];

fn fix_checksum(rom: &mut [u8]) {
    let mut v: u8 = 0;
    for i in 0x0134..0x014d {
        v = v.wrapping_sub(rom[i]).wrapping_sub(1);
    }
    rom[0x014d] = v;
}

fn make_rom(size: usize, kind: u8, rom_code: u8, ram_code: u8) -> Vec<u8> {
    let mut rom = vec![0u8; size];
    rom[0x0104..0x0134].copy_from_slice(&LOGO);
    rom[0x0147] = kind;
    rom[0x0148] = rom_code;
    rom[0x0149] = ram_code;
    fix_checksum(&mut rom);
    rom
}

#[test]
fn bad_logo_is_refused() {
    let mut rom = make_rom(0x8000, 0x00, 0x00, 0x00);
    rom[0x0110] ^= 0xff;
    fix_checksum(&mut rom);
    assert!(matches!(cartridge::power_up(rom, None, 0), Err(CartridgeError::BadLogo)));
}

#[test]
fn bad_checksum_is_refused() {
    let mut rom = make_rom(0x8000, 0x00, 0x00, 0x00);
    rom[0x014d] = rom[0x014d].wrapping_add(1);
    assert!(matches!(cartridge::power_up(rom, None, 0), Err(CartridgeError::BadChecksum)));
}

#[test]
fn header_errors() {
    assert!(matches!(cartridge::power_up(vec![0u8; 0x100], None, 0), Err(CartridgeError::TruncatedHeader)));
    let rom = make_rom(0x8000, 0x22, 0x00, 0x00);
    assert!(matches!(cartridge::power_up(rom, None, 0), Err(CartridgeError::UnsupportedType(0x22))));
    let rom = make_rom(0x8000, 0x00, 0x09, 0x00);
    assert!(matches!(cartridge::power_up(rom, None, 0), Err(CartridgeError::UnsupportedRomSize(0x09))));
    let rom = make_rom(0x8000, 0x02, 0x00, 0x07);
    assert!(matches!(cartridge::power_up(rom, None, 0), Err(CartridgeError::UnsupportedRamSize(0x07))));
}

#[test]
fn sizes_from_header_codes() {
    assert_eq!(cartridge::rom_size(0x00), Some(0x8000));
    assert_eq!(cartridge::rom_size(0x05), Some(0x10_0000));
    assert_eq!(cartridge::rom_size(0x08), Some(0x80_0000));
    assert_eq!(cartridge::rom_size(0x52), Some(72 * 0x4000));
    assert_eq!(cartridge::rom_size(0x54), Some(96 * 0x4000));
    assert_eq!(cartridge::rom_size(0x10), None);
    assert_eq!(cartridge::ram_size(0x03), Some(32768));
    assert_eq!(cartridge::ram_size(0x05), Some(65536));
    assert_eq!(cartridge::ram_size(0x06), None);
}

#[test]
fn mbc1_switch_reads_selected_bank() {
    let mut rom = make_rom(512 * 1024, 0x01, 0x04, 0x00);
    for bank in 0..32 {
        rom[bank * 0x4000 + 0x10] = bank as u8;
    }
    rom[0x14000] = 0x5a;
    fix_checksum(&mut rom);
    let mut cart = cartridge::power_up(rom, None, 0).unwrap();
    cart.set(0x2000, 0x05);
    assert_eq!(cart.get(0x4000), 0x5a);
    assert_eq!(cart.get(0x4010), 5);
}

#[test]
fn mbc1_bank_zero_selects_one() {
    let mut rom = make_rom(512 * 1024, 0x01, 0x04, 0x00);
    for bank in 0..32 {
        rom[bank * 0x4000 + 0x10] = bank as u8;
    }
    fix_checksum(&mut rom);
    let mut cart = cartridge::power_up(rom, None, 0).unwrap();
    cart.set(0x2000, 0x00);
    assert_eq!(cart.get(0x4010), 1);
    cart.set(0x2000, 0x03);
    cart.set(0x4000, 0x01);
    match &cart {
        Cartridge::Mbc1(m) => {
            assert_eq!(m.rom_bank(), 0x23);
            assert_eq!(m.ram_bank(), 0);
        }
        _ => panic!("expected an MBC1 cartridge"),
    }
}

#[test]
fn mbc1_ram_enable_and_save() {
    let rom = make_rom(0x8000, 0x03, 0x00, 0x02);
    let mut cart = cartridge::power_up(rom, None, 0).unwrap();
    cart.set(0xa000, 0x77);
    assert_eq!(cart.get(0xa000), 0x00);
    cart.set(0x0000, 0x0a);
    cart.set(0xa000, 0x77);
    assert_eq!(cart.get(0xa000), 0x77);
    let saved = cart.sav();
    assert_eq!(saved.len(), 8192);
    assert_eq!(saved[0], 0x77);
    let rom = make_rom(0x8000, 0x03, 0x00, 0x02);
    let cart2 = cartridge::power_up(rom, Some(saved), 0).unwrap();
    match &cart2 {
        Cartridge::Mbc1(m) => assert_eq!(m.ram[0], 0x77),
        _ => panic!("expected an MBC1 cartridge"),
    }
}

#[test]
fn mbc2_keeps_low_nibble() {
    let rom = make_rom(0x8000, 0x05, 0x00, 0x00);
    let mut cart = cartridge::power_up(rom, None, 0).unwrap();
    cart.set(0x0000, 0x0a);
    cart.set(0xa001, 0xfe);
    assert_eq!(cart.get(0xa001), 0x0e);
}

#[test]
fn mbc5_nine_bit_bank() {
    let mut rom = make_rom(0x80_0000, 0x19, 0x08, 0x00);
    rom[0x101 * 0x4000] = 0x99;
    fix_checksum(&mut rom);
    let mut cart = cartridge::power_up(rom, None, 0).unwrap();
    cart.set(0x2000, 0x01);
    cart.set(0x3000, 0x01);
    assert_eq!(cart.get(0x4000), 0x99);
}

#[test]
fn title_stops_at_zero() {
    let mut rom = make_rom(0x8000, 0x00, 0x00, 0x00);
    rom[0x0134..0x0138].copy_from_slice(b"TEST");
    fix_checksum(&mut rom);
    let cart = cartridge::power_up(rom, None, 0).unwrap();
    assert_eq!(cart.title(), b"TEST".to_vec());
}

#[test]
fn rtc_latches_elapsed_time() {
    let mut rtc = RealTimeClock::power_up(1000);
    rtc.tic(1000 + 2 * 86400 + 3 * 3600 + 4 * 60 + 5);
    assert_eq!((rtc.s, rtc.m, rtc.h, rtc.dl, rtc.dh), (5, 4, 3, 2, 0));
    rtc.tic(1000 + 300 * 86400);
    assert_eq!(rtc.dl, (300 % 256) as u8);
    assert_eq!(rtc.dh & 0x01, 0x01);
    assert_eq!(rtc.sav(), 1000u64.to_be_bytes().to_vec());
}

#[test]
fn rtc_anchor_reads_big_endian() {
    assert_eq!(rtc_anchor(Some(vec![0, 0, 0, 0, 0, 0, 0x01, 0x02]), 7), 0x0102);
    assert_eq!(rtc_anchor(Some(vec![1, 2]), 7), 7);
    assert_eq!(rtc_anchor(None, 9), 9);
}
