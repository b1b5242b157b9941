use gb_core::cartridge::{Cartridge, CartridgeError, CartridgeMbc};
use gb_core::mbc1::Mbc1;
use gb_core::mbc3::Mbc3;
use gb_core::cartridge::Mbc;

fn rom_of(kind: u8, len: usize) -> Vec<u8> {
    let mut rom = vec![0u8; len];
    rom[0x147] = kind;
    rom
}

#[test]
fn mbc1_bank_switch() {
    let mut rom = rom_of(0x01, 0x88000);
    rom[0x14000] = 0xAB;
    rom[0x84000] = 0xCD;
    rom[0x4000] = 0x11;
    let mut cart = Cartridge::new(rom).unwrap();
    assert_eq!(cart.readb(0x4000), 0x11);
    cart.writeb(0x2000, 0x05);
    assert_eq!(cart.readb(0x4000), 0xAB);
    // Select the upper bank bits first, so that the low bits 0x20 & 0x1F = 0
    // would name bank 0x20, which maps to 0x21.
    cart.writeb(0x4000, 0x01);
    cart.writeb(0x2000, 0x20);
    assert_eq!(cart.readb(0x4000), 0xCD);
}

#[test]
fn mbc1_low_bank_zero_selects_next() {
    for (value, bank) in [(0x00u8, 0x01u8), (0x20, 0x01), (0x1F, 0x1F), (0x41, 0x01)] {
        let mut m = Mbc1::new(vec![0u8; 0x8000]);
        m.writeb(0x2000, value);
        assert_eq!(m.current_rom_bank, bank);
    }
    for high in 0..4u8 {
        let mut m = Mbc1::new(vec![0u8; 0x8000]);
        m.writeb(0x4000, high);
        m.writeb(0x2000, 0x00);
        assert_eq!(m.current_rom_bank, high * 0x20 + 1);
        assert!(![0x00, 0x20, 0x40, 0x60].contains(&m.current_rom_bank));
    }
}

#[test]
fn mbc1_ram_needs_enable() {
    let mut m = Mbc1::new(vec![0u8; 0x8000]);
    m.writeb(0xA000, 0x42);
    assert_eq!(m.readb(0xA000), 0xFF);
    m.writeb(0x0000, 0x0A);
    m.writeb(0xA000, 0x42);
    assert_eq!(m.readb(0xA000), 0x42);
    m.writeb(0x6000, 0x01);
    m.writeb(0x4000, 0x02);
    assert_eq!(m.current_ram_bank, 2);
    assert_eq!(m.readb(0xA000), 0x00);
    m.writeb(0x6000, 0x00);
    assert_eq!(m.current_ram_bank, 0);
    assert_eq!(m.readb(0xA000), 0x42);
    m.writeb(0x0000, 0x00);
    assert_eq!(m.readb(0xA000), 0xFF);
}

#[test]
fn mbc3_rom_bank_select() {
    let mut rom = vec![0u8; 0x200000];
    rom[0x7F * 0x4000] = 0x77;
    rom[0x4000] = 0x01;
    let mut m = Mbc3::new(rom);
    m.writeb(0x2000, 0xFF);
    assert_eq!(m.current_rom_bank, 0x7F);
    assert_eq!(m.readb(0x4000), 0x77);
    m.writeb(0x2000, 0x80);
    assert_eq!(m.current_rom_bank, 0x01);
    assert_eq!(m.readb(0x4000), 0x01);
}

#[test]
fn mbc3_ram_banks() {
    let mut m = Mbc3::new(vec![0u8; 0x8000]);
    m.writeb(0x0000, 0x0A);
    m.writeb(0x4000, 0x03);
    m.writeb(0xBFFF, 0x99);
    assert_eq!(m.readb(0xBFFF), 0x99);
    m.writeb(0x4000, 0x00);
    assert_eq!(m.readb(0xBFFF), 0x00);
    m.writeb(0x4000, 0x08);
    assert_eq!(m.readb(0xA000), 0x00);
}

#[test]
fn reads_past_rom_end_float_high() {
    let m = Mbc1::new(vec![0u8; 0x8000]);
    let mut m = m;
    m.writeb(0x2000, 0x10);
    assert_eq!(m.readb(0x4000), 0xFF);
}

#[test]
fn header_selects_controller() {
    assert!(matches!(Cartridge::new(rom_of(0x00, 0x8000)).unwrap().mbc, CartridgeMbc::NoMbc(_)));
    for kind in [0x01u8, 0x02, 0x03] {
        assert!(matches!(Cartridge::new(rom_of(kind, 0x8000)).unwrap().mbc, CartridgeMbc::Mbc1(_)));
    }
    assert!(matches!(Cartridge::new(rom_of(0x13, 0x8000)).unwrap().mbc, CartridgeMbc::Mbc3(_)));
}

#[test]
fn unsupported_controller_is_rejected() {
    assert_eq!(Cartridge::new(rom_of(0x05, 0x8000)).err(), Some(CartridgeError::UnsupportedMbc(0x05)));
    assert_eq!(Cartridge::new(vec![0u8; 0x100]).err(), Some(CartridgeError::MissingHeader));
}

#[test]
fn no_mbc_ignores_writes() {
    let mut rom = rom_of(0x00, 0x8000);
    rom[0x1234] = 0x56;
    let mut cart = Cartridge::new(rom).unwrap();
    cart.writeb(0x1234, 0x00);
    assert_eq!(cart.readb(0x1234), 0x56);
    assert_eq!(cart.readb(0xA000), 0xFF);
}
