use gb_core::cartridge::Cartridge;
use gb_core::mmu::Mmu;

fn bus() -> Mmu {
    Mmu::new(Cartridge::new(vec![0u8; 0x8000]).unwrap())
}

#[test]
fn dma_copies_a_page_into_oam() {
    let mut mmu = bus();
    for i in 0..0xA0u16 {
        mmu.writeb(0xC000 + i, (i as u8).wrapping_mul(3).wrapping_add(1));
    }
    mmu.writeb(0xFF46, 0xC0);
    for i in 0..0xA0u16 {
        assert_eq!(mmu.readb(0xFE00 + i), mmu.readb(0xC000 + i));
    }
}

#[test]
fn plain_registers_read_back() {
    for addr in [0xFF42u16, 0xFF43, 0xFF4A, 0xFF4B, 0xFF45, 0xFF47, 0xFF48, 0xFF49, 0xFF06, 0xFF05, 0xFF07] {
        for v in [0x00u8, 0x5A, 0xFF] {
            let mut mmu = bus();
            mmu.writeb(addr, v);
            assert_eq!(mmu.readb(addr), v, "register {:#06x}", addr);
        }
    }
}

#[test]
fn echo_ram_mirrors_work_ram() {
    let mut mmu = bus();
    mmu.writeb(0xE010, 0x77);
    assert_eq!(mmu.readb(0xC010), 0x77);
    assert_eq!(mmu.readb(0xE010), 0x77);
    mmu.writeb(0xC020, 0x66);
    assert_eq!(mmu.readb(0xE020), 0x66);
}

#[test]
fn restricted_area_reads_ff() {
    let mut mmu = bus();
    mmu.writeb(0xFEA0, 0x12);
    assert_eq!(mmu.readb(0xFEA0), 0xFF);
}

#[test]
fn words_are_little_endian() {
    let mut mmu = bus();
    mmu.writew(0xC100, 0xBEEF);
    assert_eq!(mmu.readb(0xC100), 0xEF);
    assert_eq!(mmu.readb(0xC101), 0xBE);
    assert_eq!(mmu.readw(0xC100), 0xBEEF);
}

#[test]
fn interrupt_registers() {
    let mut mmu = bus();
    mmu.writeb(0xFFFF, 0x1F);
    mmu.writeb(0xFF0F, 0x01);
    assert_eq!(mmu.readb(0xFFFF), 0x1F);
    assert_eq!(mmu.readb(0xFF0F), 0x01);
}

#[test]
fn joypad_interrupt_is_drained() {
    let mut mmu = bus();
    mmu.writeb(0xFF00, 0x10);
    mmu.joypad.on_key_pressed(gb_core::joypad::JoypadInput::A);
    mmu.update(4);
    assert_eq!(mmu.readb(0xFF0F) & 0x10, 0x10);
    assert_eq!(mmu.joypad.int_request, 0);
}

#[test]
fn boot_values_in_backing_memory() {
    let mmu = bus();
    assert_eq!(mmu.readb(0xFF26), 0xF1);
    assert_eq!(mmu.readb(0xFF10), 0x80);
    assert_eq!(mmu.readb(0xFF47), 0x00);
}
