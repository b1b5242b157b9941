use gb_core::cartridge::Cartridge;
use gb_core::mmu::Mmu;
use gb_core::timer::{Timer, DIVIDER_REGISTER, TIMA, TMA, TMC};

fn bus() -> Mmu {
    Mmu::new(Cartridge::new(vec![0u8; 0x8000]).unwrap())
}

#[test]
fn timer_overflow_reloads_and_requests() {
    let mut t = Timer::new();
    t.writeb(TMC, 0x05);
    t.writeb(TIMA, 0xFF);
    t.writeb(TMA, 0xAB);
    t.update(16);
    assert_eq!(t.readb(TIMA), 0xAB);
    assert_eq!(t.int_request & 0x04, 0x04);
}

#[test]
fn timer_overflow_sets_if_through_bus() {
    let mut mmu = bus();
    mmu.writeb(0xFF07, 0x05);
    mmu.writeb(0xFF05, 0xFF);
    mmu.writeb(0xFF06, 0xAB);
    mmu.update(16);
    assert_eq!(mmu.readb(0xFF05), 0xAB);
    assert_eq!(mmu.readb(0xFF0F) & 0x04, 0x04);
}

#[test]
fn stopped_timer_keeps_tima() {
    for cycles in [0u32, 1, 16, 1024, 100_000] {
        let mut t = Timer::new();
        t.writeb(TIMA, 0x42);
        t.writeb(TMC, 0x01);
        t.update(cycles);
        assert_eq!(t.readb(TIMA), 0x42);
        assert_eq!(t.int_request, 0);
    }
}

#[test]
fn rates_follow_tac() {
    for (tac, period) in [(0x04u8, 1024u32), (0x05, 16), (0x06, 64), (0x07, 256)] {
        let mut t = Timer::new();
        t.writeb(TMC, tac);
        t.update(period - 1);
        assert_eq!(t.readb(TIMA), 0);
        t.update(1);
        assert_eq!(t.readb(TIMA), 1);
        t.update(period * 3);
        assert_eq!(t.readb(TIMA), 4);
    }
}

#[test]
fn divider_counts_every_256_cycles() {
    let mut t = Timer::new();
    t.update(255);
    assert_eq!(t.readb(DIVIDER_REGISTER), 0);
    t.update(1);
    assert_eq!(t.readb(DIVIDER_REGISTER), 1);
    t.update(256 * 300);
    assert_eq!(t.readb(DIVIDER_REGISTER), 45);
}

#[test]
fn div_write_resets() {
    for value in [0u8, 1, 0x80, 0xFF] {
        let mut mmu = bus();
        mmu.update(256 * 7);
        assert_eq!(mmu.readb(0xFF04), 7);
        mmu.writeb(0xFF04, value);
        assert_eq!(mmu.readb(0xFF04), 0);
    }
}

#[test]
fn many_overflows_in_one_update() {
    let mut t = Timer::new();
    t.writeb(TMC, 0x05);
    t.writeb(TMA, 0xFE);
    t.writeb(TIMA, 0xFE);
    t.update(16 * 5);
    // FE -> FF -> FE -> FF -> FE -> FF
    assert_eq!(t.readb(TIMA), 0xFF);
    assert_eq!(t.int_request, 0x04);
}
