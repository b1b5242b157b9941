use gb_core::cartridge::Cartridge;
use gb_core::cpu::{run_one_frame, Cpu, CpuError};
use gb_core::mmu::Mmu;

/// A bus over a 32 KiB ROM without controller, with `code` at `at`.
fn bus_with_code(at: usize, code: &[u8]) -> Mmu {
    let mut rom = vec![0u8; 0x8000];
    rom[at..at + code.len()].copy_from_slice(code);
    Mmu::new(Cartridge::new(rom).unwrap())
}

fn run(cpu: &mut Cpu, mmu: &mut Mmu) -> u32 {
    cpu.run_cycle(mmu)
}

#[test]
fn add_overflow_with_half_carry() {
    let mut mmu = bus_with_code(0x100, &[0x80]);
    let mut cpu = Cpu::new();
    cpu.reg.a = 0x3A;
    cpu.reg.b = 0xC6;
    cpu.reg.f = 0x00;
    assert_eq!(run(&mut cpu, &mut mmu), 4);
    assert_eq!(cpu.reg.a, 0x00);
    assert!(cpu.reg.get_z());
    assert!(!cpu.reg.get_n());
    assert!(cpu.reg.get_h());
    assert!(cpu.reg.get_c());
}

#[test]
fn sub_with_borrow() {
    let mut mmu = bus_with_code(0x100, &[0x93]);
    let mut cpu = Cpu::new();
    cpu.reg.a = 0x3E;
    cpu.reg.e = 0x3E;
    cpu.reg.f = 0x00;
    assert_eq!(run(&mut cpu, &mut mmu), 4);
    assert_eq!(cpu.reg.a, 0x00);
    assert!(cpu.reg.get_z());
    assert!(cpu.reg.get_n());
    assert!(!cpu.reg.get_h());
    assert!(!cpu.reg.get_c());
}

#[test]
fn conditional_jr_taken() {
    let mut mmu = bus_with_code(0x150, &[0x28, 0xFB]);
    let mut cpu = Cpu::new();
    cpu.reg.pc = 0x0150;
    cpu.reg.f = 0x80;
    assert_eq!(run(&mut cpu, &mut mmu), 12);
    assert_eq!(cpu.reg.pc, 0x014D);
}

#[test]
fn conditional_jr_not_taken() {
    let mut mmu = bus_with_code(0x150, &[0x28, 0xFB]);
    let mut cpu = Cpu::new();
    cpu.reg.pc = 0x0150;
    cpu.reg.f = 0x00;
    assert_eq!(run(&mut cpu, &mut mmu), 8);
    assert_eq!(cpu.reg.pc, 0x0152);
}

#[test]
fn flags_low_nibble_stays_zero_for_every_opcode() {
    let undefined = [0xD3u8, 0xDB, 0xDD, 0xE3, 0xE4, 0xEB, 0xEC, 0xED, 0xF4, 0xFC, 0xFD];
    for op in 0..=255u8 {
        if undefined.contains(&op) {
            continue;
        }
        for prefixed in 0..=255u8 {
            if op != 0xCB && prefixed > 0 {
                break;
            }
            let mut mmu = bus_with_code(0x100, &[op, prefixed, 0x34, 0x12]);
            let mut cpu = Cpu::new();
            cpu.reg.a = 0x9A;
            cpu.reg.b = 0x0F;
            cpu.reg.f = 0xF0;
            cpu.reg.set_hl(0xC123);
            cpu.reg.sp = 0xDFF0;
            let cycles = run(&mut cpu, &mut mmu);
            assert!((4..=24).contains(&cycles));
            assert_eq!(cpu.reg.f & 0x0F, 0, "opcode {:#04x} {:#04x}", op, prefixed);
        }
    }
}

#[test]
fn push_af_then_pop_af_restores_af() {
    let mut mmu = bus_with_code(0x100, &[0xF5, 0xAF, 0xF1]);
    let mut cpu = Cpu::new();
    cpu.reg.sp = 0xDFF0;
    cpu.reg.a = 0x12;
    cpu.reg.f = 0xB0;
    assert_eq!(run(&mut cpu, &mut mmu), 16);
    assert_eq!(cpu.reg.sp, 0xDFEE);
    run(&mut cpu, &mut mmu); // XOR A
    assert_eq!(cpu.reg.a, 0);
    assert_eq!(run(&mut cpu, &mut mmu), 12);
    assert_eq!(cpu.reg.af(), 0x12B0);
    assert_eq!(cpu.reg.sp, 0xDFF0);
}

#[test]
fn pop_af_clears_low_nibble_of_f() {
    let mut mmu = bus_with_code(0x100, &[0xF1]);
    mmu.writeb(0xDFEE, 0xFF);
    mmu.writeb(0xDFEF, 0x12);
    let mut cpu = Cpu::new();
    cpu.reg.sp = 0xDFEE;
    run(&mut cpu, &mut mmu);
    assert_eq!(cpu.reg.a, 0x12);
    assert_eq!(cpu.reg.f, 0xF0);
}

#[test]
fn call_and_ret() {
    let mut mmu = bus_with_code(0x100, &[0xCD, 0x00, 0x20]);
    mmu.writeb(0xC000, 0); // keep the bus busy with plain RAM
    let mut cpu = Cpu::new();
    cpu.reg.sp = 0xDFF0;
    assert_eq!(run(&mut cpu, &mut mmu), 24);
    assert_eq!(cpu.reg.pc, 0x2000);
    assert_eq!(cpu.reg.sp, 0xDFEE);
    assert_eq!(mmu.readw(0xDFEE), 0x0103);
    let mut mmu2 = bus_with_code(0x2000, &[0xC9]);
    mmu2.writew(0xDFEE, 0x0103);
    assert_eq!(run(&mut cpu, &mut mmu2), 16);
    assert_eq!(cpu.reg.pc, 0x0103);
    assert_eq!(cpu.reg.sp, 0xDFF0);
}

#[test]
fn rst_pushes_pc() {
    let mut mmu = bus_with_code(0x100, &[0xEF]);
    let mut cpu = Cpu::new();
    cpu.reg.sp = 0xDFF0;
    assert_eq!(run(&mut cpu, &mut mmu), 16);
    assert_eq!(cpu.reg.pc, 0x0028);
    assert_eq!(mmu.readw(0xDFEE), 0x0101);
}

#[test]
fn daa_adjusts_bcd_addition() {
    let mut mmu = bus_with_code(0x100, &[0x80, 0x27]);
    let mut cpu = Cpu::new();
    cpu.reg.a = 0x15;
    cpu.reg.b = 0x27;
    cpu.reg.f = 0;
    run(&mut cpu, &mut mmu);
    assert_eq!(cpu.reg.a, 0x3C);
    run(&mut cpu, &mut mmu);
    assert_eq!(cpu.reg.a, 0x42);
    assert!(!cpu.reg.get_c());
}

#[test]
fn inc_dec_keep_carry() {
    let mut mmu = bus_with_code(0x100, &[0x04, 0x05, 0x05]);
    let mut cpu = Cpu::new();
    cpu.reg.b = 0x0F;
    cpu.reg.f = 0x10;
    run(&mut cpu, &mut mmu);
    assert_eq!(cpu.reg.b, 0x10);
    assert_eq!(cpu.reg.f, 0x30);
    run(&mut cpu, &mut mmu);
    assert_eq!(cpu.reg.b, 0x0F);
    assert_eq!(cpu.reg.f, 0x70);
    cpu.reg.b = 0x01;
    run(&mut cpu, &mut mmu);
    assert_eq!(cpu.reg.b, 0x00);
    assert_eq!(cpu.reg.f, 0xD0);
}

#[test]
fn add_hl_and_add_sp() {
    let mut mmu = bus_with_code(0x100, &[0x09, 0xE8, 0xFF, 0xF8, 0x02]);
    let mut cpu = Cpu::new();
    cpu.reg.set_hl(0x0FFF);
    cpu.reg.set_bc(0x0001);
    cpu.reg.f = 0x80;
    assert_eq!(run(&mut cpu, &mut mmu), 8);
    assert_eq!(cpu.reg.hl(), 0x1000);
    assert_eq!(cpu.reg.f, 0xA0);
    cpu.reg.sp = 0x0001;
    assert_eq!(run(&mut cpu, &mut mmu), 16);
    assert_eq!(cpu.reg.sp, 0x0000);
    assert_eq!(cpu.reg.f, 0x30);
    assert_eq!(run(&mut cpu, &mut mmu), 12);
    assert_eq!(cpu.reg.hl(), 0x0002);
    assert_eq!(cpu.reg.f, 0x00);
}

#[test]
fn prefixed_swap_bit_res_set() {
    let mut mmu = bus_with_code(0x100, &[0xCB, 0x37, 0xCB, 0x7F, 0xCB, 0xBF, 0xCB, 0xC0, 0xCB, 0x46]);
    let mut cpu = Cpu::new();
    cpu.reg.a = 0xF1;
    cpu.reg.b = 0x00;
    cpu.reg.f = 0x10;
    cpu.reg.set_hl(0xC000);
    assert_eq!(run(&mut cpu, &mut mmu), 8);
    assert_eq!(cpu.reg.a, 0x1F);
    assert_eq!(cpu.reg.f, 0x00);
    assert_eq!(run(&mut cpu, &mut mmu), 8); // BIT 7, A
    assert_eq!(cpu.reg.f, 0xA0);
    cpu.reg.a = 0x80;
    run(&mut cpu, &mut mmu); // RES 7, A
    assert_eq!(cpu.reg.a, 0x00);
    run(&mut cpu, &mut mmu); // SET 0, B
    assert_eq!(cpu.reg.b, 0x01);
    mmu.writeb(0xC000, 0x01);
    assert_eq!(run(&mut cpu, &mut mmu), 12); // BIT 0, (HL)
    assert!(!cpu.reg.get_z());
}

#[test]
fn rotations_through_carry() {
    let mut mmu = bus_with_code(0x100, &[0x17, 0x1F, 0x07]);
    let mut cpu = Cpu::new();
    cpu.reg.a = 0x80;
    cpu.reg.f = 0x00;
    run(&mut cpu, &mut mmu); // RLA
    assert_eq!(cpu.reg.a, 0x00);
    assert_eq!(cpu.reg.f, 0x10);
    run(&mut cpu, &mut mmu); // RRA
    assert_eq!(cpu.reg.a, 0x80);
    assert_eq!(cpu.reg.f, 0x00);
    run(&mut cpu, &mut mmu); // RLCA
    assert_eq!(cpu.reg.a, 0x01);
    assert_eq!(cpu.reg.f, 0x10);
}

#[test]
fn loads_through_hl() {
    let mut mmu = bus_with_code(0x100, &[0x36, 0x5A, 0x7E, 0x22, 0x3A]);
    let mut cpu = Cpu::new();
    cpu.reg.set_hl(0xC010);
    assert_eq!(run(&mut cpu, &mut mmu), 12);
    assert_eq!(mmu.readb(0xC010), 0x5A);
    assert_eq!(run(&mut cpu, &mut mmu), 8);
    assert_eq!(cpu.reg.a, 0x5A);
    run(&mut cpu, &mut mmu); // LD (HL+), A
    assert_eq!(cpu.reg.hl(), 0xC011);
    run(&mut cpu, &mut mmu); // LD A, (HL-)
    assert_eq!(cpu.reg.hl(), 0xC010);
    assert_eq!(cpu.reg.a, 0x00);
}

#[test]
fn halted_cpu_idles() {
    let mut mmu = bus_with_code(0x100, &[0x76]);
    let mut cpu = Cpu::new();
    assert_eq!(run(&mut cpu, &mut mmu), 4);
    assert!(cpu.halted);
    assert_eq!(run(&mut cpu, &mut mmu), 4);
    assert_eq!(cpu.reg.pc, 0x0101);
}

#[test]
fn interrupt_wakes_halted_cpu_even_with_ime_clear() {
    let mut mmu = bus_with_code(0x100, &[0xF3, 0x76]);
    let mut cpu = Cpu::new();
    cpu.reg.sp = 0xDFF0;
    run(&mut cpu, &mut mmu);
    run(&mut cpu, &mut mmu);
    assert!(cpu.halted && !cpu.ime);
    mmu.int_enabled = 0x04;
    mmu.int_request = 0x04;
    cpu.check_interupts(&mut mmu);
    assert!(!cpu.halted);
    assert_eq!(cpu.reg.pc, 0x50);
    assert_eq!(mmu.int_request, 0x00);
    assert_eq!(mmu.readw(0xDFEE), 0x0102);
}

#[test]
fn disabled_interrupts_are_ignored() {
    let mut mmu = bus_with_code(0x100, &[]);
    let mut cpu = Cpu::new();
    cpu.ime = false;
    mmu.int_enabled = 0x01;
    mmu.int_request = 0x01;
    cpu.check_interupts(&mut mmu);
    assert_eq!(cpu.reg.pc, 0x0100);
    assert_eq!(mmu.int_request, 0x01);
}

#[test]
fn vblank_interrupt_is_serviced() {
    let mut mmu = bus_with_code(0x100, &[]);
    let mut cpu = Cpu::new();
    cpu.reg.sp = 0xDFF0;
    mmu.writeb(0xFF40, 0x91);
    mmu.update(143 * 456);
    assert_eq!(mmu.readb(0xFF44), 143);
    mmu.int_request = 0;
    mmu.int_enabled = 0x01;
    cpu.ime = true;
    let mut before = cpu.reg.pc;
    while mmu.readb(0xFF44) != 144 {
        let cycles = cpu.run_cycle(&mut mmu);
        before = cpu.reg.pc;
        mmu.update(cycles);
        cpu.check_interupts(&mut mmu);
    }
    assert_eq!(cpu.reg.pc, 0x0040);
    assert!(!cpu.ime);
    assert_eq!(cpu.reg.sp, 0xDFEE);
    assert_eq!(mmu.readw(0xDFEE), before);
}

#[test]
fn frame_runs_enough_cycles() {
    let mut mmu = bus_with_code(0x100, &[]);
    let mut cpu = Cpu::new();
    let cycles = run_one_frame(&mut cpu, &mut mmu).unwrap();
    assert!(cycles >= 69905 && cycles < 69905 + 24);
}

#[test]
fn frame_stops_on_unknown_opcode() {
    let mut mmu = bus_with_code(0x100, &[0x00, 0xD3]);
    let mut cpu = Cpu::new();
    assert_eq!(run_one_frame(&mut cpu, &mut mmu), Err(CpuError::UnknownOpcode { opcode: 0xD3, pc: 0x0101 }));
}
