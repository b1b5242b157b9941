use gb_core::registers::Registers;

#[test]
fn power_on_values() {
    let r = Registers::new();
    assert_eq!(r.af(), 0x01B0);
    assert_eq!(r.bc(), 0x0013);
    assert_eq!(r.de(), 0x00D8);
    assert_eq!(r.hl(), 0x014D);
    assert_eq!(r.sp, 0xFFFE);
    assert_eq!(r.pc, 0x0100);
    let d = Registers::default();
    assert_eq!(d.af(), 0x01B0);
}

#[test]
fn set_af_masks_low_nibble() {
    let mut r = Registers::new();
    r.set_af(0x12FF);
    assert_eq!(r.a, 0x12);
    assert_eq!(r.f, 0xF0);
    assert_eq!(r.af(), 0x12F0);
}

#[test]
fn pairs_round_trip() {
    let mut r = Registers::new();
    r.set_bc(0xA1B2);
    r.set_de(0xC3D4);
    r.set_hl(0xE5F6);
    assert_eq!((r.b, r.c, r.d, r.e, r.h, r.l), (0xA1, 0xB2, 0xC3, 0xD4, 0xE5, 0xF6));
    assert_eq!((r.bc(), r.de(), r.hl()), (0xA1B2, 0xC3D4, 0xE5F6));
}

#[test]
fn flag_setters() {
    let mut r = Registers::new();
    r.f = 0;
    r.set_z(true);
    assert_eq!(r.f, 0x80);
    r.set_n(true);
    r.set_h(true);
    r.set_c(true);
    assert_eq!(r.f, 0xF0);
    assert!(r.get_z() && r.get_n() && r.get_h() && r.get_c());
    r.set_n(false);
    assert_eq!(r.f, 0xB0);
    assert!(!r.get_n());
}
