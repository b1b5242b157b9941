use gb_core::utils::Bits;

#[test]
fn bit_is_set_u8_1() {
    let val: u8 = 0xff;
    for i in 0..8 {
        assert_eq!(val.is_set(i), true);
    }
}

#[test]
fn bit_is_set_u8_2() {
    let val: u8 = 0;
    for i in 0..8 {
        assert_eq!(val.is_set(i), false);
    }
}

#[test]
fn bit_is_set_u8_3() {
    let val: u8 = 0b0100_0010;
    assert_eq!(val.is_set(0), false);
    assert_eq!(val.is_set(1), true);
    assert_eq!(val.is_set(2), false);
    assert_eq!(val.is_set(3), false);
    assert_eq!(val.is_set(4), false);
    assert_eq!(val.is_set(5), false);
    assert_eq!(val.is_set(6), true);
    assert_eq!(val.is_set(7), false);
}

#[test]
fn bit_is_set_u16_1() {
    let val: u16 = 0xff;
    for i in 0..8 {
        assert_eq!(val.is_set(i), true);
    }
}

#[test]
fn bit_is_set_u16_2() {
    let val: u16 = 0;
    for i in 0..8 {
        assert_eq!(val.is_set(i), false);
    }
}


#[test]
fn bit_is_set_u16_3() {
    let val: u16 = 0b1001_0110_0100_0010;
    assert_eq!(val.is_set(0), false);
    assert_eq!(val.is_set(1), true);
    assert_eq!(val.is_set(2), false);
    assert_eq!(val.is_set(3), false);
    assert_eq!(val.is_set(4), false);
    assert_eq!(val.is_set(5), false);
    assert_eq!(val.is_set(6), true);
    assert_eq!(val.is_set(7), false);
    assert_eq!(val.is_set(8), false);
    assert_eq!(val.is_set(9), true);
    assert_eq!(val.is_set(10), true);
    assert_eq!(val.is_set(11), false);
    assert_eq!(val.is_set(12), true);
    assert_eq!(val.is_set(13), false);
    assert_eq!(val.is_set(14), false);
    assert_eq!(val.is_set(15), true);
}

#[test]
fn get_set_and_clear_bits() {
    let val: u8 = 0b0100_0010;
    assert_eq!(val.get_bit(1), 1);
    assert_eq!(val.get_bit(0), 0);
    assert_eq!(val.set_bit(0), 0b0100_0011);
    assert_eq!(val.unset_bit(6), 0b0000_0010);
    assert!(val.is_unset(7));
    let word: u16 = 0x8001;
    assert_eq!(word.set_bit(8), 0x8101);
    assert_eq!(word.unset_bit(15), 0x0001);
}

#[test]
fn words_split_and_join() {
    assert_eq!(gb_core::utils::to_u16(0x12, 0x34), 0x1234);
    assert_eq!(gb_core::utils::to_u8(0xABCD), (0xAB, 0xCD));
}
