use gb_core::joypad::{Joypad, JoypadInput, JOYPAD_REGISTER};

#[test]
fn nothing_selected_reads_all_high() {
    let mut j = Joypad::new();
    j.on_key_pressed(JoypadInput::A);
    j.writeb(JOYPAD_REGISTER, 0x30);
    assert_eq!(j.readb(JOYPAD_REGISTER), 0xFF);
}

#[test]
fn selected_group_shows_pressed_inputs() {
    let mut j = Joypad::new();
    j.on_key_pressed(JoypadInput::Left);
    j.on_key_pressed(JoypadInput::Start);
    j.writeb(JOYPAD_REGISTER, 0x20);
    assert_eq!(j.readb(JOYPAD_REGISTER), 0xEF & !0x02);
    j.writeb(JOYPAD_REGISTER, 0x10);
    assert_eq!(j.readb(JOYPAD_REGISTER), 0xDF & !0x08);
    j.on_key_released(JoypadInput::Start);
    assert_eq!(j.readb(JOYPAD_REGISTER), 0xDF);
}

#[test]
fn press_in_selected_group_raises_interrupt() {
    let mut j = Joypad::new();
    j.writeb(JOYPAD_REGISTER, 0x10);
    j.on_key_pressed(JoypadInput::Up);
    assert_eq!(j.int_request, 0);
    j.on_key_pressed(JoypadInput::B);
    assert_eq!(j.int_request, 0x10);
    j.int_request = 0;
    j.on_key_pressed(JoypadInput::B);
    assert_eq!(j.int_request, 0);
}

#[test]
fn input_groups() {
    assert!(JoypadInput::Down.is_direction());
    assert!(!JoypadInput::Down.is_button());
    assert!(JoypadInput::Select.is_button());
}
