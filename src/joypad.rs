use vstd::prelude::*;

verus! {

pub const JOYPAD_REGISTER: u16 = 0xFF00;

/// Bit mask of the joypad interrupt in IF.
pub const JOYPAD_INTERRUPT_MASK: u8 = 0x10;

/// The eight inputs of the Game Boy.
#[derive(Clone, Copy, Debug, PartialEq, Eq, Structural)]
pub enum JoypadInput {
    Right,
    Left,
    Up,
    Down,
    A,
    B,
    Select,
    Start,
}

impl JoypadInput {
    /// Position of the input in the pressed-state table: directions 0..4,
    /// buttons 4..8, each group ordered as its register bits.
    pub open spec fn spec_index(&self) -> int {
        match self {
            JoypadInput::Right => 0,
            JoypadInput::Left => 1,
            JoypadInput::Up => 2,
            JoypadInput::Down => 3,
            JoypadInput::A => 4,
            JoypadInput::B => 5,
            JoypadInput::Select => 6,
            JoypadInput::Start => 7,
        }
    }

    pub fn index(&self) -> (r: usize)
        ensures
            r == self.spec_index(),
    {
        match self {
            JoypadInput::Right => 0,
            JoypadInput::Left => 1,
            JoypadInput::Up => 2,
            JoypadInput::Down => 3,
            JoypadInput::A => 4,
            JoypadInput::B => 5,
            JoypadInput::Select => 6,
            JoypadInput::Start => 7,
        }
    }

    pub fn is_button(&self) -> (r: bool)
        ensures
            r == (self.spec_index() >= 4),
    {
        !self.is_direction()
    }

    pub fn is_direction(&self) -> (r: bool)
        ensures
            r == (self.spec_index() < 4),
    {
        self.index() < 4
    }
}

/// The joypad register value: active-low select lines in bits 4 (directions)
/// and 5 (buttons), and in bits 0-3 the pressed inputs of the selected group
/// (buttons when both are selected, none when neither is).
pub open spec fn register_value(pressed: Seq<bool>, direction_selected: bool, button_selected: bool) -> u8 {
    let base: int = if button_selected { 4 } else { 0 };
    let any = direction_selected || button_selected;
    (0xFF - (if direction_selected { 0x10int } else { 0 }) - (if button_selected { 0x20int } else { 0 })
        - (if any && pressed[base] { 1int } else { 0 })
        - (if any && pressed[base + 1] { 2int } else { 0 })
        - (if any && pressed[base + 2] { 4int } else { 0 })
        - (if any && pressed[base + 3] { 8int } else { 0 })) as u8
}

/// State of the eight inputs and of the two select lines.
pub struct Joypad {
    pub input_pressed: [bool; 8],
    pub direction_selected: bool,
    pub button_selected: bool,
    /// Interrupt bits raised since the bus last drained them.
    pub int_request: u8,
}

impl Joypad {
    /// The value a read of the joypad register returns.
    pub open spec fn read_spec(&self) -> u8 {
        register_value(self.input_pressed@, self.direction_selected, self.button_selected)
    }

    /// Whether the group of `input` is selected.
    pub open spec fn group_selected(&self, input: JoypadInput) -> bool {
        if input.spec_index() < 4 {
            self.direction_selected
        } else {
            self.button_selected
        }
    }

    /// State at power-on.
    pub open spec fn is_power_on(&self) -> bool {
        &&& forall|i: int| 0 <= i < 8 ==> !self.input_pressed@[i]
        &&& !self.direction_selected
        &&& !self.button_selected
        &&& self.int_request == 0
    }

    pub fn new() -> (r: Joypad)
        ensures
            r.is_power_on(),
    {
        Joypad { input_pressed: [false; 8], direction_selected: false, button_selected: false, int_request: 0 }
    }

    /// Marks `input` as pressed; a new press of an input of a selected group
    /// raises the joypad interrupt.
    pub fn on_key_pressed(&mut self, input: JoypadInput)
        ensures
            final(self).input_pressed@ == old(self).input_pressed@.update(input.spec_index(), true),
            final(self).direction_selected == old(self).direction_selected,
            final(self).button_selected == old(self).button_selected,
            final(self).int_request == if !old(self).input_pressed@[input.spec_index()]
                && old(self).group_selected(input) {
                old(self).int_request | JOYPAD_INTERRUPT_MASK
            } else {
                old(self).int_request
            },
    {
        let i = input.index();
        if self.input_pressed[i] {
            assert(self.input_pressed@ =~= self.input_pressed@.update(i as int, true));
            return;
        }
        self.input_pressed[i] = true;
        if (input.is_button() && self.button_selected) || (input.is_direction() && self.direction_selected) {
            self.int_request = self.int_request | JOYPAD_INTERRUPT_MASK;
        }
    }

    pub fn on_key_released(&mut self, input: JoypadInput)
        ensures
            final(self).input_pressed@ == old(self).input_pressed@.update(input.spec_index(), false),
            final(self).direction_selected == old(self).direction_selected,
            final(self).button_selected == old(self).button_selected,
            final(self).int_request == old(self).int_request,
    {
        let i = input.index();
        self.input_pressed[i] = false;
    }

    fn get_joypad_register(&self) -> (r: u8)
        ensures
            r == self.read_spec(),
    {
        let mut register: u8 = 0xFF;
        if self.direction_selected {
            register = register - 0x10;
        }
        if self.button_selected {
            register = register - 0x20;
        }
        if self.direction_selected || self.button_selected {
            let shift: usize = if self.button_selected { 4 } else { 0 };
            if self.input_pressed[shift] {
                register = register - 1;
            }
            if self.input_pressed[shift + 1] {
                register = register - 2;
            }
            if self.input_pressed[shift + 2] {
                register = register - 4;
            }
            if self.input_pressed[shift + 3] {
                register = register - 8;
            }
        }
        register
    }

    pub fn readb(&self, addr: u16) -> (r: u8)
        requires
            addr == JOYPAD_REGISTER,
        ensures
            r == self.read_spec(),
    {
        self.get_joypad_register()
    }

    /// Bit 4 clear selects the directions, bit 5 clear the buttons.
    pub fn writeb(&mut self, addr: u16, value: u8)
        requires
            addr == JOYPAD_REGISTER,
        ensures
            *final(self) == (Joypad {
                direction_selected: (value / 16) % 2 == 0,
                button_selected: (value / 32) % 2 == 0,
                ..*old(self)
            }),
    {
        self.direction_selected = (value / 16) % 2 == 0;
        self.button_selected = (value / 32) % 2 == 0;
    }
}

} // verus!
