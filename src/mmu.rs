use vstd::prelude::*;
use crate::cartridge::{Cartridge, is_cartridge_addr};
use crate::joypad::{Joypad, JOYPAD_REGISTER};
use crate::lcd::{Lcd, is_lcd_addr, OAM_START};
use crate::timer::{Timer, is_timer_register};

verus! {

/// Interrupt request register (IF).
pub const INT_REQUEST_REGISTER: u16 = 0xFF0F;
/// Interrupt enable register (IE).
pub const INT_ENABLED_REGISTER: u16 = 0xFFFF;
/// Writing here copies 160 bytes into OAM.
pub const DMA_REGISTER: u16 = 0xFF46;

/// The address after `addr`, wrapping from 0xFFFF to 0.
pub open spec fn next_addr(addr: u16) -> u16 {
    if addr == 0xFFFF {
        0
    } else {
        (addr + 1) as u16
    }
}

fn addr_after(addr: u16) -> (r: u16)
    ensures
        r == next_addr(addr),
{
    if addr == 0xFFFF {
        0
    } else {
        addr + 1
    }
}

/// Echo of 0xC000-0xDDFF.
pub open spec fn is_echo_addr(addr: u16) -> bool {
    0xE000 <= addr <= 0xFDFF
}

/// Unusable area after OAM.
pub open spec fn is_restricted_addr(addr: u16) -> bool {
    0xFEA0 <= addr <= 0xFEFF
}

/// Backing bytes written at power-on, as the boot ROM leaves them.
pub open spec fn boot_io_value(addr: int) -> u8 {
    if addr == 0xFF10 { 0x80 }
    else if addr == 0xFF11 { 0xBF }
    else if addr == 0xFF12 { 0xF3 }
    else if addr == 0xFF14 { 0xBF }
    else if addr == 0xFF16 { 0x3F }
    else if addr == 0xFF19 { 0xBF }
    else if addr == 0xFF1A { 0x7F }
    else if addr == 0xFF1B { 0xFF }
    else if addr == 0xFF1C { 0x9F }
    else if addr == 0xFF1E { 0xBF }
    else if addr == 0xFF20 { 0xFF }
    else if addr == 0xFF23 { 0xBF }
    else if addr == 0xFF24 { 0x77 }
    else if addr == 0xFF25 { 0xF3 }
    else if addr == 0xFF26 { 0xF1 }
    else if addr == 0xFF40 { 0x91 }
    else if addr == 0xFF47 { 0xFC }
    else if addr == 0xFF48 { 0xFF }
    else if addr == 0xFF49 { 0xFF }
    else { 0 }
}

/// The memory bus: it owns the cartridge and the peripherals and routes
/// each address to its owner.
pub struct Mmu {
    pub cartridge: Cartridge,
    pub memory: [u8; 0x10000],
    pub joypad: Joypad,
    pub lcd: Lcd,
    pub timer: Timer,
    /// Interrupt request register (IF).
    pub int_request: u8,
    /// Interrupt enable register (IE).
    pub int_enabled: u8,
}

impl Mmu {
    pub open spec fn wf(&self) -> bool {
        &&& self.cartridge.wf()
        &&& self.lcd.wf()
        &&& self.timer.wf()
    }

    /// The byte a read of `addr` returns.
    pub open spec fn read_spec(&self, addr: u16) -> u8 {
        if is_cartridge_addr(addr) {
            self.cartridge.read_spec(addr)
        } else if is_echo_addr(addr) {
            self.memory@[addr - 0x2000]
        } else if is_restricted_addr(addr) {
            0xFF
        } else if is_timer_register(addr) {
            self.timer.read_spec(addr)
        } else if is_lcd_addr(addr) {
            self.lcd.read_spec(addr)
        } else if addr == JOYPAD_REGISTER {
            self.joypad.read_spec()
        } else if addr == INT_REQUEST_REGISTER {
            self.int_request
        } else if addr == INT_ENABLED_REGISTER {
            self.int_enabled
        } else {
            self.memory@[addr as int]
        }
    }

    /// The 16-bit little-endian word a read at `addr` returns.
    pub open spec fn read16_spec(&self, addr: u16) -> u16 {
        (self.read_spec(addr) as int + 256 * self.read_spec(next_addr(addr)) as int) as u16
    }

    /// The 160 bytes a DMA from page `value` copies into OAM.
    pub open spec fn dma_source(&self, value: u8) -> Seq<u8> {
        Seq::new(160, |i: int| self.read_spec((value as int * 256 + i) as u16))
    }

    /// `after` is the bus once `value` has been written to `addr`.
    pub open spec fn write_post(&self, addr: u16, value: u8, after: Mmu) -> bool {
        if is_cartridge_addr(addr) {
            &&& self.cartridge.write_post(addr, value, after.cartridge)
            &&& after == (Mmu { cartridge: after.cartridge, ..*self })
        } else if is_echo_addr(addr) {
            &&& after.memory@ == self.memory@.update(addr as int, value).update(addr - 0x2000, value)
            &&& after == (Mmu { memory: after.memory, ..*self })
        } else if is_restricted_addr(addr) {
            after == *self
        } else if is_timer_register(addr) {
            after == (Mmu { timer: self.timer.write_spec(addr, value), ..*self })
        } else if addr == DMA_REGISTER {
            &&& after.lcd.oam@ == self.dma_source(value)
            &&& after == (Mmu { lcd: Lcd { oam: after.lcd.oam, ..self.lcd }, ..*self })
        } else if is_lcd_addr(addr) {
            &&& self.lcd.write_post(addr, value, after.lcd)
            &&& after == (Mmu { lcd: after.lcd, ..*self })
        } else if addr == JOYPAD_REGISTER {
            after == (Mmu {
                joypad: Joypad {
                    direction_selected: (value / 16) % 2 == 0,
                    button_selected: (value / 32) % 2 == 0,
                    ..self.joypad
                },
                ..*self
            })
        } else if addr == INT_REQUEST_REGISTER {
            after == (Mmu { int_request: value, ..*self })
        } else if addr == INT_ENABLED_REGISTER {
            after == (Mmu { int_enabled: value, ..*self })
        } else {
            &&& after.memory@ == self.memory@.update(addr as int, value)
            &&& after == (Mmu { memory: after.memory, ..*self })
        }
    }

    /// A bus over `cartridge` with the peripherals at power-on.
    pub fn new(cartridge: Cartridge) -> (r: Mmu)
        requires
            cartridge.wf(),
        ensures
            r.wf(),
            r.cartridge == cartridge,
            forall|a: int| 0 <= a < 0x10000 ==> #[trigger] r.memory@[a] == boot_io_value(a),
            r.lcd.is_power_on(),
            r.joypad.is_power_on(),
            r.timer.is_power_on(),
            r.int_request == 0,
            r.int_enabled == 0,
    {
        let mut mmu = Mmu {
            cartridge,
            memory: [0; 0x10000],
            joypad: Joypad::new(),
            lcd: Lcd::new(),
            timer: Timer::new(),
            int_request: 0,
            int_enabled: 0,
        };
        mmu.memory[0xFF05] = 0x00;
        mmu.memory[0xFF06] = 0x00;
        mmu.memory[0xFF07] = 0x00;
        mmu.memory[0xFF10] = 0x80;
        mmu.memory[0xFF11] = 0xBF;
        mmu.memory[0xFF12] = 0xF3;
        mmu.memory[0xFF14] = 0xBF;
        mmu.memory[0xFF16] = 0x3F;
        mmu.memory[0xFF17] = 0x00;
        mmu.memory[0xFF19] = 0xBF;
        mmu.memory[0xFF1A] = 0x7F;
        mmu.memory[0xFF1B] = 0xFF;
        mmu.memory[0xFF1C] = 0x9F;
        mmu.memory[0xFF1E] = 0xBF;
        mmu.memory[0xFF20] = 0xFF;
        mmu.memory[0xFF21] = 0x00;
        mmu.memory[0xFF22] = 0x00;
        mmu.memory[0xFF23] = 0xBF;
        mmu.memory[0xFF24] = 0x77;
        mmu.memory[0xFF25] = 0xF3;
        mmu.memory[0xFF26] = 0xF1;
        mmu.memory[0xFF40] = 0x91;
        mmu.memory[0xFF42] = 0x00;
        mmu.memory[0xFF43] = 0x00;
        mmu.memory[0xFF45] = 0x00;
        mmu.memory[0xFF47] = 0xFC;
        mmu.memory[0xFF48] = 0xFF;
        mmu.memory[0xFF49] = 0xFF;
        mmu.memory[0xFF4A] = 0x00;
        mmu.memory[0xFF4B] = 0x00;
        mmu.memory[0xFFFF] = 0x00;
        mmu
    }

    pub fn readb(&self, addr: u16) -> (r: u8)
        requires
            self.wf(),
        ensures
            r == self.read_spec(addr),
    {
        if addr <= 0x7FFF || (0xA000 <= addr && addr <= 0xBFFF) {
            self.cartridge.readb(addr)
        } else if 0xE000 <= addr && addr <= 0xFDFF {
            self.memory[(addr - 0x2000) as usize]
        } else if 0xFEA0 <= addr && addr <= 0xFEFF {
            0xFF
        } else if 0xFF04 <= addr && addr <= 0xFF07 {
            self.timer.readb(addr)
        } else if (0x8000 <= addr && addr <= 0x9FFF) || (0xFE00 <= addr && addr <= 0xFE9F) || (0xFF40 <= addr
            && addr <= 0xFF4B && addr != DMA_REGISTER) {
            self.lcd.readb(addr)
        } else if addr == JOYPAD_REGISTER {
            self.joypad.readb(addr)
        } else if addr == INT_REQUEST_REGISTER {
            self.int_request
        } else if addr == INT_ENABLED_REGISTER {
            self.int_enabled
        } else {
            self.memory[addr as usize]
        }
    }

    /// Reads the little-endian word at `addr` (the high byte wraps to 0).
    pub fn readw(&self, addr: u16) -> (r: u16)
        requires
            self.wf(),
        ensures
            r == self.read16_spec(addr),
    {
        let lsb = self.readb(addr);
        let msb = self.readb(addr_after(addr));
        msb as u16 * 256 + lsb as u16
    }

    pub fn writeb(&mut self, addr: u16, value: u8)
        requires
            old(self).wf(),
        ensures
            final(self).wf(),
            old(self).write_post(addr, value, *final(self)),
    {
        if addr <= 0x7FFF || (0xA000 <= addr && addr <= 0xBFFF) {
            self.cartridge.writeb(addr, value);
        } else if 0xE000 <= addr && addr <= 0xFDFF {
            // Echo RAM: both copies hold the byte.
            self.memory[addr as usize] = value;
            self.memory[(addr - 0x2000) as usize] = value;
        } else if 0xFEA0 <= addr && addr <= 0xFEFF {
            // Restricted: the write is dropped.
        } else if 0xFF04 <= addr && addr <= 0xFF07 {
            self.timer.writeb(addr, value);
        } else if addr == DMA_REGISTER {
            self.do_dma(value);
        } else if (0x8000 <= addr && addr <= 0x9FFF) || (0xFE00 <= addr && addr <= 0xFE9F) || (0xFF40 <= addr
            && addr <= 0xFF4B) {
            self.lcd.writeb(addr, value);
        } else if addr == JOYPAD_REGISTER {
            self.joypad.writeb(addr, value);
        } else if addr == INT_REQUEST_REGISTER {
            self.int_request = value;
        } else if addr == INT_ENABLED_REGISTER {
            self.int_enabled = value;
        } else {
            self.memory[addr as usize] = value;
        }
    }

    /// Writes `value` little-endian at `addr`: low byte first, then the high
    /// byte at `addr + 1` (wrapping).
    pub fn writew(&mut self, addr: u16, value: u16)
        requires
            old(self).wf(),
        ensures
            final(self).wf(),
            exists|mid: Mmu|
                mid.wf() && #[trigger] old(self).write_post(addr, (value % 256) as u8, mid) && mid.write_post(
                    next_addr(addr),
                    (value / 256) as u8,
                    *final(self),
                ),
    {
        let lsb = (value % 256) as u8;
        let msb = (value / 256) as u8;
        self.writeb(addr, lsb);
        let ghost mid = *self;
        self.writeb(addr_after(addr), msb);
        assert(old(self).write_post(addr, (value % 256) as u8, mid));
    }

    /// Copies the 160 bytes at `value << 8` into OAM.
    fn do_dma(&mut self, value: u8)
        requires
            old(self).wf(),
        ensures
            final(self).wf(),
            final(self).lcd.oam@ == old(self).dma_source(value),
            *final(self) == (Mmu { lcd: Lcd { oam: final(self).lcd.oam, ..old(self).lcd }, ..*old(self) }),
    {
        let ghost pre = *self;
        let base: u16 = value as u16 * 256;
        let mut i: u16 = 0;
        while i < 0xA0
            invariant
                pre.wf(),
                base == value as int * 256,
                i <= 0xA0,
                *self == (Mmu { lcd: Lcd { oam: self.lcd.oam, ..pre.lcd }, ..pre }),
                forall|j: int| 0 <= j < i ==> #[trigger] self.lcd.oam@[j] == pre.dma_source(value)[j],
                forall|j: int| i <= j < 0xA0 ==> #[trigger] self.lcd.oam@[j] == pre.lcd.oam@[j],
            decreases 0xA0 - i,
        {
            assert(self.read_spec((base + i) as u16) == pre.read_spec((base + i) as u16));
            let b = self.readb(base + i);
            self.lcd.oam[i as usize] = b;
            i += 1;
        }
        assert(self.lcd.oam@ =~= pre.dma_source(value));
    }

    /// `after` is the bus once `update(cycles)` has run: timer and LCD
    /// advanced, their interrupt bits and the joypad's moved into IF.
    pub open spec fn update_post(&self, after: Mmu, cycles: u32) -> bool {
        &&& after.wf()
        &&& exists|t: Timer, l: Lcd|
            #[trigger] self.timer.update_post(t, cycles) && #[trigger] self.lcd.update_post(l, cycles)
                && after.timer == (Timer { int_request: 0, ..t }) && after.lcd == (Lcd {
                int_request: 0,
                ..l
            }) && after.int_request == self.int_request | t.int_request | l.int_request
                | self.joypad.int_request
        &&& after.joypad == (Joypad { int_request: 0, ..self.joypad })
        &&& after.cartridge == self.cartridge
        &&& after.memory == self.memory
        &&& after.int_enabled == self.int_enabled
    }

    /// Advances the timer and the LCD by `cycles` CPU cycles and moves the
    /// interrupts that the peripherals raised into IF.
    pub fn update(&mut self, cycles: u32)
        requires
            old(self).wf(),
        ensures
            final(self).wf(),
            old(self).update_post(*final(self), cycles),
    {
        self.timer.update(cycles);
        let ghost t = self.timer;
        self.int_request = self.int_request | self.timer.int_request;
        self.timer.int_request = 0;
        self.lcd.update_graphics(cycles);
        let ghost l = self.lcd;
        self.int_request = self.int_request | self.lcd.int_request;
        self.lcd.int_request = 0;
        self.int_request = self.int_request | self.joypad.int_request;
        self.joypad.int_request = 0;
        assert(old(self).timer.update_post(t, cycles) && old(self).lcd.update_post(l, cycles));
    }
}


/// The plain read/write registers: SCY, SCX, WY, WX, LYC, BGP, OBP0, OBP1,
/// TMA, TIMA and TAC.
pub open spec fn is_plain_register(addr: u16) -> bool {
    addr == 0xFF42 || addr == 0xFF43 || addr == 0xFF4A || addr == 0xFF4B || addr == 0xFF45 || addr == 0xFF47
        || addr == 0xFF48 || addr == 0xFF49 || addr == 0xFF06 || addr == 0xFF05 || addr == 0xFF07
}

/// Writing `value` to a plain register and reading it back gives `value`.
pub proof fn lemma_register_round_trip(m: Mmu, after: Mmu, addr: u16, value: u8)
    requires
        m.wf(),
        is_plain_register(addr),
        m.write_post(addr, value, after),
    ensures
        after.read_spec(addr) == value,
{
}

/// Any write to DIV leaves DIV at zero.
pub proof fn lemma_div_write_resets(m: Mmu, after: Mmu, value: u8)
    requires
        m.wf(),
        m.write_post(0xFF04, value, after),
    ensures
        after.read_spec(0xFF04) == 0,
{
}

/// Any write to LY leaves LY at zero.
pub proof fn lemma_ly_write_resets(m: Mmu, after: Mmu, value: u8)
    requires
        m.wf(),
        m.write_post(0xFF44, value, after),
    ensures
        after.read_spec(0xFF44) == 0,
{
}

/// After a write of `value` to the DMA register, OAM byte `i` reads as the
/// byte at `value * 256 + i` read before the transfer.
pub proof fn lemma_dma_copies_page(m: Mmu, after: Mmu, value: u8)
    requires
        m.wf(),
        m.write_post(DMA_REGISTER, value, after),
    ensures
        forall|i: int| 0 <= i < 160 ==> #[trigger] after.read_spec((OAM_START + i) as u16) == m.read_spec((value as int * 256 + i) as u16),
{
}

} // verus!
