use vstd::prelude::*;
use crate::cartridge::{Mbc, read_rom, rom_byte};

verus! {

/// ROM bank selected by a write of `value`: its low seven bits, 0 meaning 1.
pub open spec fn mbc3_bank(value: u8) -> u8 {
    if value % 128 == 0 {
        1
    } else {
        value % 128
    }
}

/// The MBC3 controller without its real-time clock: up to 2 MiB of ROM and
/// four 8 KiB RAM banks.
pub struct Mbc3 {
    pub rom: Vec<u8>,
    pub is_ram_enabled: bool,
    pub current_rom_bank: u8,
    pub current_ram_bank: u8,
    pub ram_banks: [u8; 0x10000],
}

impl Mbc3 {
    /// Power-on state over the ROM image `rom`.
    pub open spec fn is_initial(&self, rom: Seq<u8>) -> bool {
        &&& self.rom@ == rom
        &&& !self.is_ram_enabled
        &&& self.current_rom_bank == 1
        &&& self.current_ram_bank == 0
        &&& forall|i: int| 0 <= i < 0x10000 ==> self.ram_banks@[i] == 0
    }

    /// Offset in RAM of the external RAM address `addr` in the current bank.
    pub open spec fn ram_offset(&self, addr: u16) -> int {
        self.current_ram_bank as int * 0x2000 + (addr - 0xA000)
    }

    pub fn new(rom: Vec<u8>) -> (r: Mbc3)
        ensures
            r.is_initial(rom@),
            r.wf(),
    {
        Mbc3 { rom, is_ram_enabled: false, current_rom_bank: 1, current_ram_bank: 0, ram_banks: [0; 0x10000] }
    }

    fn toggle_ram_banking(&mut self, value: u8)
        ensures
            *final(self) == (Mbc3 { is_ram_enabled: value % 16 == 0x0A, ..*old(self) }),
    {
        // RAM is only enabled when the low nibble written is 0xA.
        self.is_ram_enabled = value % 16 == 0x0A;
    }

    fn change_rom_bank(&mut self, value: u8)
        ensures
            *final(self) == (Mbc3 { current_rom_bank: mbc3_bank(value), ..*old(self) }),
    {
        let bank = value % 128;
        self.current_rom_bank = if bank == 0 { 1 } else { bank };
    }
}

impl Mbc for Mbc3 {
    open spec fn wf(&self) -> bool {
        1 <= self.current_rom_bank < 128
    }

    open spec fn read_spec(&self, addr: u16) -> u8 {
        if addr < 0x4000 {
            rom_byte(self.rom@, addr as int)
        } else if addr < 0x8000 {
            rom_byte(self.rom@, self.current_rom_bank as int * 0x4000 + (addr - 0x4000))
        } else if !self.is_ram_enabled {
            0xFF
        } else if self.current_ram_bank <= 3 {
            self.ram_banks@[self.ram_offset(addr)]
        } else {
            // Clock registers are not modelled.
            0
        }
    }

    open spec fn write_post(&self, addr: u16, value: u8, after: Mbc3) -> bool {
        if 0xA000 <= addr {
            &&& after.ram_banks@ == if self.is_ram_enabled && self.current_ram_bank <= 3 {
                self.ram_banks@.update(self.ram_offset(addr), value)
            } else {
                self.ram_banks@
            }
            &&& after == (Mbc3 { ram_banks: after.ram_banks, ..*self })
        } else if addr < 0x2000 {
            after == (Mbc3 { is_ram_enabled: value % 16 == 0x0A, ..*self })
        } else if addr < 0x4000 {
            after == (Mbc3 { current_rom_bank: mbc3_bank(value), ..*self })
        } else if addr < 0x6000 {
            after == (Mbc3 { current_ram_bank: value, ..*self })
        } else {
            after == *self
        }
    }

    fn readb(&self, addr: u16) -> (r: u8) {
        if addr < 0x4000 {
            read_rom(&self.rom, addr as usize)
        } else if addr < 0x8000 {
            read_rom(&self.rom, self.current_rom_bank as usize * 0x4000 + (addr - 0x4000) as usize)
        } else if !self.is_ram_enabled {
            0xFF
        } else if self.current_ram_bank <= 3 {
            self.ram_banks[self.current_ram_bank as usize * 0x2000 + (addr - 0xA000) as usize]
        } else {
            0
        }
    }

    fn writeb(&mut self, addr: u16, value: u8) {
        if 0xA000 <= addr {
            if self.is_ram_enabled && self.current_ram_bank <= 3 {
                self.ram_banks[self.current_ram_bank as usize * 0x2000 + (addr - 0xA000) as usize] = value;
            }
        } else if addr < 0x2000 {
            self.toggle_ram_banking(value);
        } else if addr < 0x4000 {
            self.change_rom_bank(value);
        } else if addr < 0x6000 {
            self.current_ram_bank = value;
        }
    }
}

} // verus!
