use vstd::prelude::*;
use crate::cartridge::{Mbc, read_rom, rom_byte};

verus! {

/// ROM bank after the low five bits are replaced by those of `value`;
/// banks 0x00, 0x20, 0x40 and 0x60 become the next bank.
pub open spec fn mbc1_low_bank(bank: u8, value: u8) -> u8 {
    let b = (bank / 32) * 32 + value % 32;
    if b % 32 == 0 {
        (b + 1) as u8
    } else {
        b as u8
    }
}

/// ROM bank after bits 5-6 are replaced by the low two bits of `value`.
pub open spec fn mbc1_high_bank(bank: u8, value: u8) -> u8 {
    (bank % 32 + (value % 4) * 32) as u8
}

/// The MBC1 controller: up to 2 MiB of ROM and 32 KiB of RAM.
pub struct Mbc1 {
    pub rom: Vec<u8>,
    pub is_ram_enabled: bool,
    /// ROM banking mode when true, RAM banking mode when false.
    pub is_rom_banking: bool,
    pub current_rom_bank: u8,
    pub current_ram_bank: u8,
    pub ram_banks: [u8; 0x8000],
}

impl Mbc1 {
    /// Power-on state over the ROM image `rom`.
    pub open spec fn is_initial(&self, rom: Seq<u8>) -> bool {
        &&& self.rom@ == rom
        &&& !self.is_ram_enabled
        &&& self.is_rom_banking
        &&& self.current_rom_bank == 1
        &&& self.current_ram_bank == 0
        &&& forall|i: int| 0 <= i < 0x8000 ==> self.ram_banks@[i] == 0
    }

    /// Offset in RAM of the external RAM address `addr` in the current bank.
    pub open spec fn ram_offset(&self, addr: u16) -> int {
        self.current_ram_bank as int * 0x2000 + (addr - 0xA000)
    }

    pub fn new(rom: Vec<u8>) -> (r: Mbc1)
        ensures
            r.is_initial(rom@),
            r.wf(),
    {
        Mbc1 {
            rom,
            is_ram_enabled: false,
            is_rom_banking: true,
            current_rom_bank: 1,
            current_ram_bank: 0,
            ram_banks: [0; 0x8000],
        }
    }

    fn toggle_ram_banking(&mut self, value: u8)
        ensures
            *final(self) == (Mbc1 { is_ram_enabled: value % 16 == 0x0A, ..*old(self) }),
    {
        // RAM is only enabled when the low nibble written is 0xA.
        self.is_ram_enabled = value % 16 == 0x0A;
    }

    fn change_low_rom_bank(&mut self, value: u8)
        requires
            old(self).current_rom_bank < 128,
        ensures
            *final(self) == (Mbc1 { current_rom_bank: mbc1_low_bank(old(self).current_rom_bank, value), ..*old(self) }),
            final(self).current_rom_bank < 128,
            final(self).current_rom_bank % 32 != 0,
            final(self).current_rom_bank != 0x00 && final(self).current_rom_bank != 0x20
                && final(self).current_rom_bank != 0x40 && final(self).current_rom_bank != 0x60,
    {
        let bank = (self.current_rom_bank / 32) * 32 + value % 32;
        self.current_rom_bank = if bank % 32 == 0 { bank + 1 } else { bank };
    }

    fn change_hi_rom_bank(&mut self, value: u8)
        ensures
            *final(self) == (Mbc1 { current_rom_bank: mbc1_high_bank(old(self).current_rom_bank, value), ..*old(self) }),
    {
        self.current_rom_bank = self.current_rom_bank % 32 + (value % 4) * 32;
    }

    fn change_ram_bank(&mut self, value: u8)
        ensures
            *final(self) == (Mbc1 { current_ram_bank: value % 4, ..*old(self) }),
    {
        self.current_ram_bank = value % 4;
    }

    fn change_rom_ram_mode(&mut self, value: u8)
        ensures
            *final(self) == (Mbc1 {
                is_rom_banking: value % 2 == 0,
                current_ram_bank: if value % 2 == 0 { 0 } else { old(self).current_ram_bank },
                ..*old(self)
            }),
    {
        self.is_rom_banking = value % 2 == 0;
        if self.is_rom_banking {
            // Only RAM bank 0 can be used in ROM banking mode.
            self.current_ram_bank = 0;
        }
    }
}

impl Mbc for Mbc1 {
    open spec fn wf(&self) -> bool {
        &&& self.current_rom_bank < 128
        &&& self.current_rom_bank % 32 != 0
        &&& self.current_ram_bank < 4
    }

    open spec fn read_spec(&self, addr: u16) -> u8 {
        if addr < 0x4000 {
            rom_byte(self.rom@, addr as int)
        } else if addr < 0x8000 {
            rom_byte(self.rom@, self.current_rom_bank as int * 0x4000 + (addr - 0x4000))
        } else if self.is_ram_enabled {
            self.ram_banks@[self.ram_offset(addr)]
        } else {
            0xFF
        }
    }

    open spec fn write_post(&self, addr: u16, value: u8, after: Mbc1) -> bool {
        if 0xA000 <= addr {
            &&& after.ram_banks@ == if self.is_ram_enabled {
                self.ram_banks@.update(self.ram_offset(addr), value)
            } else {
                self.ram_banks@
            }
            &&& after == (Mbc1 { ram_banks: after.ram_banks, ..*self })
        } else if addr < 0x2000 {
            after == (Mbc1 { is_ram_enabled: value % 16 == 0x0A, ..*self })
        } else if addr < 0x4000 {
            after == (Mbc1 { current_rom_bank: mbc1_low_bank(self.current_rom_bank, value), ..*self })
        } else if addr < 0x6000 {
            if self.is_rom_banking {
                after == (Mbc1 { current_rom_bank: mbc1_high_bank(self.current_rom_bank, value), ..*self })
            } else {
                after == (Mbc1 { current_ram_bank: value % 4, ..*self })
            }
        } else {
            after == (Mbc1 {
                is_rom_banking: value % 2 == 0,
                current_ram_bank: if value % 2 == 0 { 0 } else { self.current_ram_bank },
                ..*self
            })
        }
    }

    fn readb(&self, addr: u16) -> (r: u8) {
        if addr < 0x4000 {
            read_rom(&self.rom, addr as usize)
        } else if addr < 0x8000 {
            read_rom(&self.rom, self.current_rom_bank as usize * 0x4000 + (addr - 0x4000) as usize)
        } else if self.is_ram_enabled {
            self.ram_banks[self.current_ram_bank as usize * 0x2000 + (addr - 0xA000) as usize]
        } else {
            0xFF
        }
    }

    fn writeb(&mut self, addr: u16, value: u8) {
        if 0xA000 <= addr {
            if self.is_ram_enabled {
                self.ram_banks[self.current_ram_bank as usize * 0x2000 + (addr - 0xA000) as usize] = value;
            }
        } else if addr < 0x2000 {
            self.toggle_ram_banking(value);
        } else if addr < 0x4000 {
            self.change_low_rom_bank(value);
        } else if addr < 0x6000 {
            if self.is_rom_banking {
                self.change_hi_rom_bank(value);
            } else {
                self.change_ram_bank(value);
            }
        } else {
            self.change_rom_ram_mode(value);
        }
    }
}


/// A write to 0x2000-0x3FFF never selects ROM bank 0x00, 0x20, 0x40 or 0x60.
pub proof fn lemma_low_bank_never_zero(bank: u8, value: u8)
    ensures
        mbc1_low_bank(bank, value) % 32 != 0,
        mbc1_low_bank(bank, value) != 0x00 && mbc1_low_bank(bank, value) != 0x20 && mbc1_low_bank(bank, value)
            != 0x40 && mbc1_low_bank(bank, value) != 0x60,
{
}

} // verus!
