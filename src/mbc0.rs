use vstd::prelude::*;
use crate::cartridge::{Mbc, read_rom, rom_byte};

verus! {

/// A cartridge without a controller: 32 KiB of ROM, no RAM.
pub struct NoMbc {
    pub rom: Vec<u8>,
}

impl NoMbc {
    pub fn new(rom: Vec<u8>) -> (r: NoMbc)
        ensures
            r.rom@ == rom@,
    {
        NoMbc { rom }
    }
}

impl Mbc for NoMbc {
    open spec fn wf(&self) -> bool {
        true
    }

    open spec fn read_spec(&self, addr: u16) -> u8 {
        rom_byte(self.rom@, addr as int)
    }

    open spec fn write_post(&self, addr: u16, value: u8, after: NoMbc) -> bool {
        after.rom@ == self.rom@
    }

    fn readb(&self, addr: u16) -> (r: u8) {
        read_rom(&self.rom, addr as usize)
    }

    /// Writes are ignored: there is nothing to control.
    fn writeb(&mut self, addr: u16, value: u8) {
    }
}

} // verus!
