use vstd::prelude::*;
use crate::mbc0::NoMbc;
use crate::mbc1::Mbc1;
use crate::mbc3::Mbc3;

verus! {

/// Header byte that names the memory bank controller.
pub const MBC_REGISTER: usize = 0x147;
pub const ROM_BANK_SIZE: u16 = 0x4000;
pub const RAM_BANK_SIZE: u16 = 0x2000;

/// Addresses that the bus hands to the cartridge: ROM and external RAM.
pub open spec fn is_cartridge_addr(addr: u16) -> bool {
    addr <= 0x7FFF || (0xA000 <= addr && addr <= 0xBFFF)
}

/// Byte `i` of the ROM image; past its end the bus floats high.
pub open spec fn rom_byte(rom: Seq<u8>, i: int) -> u8 {
    if 0 <= i < rom.len() {
        rom[i]
    } else {
        0xFF
    }
}

/// Reads byte `i` of a ROM image, 0xFF past its end.
pub fn read_rom(rom: &Vec<u8>, i: usize) -> (r: u8)
    ensures
        r == rom_byte(rom@, i as int),
{
    if i < rom.len() {
        rom[i]
    } else {
        0xFF
    }
}

/// A memory bank controller behind the cartridge byte interface.
pub trait Mbc: Sized {
    /// Internal invariant of the controller.
    spec fn wf(&self) -> bool;

    /// The byte a read of `addr` returns.
    spec fn read_spec(&self, addr: u16) -> u8;

    /// `after` is the controller once `value` has been written to `addr`.
    spec fn write_post(&self, addr: u16, value: u8, after: Self) -> bool;

    fn readb(&self, addr: u16) -> (r: u8)
        requires
            self.wf(),
            is_cartridge_addr(addr),
        ensures
            r == self.read_spec(addr),
    ;

    fn writeb(&mut self, addr: u16, value: u8)
        requires
            old(self).wf(),
            is_cartridge_addr(addr),
        ensures
            final(self).wf(),
            old(self).write_post(addr, value, *final(self)),
    ;
}

/// Reasons a ROM image cannot be mapped.
#[derive(Clone, Copy, Debug, PartialEq, Eq, Structural)]
pub enum CartridgeError {
    /// The image ends before the controller byte of the header.
    MissingHeader,
    /// The header names a controller this emulator lacks.
    UnsupportedMbc(u8),
}

/// The controller variants, selected by header byte 0x147.
pub enum CartridgeMbc {
    NoMbc(NoMbc),
    Mbc1(Mbc1),
    Mbc3(Mbc3),
}

/// A cartridge: ROM image and RAM behind its controller.
pub struct Cartridge {
    pub mbc: CartridgeMbc,
}

/// Controller bytes that name a supported controller.
pub open spec fn supported_mbc(kind: u8) -> bool {
    kind == 0x00 || kind == 0x01 || kind == 0x02 || kind == 0x03 || kind == 0x13
}

impl Cartridge {
    pub open spec fn wf(&self) -> bool {
        match self.mbc {
            CartridgeMbc::NoMbc(m) => m.wf(),
            CartridgeMbc::Mbc1(m) => m.wf(),
            CartridgeMbc::Mbc3(m) => m.wf(),
        }
    }

    /// The byte a read of `addr` returns.
    pub open spec fn read_spec(&self, addr: u16) -> u8 {
        match self.mbc {
            CartridgeMbc::NoMbc(m) => m.read_spec(addr),
            CartridgeMbc::Mbc1(m) => m.read_spec(addr),
            CartridgeMbc::Mbc3(m) => m.read_spec(addr),
        }
    }

    /// `after` is the cartridge once `value` has been written to `addr`.
    pub open spec fn write_post(&self, addr: u16, value: u8, after: Cartridge) -> bool {
        match (self.mbc, after.mbc) {
            (CartridgeMbc::NoMbc(m), CartridgeMbc::NoMbc(n)) => m.write_post(addr, value, n),
            (CartridgeMbc::Mbc1(m), CartridgeMbc::Mbc1(n)) => m.write_post(addr, value, n),
            (CartridgeMbc::Mbc3(m), CartridgeMbc::Mbc3(n)) => m.write_post(addr, value, n),
            _ => false,
        }
    }

    /// Maps a ROM image with the controller its header names.
    pub fn new(rom: Vec<u8>) -> (r: Result<Cartridge, CartridgeError>)
        ensures
            rom@.len() <= MBC_REGISTER ==> r == Err::<Cartridge, CartridgeError>(CartridgeError::MissingHeader),
            rom@.len() > MBC_REGISTER && !supported_mbc(rom@[MBC_REGISTER as int]) ==> r == Err::<Cartridge, CartridgeError>(
                CartridgeError::UnsupportedMbc(rom@[MBC_REGISTER as int]),
            ),
            rom@.len() > MBC_REGISTER && supported_mbc(rom@[MBC_REGISTER as int]) ==> (r matches Ok(c) && c.wf() && {
                let kind = rom@[MBC_REGISTER as int];
                match c.mbc {
                    CartridgeMbc::NoMbc(m) => kind == 0 && m.rom@ == rom@,
                    CartridgeMbc::Mbc1(m) => 1 <= kind <= 3 && m.is_initial(rom@),
                    CartridgeMbc::Mbc3(m) => kind == 0x13 && m.is_initial(rom@),
                }
            }),
    {
        if rom.len() <= MBC_REGISTER {
            return Err(CartridgeError::MissingHeader);
        }
        let kind = rom[MBC_REGISTER];
        let mbc = if kind == 0 {
            CartridgeMbc::NoMbc(NoMbc::new(rom))
        } else if kind == 1 || kind == 2 || kind == 3 {
            CartridgeMbc::Mbc1(Mbc1::new(rom))
        } else if kind == 0x13 {
            CartridgeMbc::Mbc3(Mbc3::new(rom))
        } else {
            return Err(CartridgeError::UnsupportedMbc(kind));
        };
        Ok(Cartridge { mbc })
    }

    pub fn readb(&self, addr: u16) -> (r: u8)
        requires
            self.wf(),
            is_cartridge_addr(addr),
        ensures
            r == self.read_spec(addr),
    {
        match &self.mbc {
            CartridgeMbc::NoMbc(m) => m.readb(addr),
            CartridgeMbc::Mbc1(m) => m.readb(addr),
            CartridgeMbc::Mbc3(m) => m.readb(addr),
        }
    }

    pub fn writeb(&mut self, addr: u16, value: u8)
        requires
            old(self).wf(),
            is_cartridge_addr(addr),
        ensures
            final(self).wf(),
            old(self).write_post(addr, value, *final(self)),
    {
        match &mut self.mbc {
            CartridgeMbc::NoMbc(m) => m.writeb(addr, value),
            CartridgeMbc::Mbc1(m) => m.writeb(addr, value),
            CartridgeMbc::Mbc3(m) => m.writeb(addr, value),
        }
    }
}

} // verus!
