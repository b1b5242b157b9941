use vstd::prelude::*;

verus! {

/// The flag byte with the given Z, N, H and C bits and a zero low nibble.
pub open spec fn flag_byte(z: bool, n: bool, h: bool, c: bool) -> u8 {
    ((if z { 0x80int } else { 0 }) + (if n { 0x40int } else { 0 }) + (if h { 0x20int } else { 0 })
        + (if c { 0x10int } else { 0 })) as u8
}

/// The big-endian concatenation of two bytes.
pub open spec fn pair(hi: u8, lo: u8) -> u16 {
    (hi as int * 256 + lo as int) as u16
}

/// The CPU register file.
pub struct Registers {
    pub a: u8,
    pub b: u8,
    pub c: u8,
    pub d: u8,
    pub e: u8,
    pub f: u8,
    pub h: u8,
    pub l: u8,
    pub pc: u16,
    pub sp: u16,
}

/// Every flag byte has a zero low nibble.
pub proof fn lemma_flag_byte_low_nibble(f: u8)
    ensures
        forall|z: bool, n: bool, h: bool, c: bool| f == #[trigger] flag_byte(z, n, h, c) ==> f % 16 == 0,
{
}

/// A flag byte whose low nibble is zero is determined by its four flag bits.
pub proof fn lemma_flags_determine_f(f: u8)
    requires
        f % 16 == 0,
    ensures
        f == flag_byte((f / 128) % 2 == 1, (f / 64) % 2 == 1, (f / 32) % 2 == 1, (f / 16) % 2 == 1),
{
    assert(f % 16 == 0 ==> f == ((if (f / 128) % 2 == 1 { 0x80u8 } else { 0 }) + (if (f / 64) % 2
        == 1 { 0x40u8 } else { 0 }) + (if (f / 32) % 2 == 1 { 0x20u8 } else { 0 }) + (if (f / 16) % 2
        == 1 { 0x10u8 } else { 0 }))) by (bit_vector);
}

impl Registers {
    /// The low nibble of F is zero.
    pub open spec fn wf(&self) -> bool {
        self.f % 16 == 0
    }

    /// Zero flag (bit 7 of F).
    pub open spec fn zf(&self) -> bool {
        (self.f / 128) % 2 == 1
    }

    /// Subtract flag (bit 6 of F).
    pub open spec fn nf(&self) -> bool {
        (self.f / 64) % 2 == 1
    }

    /// Half-carry flag (bit 5 of F).
    pub open spec fn hf(&self) -> bool {
        (self.f / 32) % 2 == 1
    }

    /// Carry flag (bit 4 of F).
    pub open spec fn cf(&self) -> bool {
        (self.f / 16) % 2 == 1
    }

    pub open spec fn spec_af(&self) -> u16 {
        pair(self.a, self.f)
    }

    pub open spec fn spec_bc(&self) -> u16 {
        pair(self.b, self.c)
    }

    pub open spec fn spec_de(&self) -> u16 {
        pair(self.d, self.e)
    }

    pub open spec fn spec_hl(&self) -> u16 {
        pair(self.h, self.l)
    }

    /// Register values after the boot ROM has run.
    pub fn new() -> (r: Registers)
        ensures
            r.spec_af() == 0x01b0,
            r.spec_bc() == 0x0013,
            r.spec_de() == 0x00d8,
            r.spec_hl() == 0x014d,
            r.sp == 0xfffe,
            r.pc == 0x0100,
            r.wf(),
    {
        let mut registers = Registers { a: 0, b: 0, c: 0, d: 0, e: 0, f: 0, h: 0, l: 0, pc: 0x100, sp: 0xfffe };
        registers.set_af(0x01b0);
        registers.set_bc(0x13);
        registers.set_de(0xd8);
        registers.set_hl(0x14d);
        registers
    }

    #[verifier::when_used_as_spec(spec_af)]
    pub fn af(&self) -> (r: u16)
        ensures
            r == self.spec_af(),
    {
        self.a as u16 * 256 + self.f as u16
    }

    #[verifier::when_used_as_spec(spec_bc)]
    pub fn bc(&self) -> (r: u16)
        ensures
            r == self.spec_bc(),
    {
        self.b as u16 * 256 + self.c as u16
    }

    #[verifier::when_used_as_spec(spec_de)]
    pub fn de(&self) -> (r: u16)
        ensures
            r == self.spec_de(),
    {
        self.d as u16 * 256 + self.e as u16
    }

    #[verifier::when_used_as_spec(spec_hl)]
    pub fn hl(&self) -> (r: u16)
        ensures
            r == self.spec_hl(),
    {
        self.h as u16 * 256 + self.l as u16
    }

    /// Stores `A = value >> 8` and `F = value & 0xF0`.
    pub fn set_af(&mut self, value: u16)
        ensures
            *final(self) == (Registers { a: (value / 256) as u8, f: ((value % 256) / 16 * 16) as u8, ..*old(self) }),
            final(self).wf(),
    {
        self.a = (value / 256) as u8;
        self.f = ((value % 256) / 16 * 16) as u8;
    }

    pub fn set_bc(&mut self, value: u16)
        ensures
            *final(self) == (Registers { b: (value / 256) as u8, c: (value % 256) as u8, ..*old(self) }),
            final(self).spec_bc() == value,
    {
        self.b = (value / 256) as u8;
        self.c = (value % 256) as u8;
    }

    pub fn set_de(&mut self, value: u16)
        ensures
            *final(self) == (Registers { d: (value / 256) as u8, e: (value % 256) as u8, ..*old(self) }),
            final(self).spec_de() == value,
    {
        self.d = (value / 256) as u8;
        self.e = (value % 256) as u8;
    }

    pub fn set_hl(&mut self, value: u16)
        ensures
            *final(self) == (Registers { h: (value / 256) as u8, l: (value % 256) as u8, ..*old(self) }),
            final(self).spec_hl() == value,
    {
        self.h = (value / 256) as u8;
        self.l = (value % 256) as u8;
    }

    pub fn set_z(&mut self, value: bool)
        ensures
            *final(self) == (Registers { f: final(self).f, ..*old(self) }),
            final(self).zf() == value,
            final(self).nf() == old(self).nf(),
            final(self).hf() == old(self).hf(),
            final(self).cf() == old(self).cf(),
            final(self).f % 16 == old(self).f % 16,
    {
        let f = self.f;
        self.f = if value { f | 0x80 } else { f & 0x7f };
        assert(((f | 0x80) / 128) % 2 == 1 && ((f & 0x7f) / 128) % 2 == 0
            && ((f | 0x80) / 64) % 2 == (f / 64) % 2 && ((f & 0x7f) / 64) % 2 == (f / 64) % 2
            && ((f | 0x80) / 32) % 2 == (f / 32) % 2 && ((f & 0x7f) / 32) % 2 == (f / 32) % 2
            && ((f | 0x80) / 16) % 2 == (f / 16) % 2 && ((f & 0x7f) / 16) % 2 == (f / 16) % 2
            && (f | 0x80) % 16 == f % 16 && (f & 0x7f) % 16 == f % 16) by (bit_vector);
    }

    pub fn set_n(&mut self, value: bool)
        ensures
            *final(self) == (Registers { f: final(self).f, ..*old(self) }),
            final(self).zf() == old(self).zf(),
            final(self).nf() == value,
            final(self).hf() == old(self).hf(),
            final(self).cf() == old(self).cf(),
            final(self).f % 16 == old(self).f % 16,
    {
        let f = self.f;
        self.f = if value { f | 0x40 } else { f & 0xbf };
        assert(((f | 0x40) / 64) % 2 == 1 && ((f & 0xbf) / 64) % 2 == 0
            && ((f | 0x40) / 128) % 2 == (f / 128) % 2 && ((f & 0xbf) / 128) % 2 == (f / 128) % 2
            && ((f | 0x40) / 32) % 2 == (f / 32) % 2 && ((f & 0xbf) / 32) % 2 == (f / 32) % 2
            && ((f | 0x40) / 16) % 2 == (f / 16) % 2 && ((f & 0xbf) / 16) % 2 == (f / 16) % 2
            && (f | 0x40) % 16 == f % 16 && (f & 0xbf) % 16 == f % 16) by (bit_vector);
    }

    pub fn set_h(&mut self, value: bool)
        ensures
            *final(self) == (Registers { f: final(self).f, ..*old(self) }),
            final(self).zf() == old(self).zf(),
            final(self).nf() == old(self).nf(),
            final(self).hf() == value,
            final(self).cf() == old(self).cf(),
            final(self).f % 16 == old(self).f % 16,
    {
        let f = self.f;
        self.f = if value { f | 0x20 } else { f & 0xdf };
        assert(((f | 0x20) / 32) % 2 == 1 && ((f & 0xdf) / 32) % 2 == 0
            && ((f | 0x20) / 128) % 2 == (f / 128) % 2 && ((f & 0xdf) / 128) % 2 == (f / 128) % 2
            && ((f | 0x20) / 64) % 2 == (f / 64) % 2 && ((f & 0xdf) / 64) % 2 == (f / 64) % 2
            && ((f | 0x20) / 16) % 2 == (f / 16) % 2 && ((f & 0xdf) / 16) % 2 == (f / 16) % 2
            && (f | 0x20) % 16 == f % 16 && (f & 0xdf) % 16 == f % 16) by (bit_vector);
    }

    pub fn set_c(&mut self, value: bool)
        ensures
            *final(self) == (Registers { f: final(self).f, ..*old(self) }),
            final(self).zf() == old(self).zf(),
            final(self).nf() == old(self).nf(),
            final(self).hf() == old(self).hf(),
            final(self).cf() == value,
            final(self).f % 16 == old(self).f % 16,
    {
        let f = self.f;
        self.f = if value { f | 0x10 } else { f & 0xef };
        assert(((f | 0x10) / 16) % 2 == 1 && ((f & 0xef) / 16) % 2 == 0
            && ((f | 0x10) / 128) % 2 == (f / 128) % 2 && ((f & 0xef) / 128) % 2 == (f / 128) % 2
            && ((f | 0x10) / 64) % 2 == (f / 64) % 2 && ((f & 0xef) / 64) % 2 == (f / 64) % 2
            && ((f | 0x10) / 32) % 2 == (f / 32) % 2 && ((f & 0xef) / 32) % 2 == (f / 32) % 2
            && (f | 0x10) % 16 == f % 16 && (f & 0xef) % 16 == f % 16) by (bit_vector);
    }

    pub fn get_z(&self) -> (r: bool)
        ensures
            r == self.zf(),
    {
        (self.f / 128) % 2 == 1
    }

    pub fn get_n(&self) -> (r: bool)
        ensures
            r == self.nf(),
    {
        (self.f / 64) % 2 == 1
    }

    pub fn get_h(&self) -> (r: bool)
        ensures
            r == self.hf(),
    {
        (self.f / 32) % 2 == 1
    }

    pub fn get_c(&self) -> (r: bool)
        ensures
            r == self.cf(),
    {
        (self.f / 16) % 2 == 1
    }

    /// Sets all four flags at once; F's low nibble is kept.
    pub fn set_flags(&mut self, z: bool, n: bool, h: bool, c: bool)
        requires
            old(self).wf(),
        ensures
            *final(self) == (Registers { f: flag_byte(z, n, h, c), ..*old(self) }),
    {
        self.set_z(z);
        self.set_n(n);
        self.set_h(h);
        self.set_c(c);
        proof {
            lemma_flags_determine_f(self.f);
        }
    }
}

impl Default for Registers {
    fn default() -> (r: Registers)
        ensures
            r.spec_af() == 0x01b0,
            r.spec_bc() == 0x0013,
            r.spec_de() == 0x00d8,
            r.spec_hl() == 0x014d,
            r.sp == 0xfffe,
            r.pc == 0x0100,
            r.wf(),
    {
        Registers::new()
    }
}

} // verus!
