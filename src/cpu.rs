use vstd::prelude::*;
use crate::mmu::Mmu;
use crate::registers::{Registers, flag_byte, pair};
use crate::utils::bit8;

verus! {

// Addresses of the interrupt routines.
const V_BLANK_ROUTINE: u16 = 0x40;
const LCD_ROUTINE: u16 = 0x48;
const TIMER_ROUTINE: u16 = 0x50;
const SERIAL_ROUTINE: u16 = 0x58;
const JOYPAD_ROUTINE: u16 = 0x60;

// Interrupt bits in IF and IE.
pub const V_BLANK_INTERUPT: u8 = 0;
pub const LCD_INTERUPT: u8 = 1;
pub const TIMER_INTERUPT: u8 = 2;
pub const SERIAL_INTERUPT: u8 = 3;
pub const JOYPAD_INTERUPT: u8 = 4;

/// `x` reduced to a 16-bit address.
pub open spec fn w16(x: int) -> u16 {
    (x % 65536) as u16
}

/// `x` reduced to a byte.
pub open spec fn w8(x: int) -> u8 {
    (x % 256) as u8
}

/// Opcodes with no instruction.
pub open spec fn is_undefined_opcode(op: u8) -> bool {
    op == 0xD3 || op == 0xDB || op == 0xDD || op == 0xE3 || op == 0xE4 || op == 0xEB || op == 0xEC || op == 0xED
        || op == 0xF4 || op == 0xFC || op == 0xFD
}

/// Whether `op` is one of the opcodes with no instruction.
pub fn is_unknown_opcode(op: u8) -> (r: bool)
    ensures
        r == is_undefined_opcode(op),
{
    op == 0xD3 || op == 0xDB || op == 0xDD || op == 0xE3 || op == 0xE4 || op == 0xEB || op == 0xEC || op == 0xED
        || op == 0xF4 || op == 0xFC || op == 0xFD
}

/// 8-bit operand `i` of an instruction: B, C, D, E, H, L, (HL), A.
pub open spec fn operand(reg: Registers, mmu: Mmu, i: u8) -> u8 {
    if i == 0 {
        reg.b
    } else if i == 1 {
        reg.c
    } else if i == 2 {
        reg.d
    } else if i == 3 {
        reg.e
    } else if i == 4 {
        reg.h
    } else if i == 5 {
        reg.l
    } else if i == 6 {
        mmu.read_spec(reg.spec_hl())
    } else {
        reg.a
    }
}

/// Registers with register operand `i` (not 6) set to `v`.
pub open spec fn with_operand(reg: Registers, i: u8, v: u8) -> Registers {
    if i == 0 {
        Registers { b: v, ..reg }
    } else if i == 1 {
        Registers { c: v, ..reg }
    } else if i == 2 {
        Registers { d: v, ..reg }
    } else if i == 3 {
        Registers { e: v, ..reg }
    } else if i == 4 {
        Registers { h: v, ..reg }
    } else if i == 5 {
        Registers { l: v, ..reg }
    } else if i == 7 {
        Registers { a: v, ..reg }
    } else {
        reg
    }
}

/// Register pair `i`: BC, DE, HL, SP.
pub open spec fn pair_operand(reg: Registers, i: u8) -> u16 {
    if i == 0 {
        reg.spec_bc()
    } else if i == 1 {
        reg.spec_de()
    } else if i == 2 {
        reg.spec_hl()
    } else {
        reg.sp
    }
}

/// Registers with pair `i` (BC, DE, HL, SP) set to `v`.
pub open spec fn with_pair(reg: Registers, i: u8, v: u16) -> Registers {
    if i == 0 {
        Registers { b: (v / 256) as u8, c: (v % 256) as u8, ..reg }
    } else if i == 1 {
        Registers { d: (v / 256) as u8, e: (v % 256) as u8, ..reg }
    } else if i == 2 {
        Registers { h: (v / 256) as u8, l: (v % 256) as u8, ..reg }
    } else {
        Registers { sp: v, ..reg }
    }
}

/// A and F after `A + v + c`.
pub open spec fn add_result(a: u8, v: u8, c: int) -> (u8, u8) {
    let s = a + v + c;
    (w8(s), flag_byte(s % 256 == 0, false, a % 16 + v % 16 + c > 15, s > 255))
}

/// A and F after `A - v - c`.
pub open spec fn sub_result(a: u8, v: u8, c: int) -> (u8, u8) {
    let d = a - v - c;
    (w8(d), flag_byte(d % 256 == 0, true, a % 16 < v % 16 + c, a < v + c))
}

/// A and F after the 8-bit operation `kind` (ADD, ADC, SUB, SBC, AND, XOR,
/// OR, CP) of A with `v`, given the carry flag `cf`.
pub open spec fn alu(kind: u8, a: u8, v: u8, cf: bool) -> (u8, u8) {
    let c: int = if cf { 1 } else { 0 };
    if kind == 0 {
        add_result(a, v, 0)
    } else if kind == 1 {
        add_result(a, v, c)
    } else if kind == 2 {
        sub_result(a, v, 0)
    } else if kind == 3 {
        sub_result(a, v, c)
    } else if kind == 4 {
        (a & v, flag_byte(a & v == 0, false, true, false))
    } else if kind == 5 {
        (a ^ v, flag_byte(a ^ v == 0, false, false, false))
    } else if kind == 6 {
        (a | v, flag_byte(a | v == 0, false, false, false))
    } else {
        (a, sub_result(a, v, 0).1)
    }
}

/// Value and carry out of the rotation or shift `kind` (RLC, RRC, RL, RR,
/// SLA, SRA, SWAP, SRL) of `v`, given the carry flag `cf`.
pub open spec fn shift_result(kind: u8, v: u8, cf: bool) -> (u8, bool) {
    let c: int = if cf { 1 } else { 0 };
    if kind == 0 {
        (w8(v * 2 + v / 128), v >= 128)
    } else if kind == 1 {
        ((v / 2 + (v % 2) * 128) as u8, v % 2 == 1)
    } else if kind == 2 {
        (w8(v * 2 + c), v >= 128)
    } else if kind == 3 {
        ((v / 2 + c * 128) as u8, v % 2 == 1)
    } else if kind == 4 {
        (w8(v * 2), v >= 128)
    } else if kind == 5 {
        ((v / 2 + (v / 128) * 128) as u8, v % 2 == 1)
    } else if kind == 6 {
        (((v % 16) * 16 + v / 16) as u8, false)
    } else {
        ((v / 2) as u8, v % 2 == 1)
    }
}

/// Value and F after prefixed instruction `op` on operand value `v` with
/// flags `f`: shifts (0x00-0x3F), BIT (0x40-0x7F), RES (0x80-0xBF), SET.
pub open spec fn cb_result(op: u8, v: u8, f: u8) -> (u8, u8) {
    let n = ((op / 8) % 8) as u8;
    let cf = (f / 16) % 2 == 1;
    let zf = (f / 128) % 2 == 1;
    if op < 0x40 {
        let (r, c) = shift_result(n, v, cf);
        (r, flag_byte(r == 0, false, false, c))
    } else if op < 0x80 {
        (v, flag_byte(!bit8(v, n), false, true, cf))
    } else if op < 0xC0 {
        (v & !(1u8 << n), f)
    } else {
        (v | (1u8 << n), f)
    }
}

/// A and F after DAA.
pub open spec fn daa_result(a: u8, f: u8) -> (u8, u8) {
    let n = (f / 64) % 2 == 1;
    let h = (f / 32) % 2 == 1;
    let c = (f / 16) % 2 == 1;
    if n {
        let a1 = if c { w8(a - 0x60) } else { a };
        let a2 = if h { w8(a1 - 6) } else { a1 };
        (a2, flag_byte(a2 == 0, n, false, c))
    } else {
        let a1 = if c || a > 0x99 { w8(a + 0x60) } else { a };
        let c1 = c || a > 0x99;
        let a2 = if h || a1 % 16 > 9 { w8(a1 + 6) } else { a1 };
        (a2, flag_byte(a2 == 0, n, false, c1))
    }
}

/// Sign extension of a byte offset.
pub open spec fn signed(d: u8) -> int {
    if d < 128 {
        d as int
    } else {
        d - 256
    }
}

/// The CPU: registers, interrupt master enable, halt state.
pub struct Cpu {
    pub reg: Registers,
    pub ime: bool,
    pub halted: bool,
}

fn wrap_add(a: u16, d: u16) -> (r: u16)
    ensures
        r == w16(a + d),
{
    ((a as u32 + d as u32) % 65536) as u16
}

fn wrap_sub(a: u16, d: u16) -> (r: u16)
    ensures
        r == w16(a - d),
{
    ((a as u32 + 65536 - d as u32) % 65536) as u16
}

impl Cpu {
    /// Power-on state: registers as the boot ROM leaves them, interrupts on.
    pub fn new() -> (r: Cpu)
        ensures
            r.reg.spec_af() == 0x01b0 && r.reg.spec_bc() == 0x0013 && r.reg.spec_de() == 0x00d8 && r.reg.spec_hl()
                == 0x014d,
            r.reg.sp == 0xfffe && r.reg.pc == 0x0100,
            r.reg.wf(),
            r.ime,
            !r.halted,
    {
        Cpu { reg: Registers::new(), ime: true, halted: false }
    }

    /// Registers after the 8-bit operation `kind` on A and `v`.
    pub open spec fn alu_post(&self, kind: u8, v: u8) -> Registers {
        let (a, f) = alu(kind, self.reg.a, v, self.reg.cf());
        Registers { a, f, ..self.reg }
    }

    fn add(&mut self, value: u8, add_carry: bool)
        requires
            old(self).reg.wf(),
        ensures
            *final(self) == (Cpu { reg: old(self).alu_post(if add_carry { 1u8 } else { 0u8 }, value), ..*old(self) }),
    {
        // ADC adds the carry flag.
        let c: u8 = if add_carry && self.reg.get_c() { 1 } else { 0 };
        let a = self.reg.a;
        let sum = ((a as u16 + value as u16 + c as u16) % 256) as u8;
        self.reg.set_flags(sum == 0, false, a % 16 + value % 16 + c > 15, a as u16 + value as u16 + c as u16 > 255);
        self.reg.a = sum;
    }

    fn sub(&mut self, value: u8, sub_carry: bool)
        requires
            old(self).reg.wf(),
        ensures
            *final(self) == (Cpu { reg: old(self).alu_post(if sub_carry { 3u8 } else { 2u8 }, value), ..*old(self) }),
    {
        // SBC subtracts the carry flag too.
        let c: u8 = if sub_carry && self.reg.get_c() { 1 } else { 0 };
        let a = self.reg.a;
        let diff = ((a as u16 + 512 - value as u16 - c as u16) % 256) as u8;
        self.reg.set_flags(diff == 0, true, a % 16 < value % 16 + c, (a as u16) < value as u16 + c as u16);
        self.reg.a = diff;
    }

    fn and(&mut self, value: u8)
        requires
            old(self).reg.wf(),
        ensures
            *final(self) == (Cpu { reg: old(self).alu_post(4, value), ..*old(self) }),
    {
        let r = self.reg.a & value;
        self.reg.set_flags(r == 0, false, true, false);
        self.reg.a = r;
    }

    fn xor(&mut self, value: u8)
        requires
            old(self).reg.wf(),
        ensures
            *final(self) == (Cpu { reg: old(self).alu_post(5, value), ..*old(self) }),
    {
        let r = self.reg.a ^ value;
        self.reg.set_flags(r == 0, false, false, false);
        self.reg.a = r;
    }

    fn or(&mut self, value: u8)
        requires
            old(self).reg.wf(),
        ensures
            *final(self) == (Cpu { reg: old(self).alu_post(6, value), ..*old(self) }),
    {
        let r = self.reg.a | value;
        self.reg.set_flags(r == 0, false, false, false);
        self.reg.a = r;
    }

    fn cp(&mut self, value: u8)
        requires
            old(self).reg.wf(),
        ensures
            *final(self) == (Cpu { reg: old(self).alu_post(7, value), ..*old(self) }),
    {
        // Flags as for SUB; A keeps its value.
        let a = self.reg.a;
        self.sub(value, false);
        self.reg.a = a;
    }

    /// The 8-bit operation `kind` (ADD, ADC, SUB, SBC, AND, XOR, OR, CP) on A and `value`.
    fn alu_op(&mut self, kind: u8, value: u8)
        requires
            old(self).reg.wf(),
            kind < 8,
        ensures
            *final(self) == (Cpu { reg: old(self).alu_post(kind, value), ..*old(self) }),
            final(self).reg.wf(),
    {
        if kind == 0 || kind == 1 {
            self.add(value, kind == 1);
        } else if kind == 2 || kind == 3 {
            self.sub(value, kind == 3);
        } else if kind == 4 {
            self.and(value);
        } else if kind == 5 {
            self.xor(value);
        } else if kind == 6 {
            self.or(value);
        } else {
            self.cp(value);
        }
        proof {
            let (a, f) = alu(kind, old(self).reg.a, value, old(self).reg.cf());
            crate::registers::lemma_flag_byte_low_nibble(f);
        }
    }
}


impl Cpu {
    /// Registers after a rotation or shift of `v` that yields `r` with carry `c`.
    pub open spec fn shifted(&self, r: u8, c: bool) -> Cpu {
        Cpu { reg: Registers { f: flag_byte(r == 0, false, false, c), ..self.reg }, ..*self }
    }

    fn rlc(&mut self, value: u8) -> (r: u8)
        requires
            old(self).reg.wf(),
        ensures
            (r, *final(self)) == (shift_result(0, value, old(self).reg.cf()).0, old(self).shifted(r, shift_result(0, value, old(self).reg.cf()).1)),
    {
        // Rotate left.
        let res = ((value as u16 * 2 + value as u16 / 128) % 256) as u8;
        self.reg.set_flags(res == 0, false, false, value >= 128);
        res
    }

    fn rrc(&mut self, value: u8) -> (r: u8)
        requires
            old(self).reg.wf(),
        ensures
            (r, *final(self)) == (shift_result(1, value, old(self).reg.cf()).0, old(self).shifted(r, shift_result(1, value, old(self).reg.cf()).1)),
    {
        // Rotate right.
        let res = value / 2 + (value % 2) * 128;
        self.reg.set_flags(res == 0, false, false, value % 2 == 1);
        res
    }

    fn rl(&mut self, value: u8) -> (r: u8)
        requires
            old(self).reg.wf(),
        ensures
            (r, *final(self)) == (shift_result(2, value, old(self).reg.cf()).0, old(self).shifted(r, shift_result(2, value, old(self).reg.cf()).1)),
    {
        // Rotate left through carry.
        let c: u16 = if self.reg.get_c() { 1 } else { 0 };
        let res = ((value as u16 * 2 + c) % 256) as u8;
        self.reg.set_flags(res == 0, false, false, value >= 128);
        res
    }

    fn rr(&mut self, value: u8) -> (r: u8)
        requires
            old(self).reg.wf(),
        ensures
            (r, *final(self)) == (shift_result(3, value, old(self).reg.cf()).0, old(self).shifted(r, shift_result(3, value, old(self).reg.cf()).1)),
    {
        // Rotate right through carry.
        let c: u8 = if self.reg.get_c() { 1 } else { 0 };
        let res = value / 2 + c * 128;
        self.reg.set_flags(res == 0, false, false, value % 2 == 1);
        res
    }

    fn sla(&mut self, value: u8) -> (r: u8)
        requires
            old(self).reg.wf(),
        ensures
            (r, *final(self)) == (shift_result(4, value, old(self).reg.cf()).0, old(self).shifted(r, shift_result(4, value, old(self).reg.cf()).1)),
    {
        // Shift left.
        let res = ((value as u16 * 2) % 256) as u8;
        self.reg.set_flags(res == 0, false, false, value >= 128);
        res
    }

    fn sra(&mut self, value: u8) -> (r: u8)
        requires
            old(self).reg.wf(),
        ensures
            (r, *final(self)) == (shift_result(5, value, old(self).reg.cf()).0, old(self).shifted(r, shift_result(5, value, old(self).reg.cf()).1)),
    {
        // Shift right, keeping the sign bit.
        let res = value / 2 + (value / 128) * 128;
        self.reg.set_flags(res == 0, false, false, value % 2 == 1);
        res
    }

    fn swap(&mut self, value: u8) -> (r: u8)
        requires
            old(self).reg.wf(),
        ensures
            (r, *final(self)) == (shift_result(6, value, old(self).reg.cf()).0, old(self).shifted(r, shift_result(6, value, old(self).reg.cf()).1)),
    {
        let res = (value % 16) * 16 + value / 16;
        self.reg.set_flags(res == 0, false, false, false);
        res
    }

    fn srl(&mut self, value: u8) -> (r: u8)
        requires
            old(self).reg.wf(),
        ensures
            (r, *final(self)) == (shift_result(7, value, old(self).reg.cf()).0, old(self).shifted(r, shift_result(7, value, old(self).reg.cf()).1)),
    {
        // Shift right.
        let res = value / 2;
        self.reg.set_flags(res == 0, false, false, value % 2 == 1);
        res
    }

    /// The rotation or shift `kind` (RLC, RRC, RL, RR, SLA, SRA, SWAP, SRL) of `value`.
    fn shift_op(&mut self, kind: u8, value: u8) -> (r: u8)
        requires
            old(self).reg.wf(),
            kind < 8,
        ensures
            (r, *final(self)) == (shift_result(kind, value, old(self).reg.cf()).0, old(self).shifted(r, shift_result(kind, value, old(self).reg.cf()).1)),
            final(self).reg.wf(),
    {
        let r = if kind == 0 {
            self.rlc(value)
        } else if kind == 1 {
            self.rrc(value)
        } else if kind == 2 {
            self.rl(value)
        } else if kind == 3 {
            self.rr(value)
        } else if kind == 4 {
            self.sla(value)
        } else if kind == 5 {
            self.sra(value)
        } else if kind == 6 {
            self.swap(value)
        } else {
            self.srl(value)
        };
        proof {
            crate::registers::lemma_flag_byte_low_nibble(self.reg.f);
        }
        r
    }

    fn bit(&mut self, value: u8, index: u8)
        requires
            old(self).reg.wf(),
            index < 8,
        ensures
            *final(self) == (Cpu { reg: Registers { f: flag_byte(!bit8(value, index), false, true, old(self).reg.cf()), ..old(self).reg }, ..*old(self) }),
    {
        let c = self.reg.get_c();
        let set = crate::utils::Bits::is_set(&value, index);
        self.reg.set_flags(!set, false, true, c);
    }

    /// Returns `value + 1`; sets Z, N and H, keeps C.
    fn inc(&mut self, value: u8) -> (r: u8)
        requires
            old(self).reg.wf(),
        ensures
            r == w8(value + 1),
            *final(self) == (Cpu { reg: Registers { f: flag_byte(r == 0, false, value % 16 == 15, old(self).reg.cf()), ..old(self).reg }, ..*old(self) }),
    {
        let res = ((value as u16 + 1) % 256) as u8;
        let c = self.reg.get_c();
        self.reg.set_flags(res == 0, false, value % 16 == 15, c);
        res
    }

    /// Returns `value - 1`; sets Z, N and H, keeps C.
    fn dec(&mut self, value: u8) -> (r: u8)
        requires
            old(self).reg.wf(),
        ensures
            r == w8(value - 1),
            *final(self) == (Cpu { reg: Registers { f: flag_byte(r == 0, true, value % 16 == 0, old(self).reg.cf()), ..old(self).reg }, ..*old(self) }),
    {
        let res = ((value as u16 + 255) % 256) as u8;
        let c = self.reg.get_c();
        self.reg.set_flags(res == 0, true, value % 16 == 0, c);
        res
    }

    /// HL += value; N cleared, H and C from bits 11 and 15, Z kept.
    fn add16(&mut self, value: u16)
        requires
            old(self).reg.wf(),
        ensures
            *final(self) == (Cpu {
                reg: with_pair(
                    Registers { f: flag_byte(old(self).reg.zf(), false, old(self).reg.spec_hl() % 4096 + value % 4096 > 4095,
                        old(self).reg.spec_hl() + value > 65535), ..old(self).reg },
                    2,
                    w16(old(self).reg.spec_hl() + value),
                ),
                ..*old(self)
            }),
    {
        let hl = self.reg.hl();
        let sum = wrap_add(hl, value);
        let z = self.reg.get_z();
        self.reg.set_flags(z, false, hl % 4096 + value % 4096 > 4095, hl as u32 + value as u32 > 65535);
        self.reg.set_hl(sum);
    }

    /// SP plus the signed offset `value`; flags from the low-byte addition.
    fn add_sp(&mut self, value: u8) -> (r: u16)
        requires
            old(self).reg.wf(),
        ensures
            r == w16(old(self).reg.sp + signed(value)),
            *final(self) == (Cpu {
                reg: Registers {
                    f: flag_byte(false, false, old(self).reg.sp % 16 + value % 16 > 15, old(self).reg.sp % 256 + value > 255),
                    ..old(self).reg
                },
                ..*old(self)
            }),
    {
        let sp = self.reg.sp;
        let res = if value < 128 { wrap_add(sp, value as u16) } else { wrap_sub(sp, 256 - value as u16) };
        self.reg.set_flags(false, false, sp % 16 + value as u16 % 16 > 15, sp % 256 + value as u16 > 255);
        res
    }

    #[verifier::rlimit(50)]
    fn daa(&mut self)
        requires
            old(self).reg.wf(),
        ensures
            *final(self) == (Cpu {
                reg: Registers { a: daa_result(old(self).reg.a, old(self).reg.f).0, f: daa_result(old(self).reg.a, old(self).reg.f).1, ..old(self).reg },
                ..*old(self)
            }),
    {
        let n = self.reg.get_n();
        let h = self.reg.get_h();
        let mut c = self.reg.get_c();
        let mut a = self.reg.a;
        if n {
            // After a subtraction, adjust only where a (half-)carry occurred.
            if c {
                a = ((a as u16 + 256 - 0x60) % 256) as u8;
            }
            if h {
                a = ((a as u16 + 256 - 6) % 256) as u8;
            }
        } else {
            // After an addition, adjust on (half-)carry or out-of-range digits.
            if c || a > 0x99 {
                a = ((a as u16 + 0x60) % 256) as u8;
                c = true;
            }
            if h || a % 16 > 9 {
                a = ((a as u16 + 6) % 256) as u8;
            }
        }
        self.reg.set_flags(a == 0, n, false, c);
        self.reg.a = a;
    }

    fn cpl(&mut self)
        requires
            old(self).reg.wf(),
        ensures
            *final(self) == (Cpu {
                reg: Registers { a: (255 - old(self).reg.a) as u8, f: flag_byte(old(self).reg.zf(), true, true, old(self).reg.cf()), ..old(self).reg },
                ..*old(self)
            }),
    {
        self.reg.a = 255 - self.reg.a;
        self.reg.set_h(true);
        self.reg.set_n(true);
        proof {
            crate::registers::lemma_flags_determine_f(self.reg.f);
        }
    }

    fn scf(&mut self)
        requires
            old(self).reg.wf(),
        ensures
            *final(self) == (Cpu { reg: Registers { f: flag_byte(old(self).reg.zf(), false, false, true), ..old(self).reg }, ..*old(self) }),
    {
        self.reg.set_n(false);
        self.reg.set_h(false);
        self.reg.set_c(true);
        proof {
            crate::registers::lemma_flags_determine_f(self.reg.f);
        }
    }

    fn ccf(&mut self)
        requires
            old(self).reg.wf(),
        ensures
            *final(self) == (Cpu { reg: Registers { f: flag_byte(old(self).reg.zf(), false, false, !old(self).reg.cf()), ..old(self).reg }, ..*old(self) }),
    {
        self.reg.set_n(false);
        self.reg.set_h(false);
        let c = self.reg.get_c();
        self.reg.set_c(!c);
        proof {
            crate::registers::lemma_flags_determine_f(self.reg.f);
        }
    }

    /// Adds the signed offset `delta` to PC.
    fn jr(&mut self, delta: u8)
        ensures
            *final(self) == (Cpu { reg: Registers { pc: w16(old(self).reg.pc + signed(delta)), ..old(self).reg }, ..*old(self) }),
    {
        let pc = self.reg.pc;
        self.reg.pc = if delta < 128 { wrap_add(pc, delta as u16) } else { wrap_sub(pc, 256 - delta as u16) };
    }
}


/// The 16-bit word on the stack at `sp`: low byte at `sp`, high byte above.
pub open spec fn stack_word(mmu: Mmu, sp: u16) -> u16 {
    pair(mmu.read_spec(w16(sp + 1)), mmu.read_spec(sp))
}

/// `after` is `mmu` once `value` has been pushed below `sp`: high byte at
/// `sp - 1`, then low byte at `sp - 2`.
pub open spec fn pushed(mmu: Mmu, sp: u16, value: u16, after: Mmu) -> bool {
    exists|mid: Mmu|
        mid.wf() && #[trigger] mmu.write_post(w16(sp - 1), (value / 256) as u8, mid) && mid.write_post(
            w16(sp - 2),
            (value % 256) as u8,
            after,
        )
}

impl Cpu {
    /// The CPU with PC advanced by `n`.
    pub open spec fn advanced(&self, n: int) -> Cpu {
        Cpu { reg: Registers { pc: w16(self.reg.pc + n), ..self.reg }, ..*self }
    }

    /// Fetches the byte at PC and advances PC.
    fn readb(&mut self, mmu: &Mmu) -> (r: u8)
        requires
            mmu.wf(),
        ensures
            r == mmu.read_spec(old(self).reg.pc),
            *final(self) == old(self).advanced(1),
    {
        let byte = mmu.readb(self.reg.pc);
        self.reg.pc = wrap_add(self.reg.pc, 1);
        byte
    }

    /// Fetches the little-endian word at PC and advances PC by two.
    fn readw(&mut self, mmu: &Mmu) -> (r: u16)
        requires
            mmu.wf(),
        ensures
            r == mmu.read16_spec(old(self).reg.pc),
            *final(self) == old(self).advanced(2),
    {
        let word = mmu.readw(self.reg.pc);
        self.reg.pc = wrap_add(self.reg.pc, 2);
        word
    }

    /// Reads 8-bit operand `i`.
    fn read_operand(&self, mmu: &Mmu, i: u8) -> (r: u8)
        requires
            mmu.wf(),
            i < 8,
        ensures
            r == operand(self.reg, *mmu, i),
    {
        if i == 0 {
            self.reg.b
        } else if i == 1 {
            self.reg.c
        } else if i == 2 {
            self.reg.d
        } else if i == 3 {
            self.reg.e
        } else if i == 4 {
            self.reg.h
        } else if i == 5 {
            self.reg.l
        } else if i == 6 {
            mmu.readb(self.reg.hl())
        } else {
            self.reg.a
        }
    }

    /// Writes 8-bit operand `i`: a register, or the byte at HL.
    fn write_operand(&mut self, mmu: &mut Mmu, i: u8, v: u8)
        requires
            old(mmu).wf(),
            i < 8,
        ensures
            final(mmu).wf(),
            i == 6 ==> *final(self) == *old(self) && old(mmu).write_post(old(self).reg.spec_hl(), v, *final(mmu)),
            i != 6 ==> *final(self) == (Cpu { reg: with_operand(old(self).reg, i, v), ..*old(self) }) && *final(mmu)
                == *old(mmu),
    {
        if i == 0 {
            self.reg.b = v;
        } else if i == 1 {
            self.reg.c = v;
        } else if i == 2 {
            self.reg.d = v;
        } else if i == 3 {
            self.reg.e = v;
        } else if i == 4 {
            self.reg.h = v;
        } else if i == 5 {
            self.reg.l = v;
        } else if i == 6 {
            mmu.writeb(self.reg.hl(), v);
        } else {
            self.reg.a = v;
        }
    }

    fn push(&mut self, mmu: &mut Mmu, value: u16)
        requires
            old(mmu).wf(),
        ensures
            final(mmu).wf(),
            *final(self) == (Cpu { reg: Registers { sp: w16(old(self).reg.sp - 2), ..old(self).reg }, ..*old(self) }),
            pushed(*old(mmu), old(self).reg.sp, value, *final(mmu)),
    {
        let msb = (value / 256) as u8;
        let lsb = (value % 256) as u8;
        self.reg.sp = wrap_sub(self.reg.sp, 1);
        mmu.writeb(self.reg.sp, msb);
        let ghost mid = *mmu;
        self.reg.sp = wrap_sub(self.reg.sp, 1);
        mmu.writeb(self.reg.sp, lsb);
        assert(old(mmu).write_post(w16(old(self).reg.sp - 1), (value / 256) as u8, mid));
    }

    fn pop(&mut self, mmu: &Mmu) -> (r: u16)
        requires
            mmu.wf(),
        ensures
            r == stack_word(*mmu, old(self).reg.sp),
            *final(self) == (Cpu { reg: Registers { sp: w16(old(self).reg.sp + 2), ..old(self).reg }, ..*old(self) }),
    {
        let lsb = mmu.readb(self.reg.sp);
        self.reg.sp = wrap_add(self.reg.sp, 1);
        let msb = mmu.readb(self.reg.sp);
        self.reg.sp = wrap_add(self.reg.sp, 1);
        msb as u16 * 256 + lsb as u16
    }

    /// Pushes PC and jumps to `addr`.
    fn call(&mut self, mmu: &mut Mmu, addr: u16)
        requires
            old(mmu).wf(),
        ensures
            final(mmu).wf(),
            *final(self) == (Cpu { reg: Registers { sp: w16(old(self).reg.sp - 2), pc: addr, ..old(self).reg }, ..*old(self) }),
            pushed(*old(mmu), old(self).reg.sp, old(self).reg.pc, *final(mmu)),
    {
        let pc = self.reg.pc;
        self.push(mmu, pc);
        self.reg.pc = addr;
    }
}


/// Condition `y` (0-3) of a conditional jump: NZ, Z, NC, C.
pub open spec fn condition(reg: Registers, y: u8) -> bool {
    if y == 0 {
        !reg.zf()
    } else if y == 1 {
        reg.zf()
    } else if y == 2 {
        !reg.cf()
    } else {
        reg.cf()
    }
}

/// Effect of LD r, r' and HALT (0x40-0x7F), from the CPU `c` just past the
/// opcode and the bus `m`, to `c2`, `m2` and the cycles taken.
pub open spec fn load_post(op: u8, c: Cpu, m: Mmu, c2: Cpu, m2: Mmu, cycles: u32) -> bool {
    let d = ((op / 8) % 8) as u8;
    let s = (op % 8) as u8;
    let v = operand(c.reg, m, s);
    if op == 0x76 {
        c2 == Cpu { halted: true, ..c } && m2 == m && cycles == 4
    } else if d == 6 {
        c2 == c && m.write_post(c.reg.spec_hl(), v, m2) && cycles == 8
    } else {
        c2 == Cpu { reg: with_operand(c.reg, d, v), ..c } && m2 == m && cycles == (if s == 6 { 8u32 } else { 4u32 })
    }
}

/// Effect of the 8-bit arithmetic block (0x80-0xBF).
pub open spec fn alu_block_post(op: u8, c: Cpu, m: Mmu, c2: Cpu, m2: Mmu, cycles: u32) -> bool {
    let s = (op % 8) as u8;
    let v = operand(c.reg, m, s);
    c2 == Cpu { reg: c.alu_post(((op / 8) % 8) as u8, v), ..c } && m2 == m && cycles == (if s == 6 { 8u32 } else { 4u32 })
}

/// Effect of a prefixed instruction, from the CPU `c` just past 0xCB.
pub open spec fn prefixed_post(c: Cpu, m: Mmu, c2: Cpu, m2: Mmu, cycles: u32) -> bool {
    let op = m.read_spec(c.reg.pc);
    let c1 = c.advanced(1);
    let idx = (op % 8) as u8;
    let v = operand(c1.reg, m, idx);
    let (r, f) = cb_result(op, v, c1.reg.f);
    let cf = Cpu { reg: Registers { f, ..c1.reg }, ..c1 };
    if 0x40 <= op < 0x80 {
        c2 == cf && m2 == m && cycles == (if idx == 6 { 12u32 } else { 8u32 })
    } else if idx == 6 {
        c2 == cf && m.write_post(c1.reg.spec_hl(), r, m2) && cycles == 16
    } else {
        c2 == Cpu { reg: with_operand(cf.reg, idx, r), ..cf } && m2 == m && cycles == 8
    }
}

impl Cpu {
    /// LD r, r' and HALT.
    #[verifier::rlimit(80)]
    fn exec_load(&mut self, mmu: &mut Mmu, op: u8) -> (cycles: u32)
        requires
            old(mmu).wf(),
            old(self).reg.wf(),
            0x40 <= op < 0x80,
        ensures
            final(mmu).wf(),
            final(self).reg.wf(),
            load_post(op, *old(self), *old(mmu), *final(self), *final(mmu), cycles),
    {
        if op == 0x76 {
            self.halted = true;
            return 4;
        }
        let d = (op / 8) % 8;
        let s = op % 8;
        let v = self.read_operand(mmu, s);
        self.write_operand(mmu, d, v);
        if d == 6 || s == 6 {
            8
        } else {
            4
        }
    }

    /// ADD, ADC, SUB, SBC, AND, XOR, OR, CP with a register or (HL).
    #[verifier::rlimit(80)]
    fn exec_alu(&mut self, mmu: &mut Mmu, op: u8) -> (cycles: u32)
        requires
            old(mmu).wf(),
            old(self).reg.wf(),
            0x80 <= op < 0xC0,
        ensures
            final(mmu).wf(),
            final(self).reg.wf(),
            alu_block_post(op, *old(self), *old(mmu), *final(self), *final(mmu), cycles),
    {
        let s = op % 8;
        let v = self.read_operand(mmu, s);
        self.alu_op((op / 8) % 8, v);
        if s == 6 {
            8
        } else {
            4
        }
    }

    /// Runs the instruction after a 0xCB prefix.
    #[verifier::rlimit(80)]
    fn run_prefixed(&mut self, mmu: &mut Mmu) -> (cycles: u32)
        requires
            old(mmu).wf(),
            old(self).reg.wf(),
        ensures
            final(mmu).wf(),
            final(self).reg.wf(),
            prefixed_post(*old(self), *old(mmu), *final(self), *final(mmu), cycles),
    {
        let op = self.readb(mmu);
        let idx = op % 8;
        let n = (op / 8) % 8;
        let v = self.read_operand(mmu, idx);
        if op < 0x40 {
            let r = self.shift_op(n, v);
            self.write_operand(mmu, idx, r);
            if idx == 6 {
                16
            } else {
                8
            }
        } else if op < 0x80 {
            self.bit(v, n);
            proof {
                crate::registers::lemma_flag_byte_low_nibble(self.reg.f);
            }
            if idx == 6 {
                12
            } else {
                8
            }
        } else {
            let r = if op < 0xC0 { v & !(1u8 << n) } else { v | (1u8 << n) };
            self.write_operand(mmu, idx, r);
            if idx == 6 {
                16
            } else {
                8
            }
        }
    }
}


/// Effect of the opcodes 0x00-0x3F, from the CPU `c` just past the opcode.
pub open spec fn low_post(op: u8, c: Cpu, m: Mmu, c2: Cpu, m2: Mmu, cycles: u32) -> bool {
    let x = (op % 8) as u8;
    let y = ((op / 8) % 8) as u8;
    let p = (y / 2) as u8;
    let n8 = m.read_spec(c.reg.pc);
    let n16 = m.read16_spec(c.reg.pc);
    let hl = c.reg.spec_hl();
    if x == 0 {
        if y == 0 || y == 2 {
            // NOP; STOP.
            c2 == c && m2 == m && cycles == 4
        } else if y == 1 {
            // LD (nn), SP.
            &&& c2 == c.advanced(2)
            &&& exists|mid: Mmu|
                mid.wf() && #[trigger] m.write_post(n16, (c.reg.sp % 256) as u8, mid) && mid.write_post(
                    crate::mmu::next_addr(n16),
                    (c.reg.sp / 256) as u8,
                    m2,
                )
            &&& cycles == 20
        } else if y == 3 || condition(c.reg, (y - 4) as u8) {
            // JR e; JR cc, e taken.
            c2 == Cpu { reg: Registers { pc: w16(c.reg.pc + 1 + signed(n8)), ..c.reg }, ..c } && m2 == m && cycles == 12
        } else {
            c2 == c.advanced(1) && m2 == m && cycles == 8
        }
    } else if x == 1 {
        if y % 2 == 0 {
            // LD rr, nn.
            c2 == Cpu { reg: with_pair(c.advanced(2).reg, p, n16), ..c } && m2 == m && cycles == 12
        } else {
            // ADD HL, rr.
            let rr = pair_operand(c.reg, p);
            &&& c2 == Cpu {
                reg: with_pair(
                    Registers { f: flag_byte(c.reg.zf(), false, hl % 4096 + rr % 4096 > 4095, hl + rr > 65535), ..c.reg },
                    2,
                    w16(hl + rr),
                ),
                ..c
            }
            &&& m2 == m
            &&& cycles == 8
        }
    } else if x == 2 {
        // LD (BC), A; LD (DE), A; LD (HL+), A; LD (HL-), A and the loads back.
        let addr = if p == 0 { c.reg.spec_bc() } else if p == 1 { c.reg.spec_de() } else { hl };
        let reg = if p == 2 { with_pair(c.reg, 2, w16(hl + 1)) } else if p == 3 { with_pair(c.reg, 2, w16(hl - 1)) } else { c.reg };
        if y % 2 == 0 {
            c2 == Cpu { reg, ..c } && m.write_post(addr, c.reg.a, m2) && cycles == 8
        } else {
            c2 == Cpu { reg: Registers { a: m.read_spec(addr), ..reg }, ..c } && m2 == m && cycles == 8
        }
    } else if x == 3 {
        // INC rr; DEC rr.
        let rr = pair_operand(c.reg, p);
        let v = if y % 2 == 0 { w16(rr + 1) } else { w16(rr - 1) };
        c2 == Cpu { reg: with_pair(c.reg, p, v), ..c } && m2 == m && cycles == 8
    } else if x == 4 || x == 5 {
        // INC r; DEC r.
        let v = operand(c.reg, m, y);
        let r = if x == 4 { w8(v + 1) } else { w8(v - 1) };
        let f = if x == 4 {
            flag_byte(r == 0, false, v % 16 == 15, c.reg.cf())
        } else {
            flag_byte(r == 0, true, v % 16 == 0, c.reg.cf())
        };
        let cf = Cpu { reg: Registers { f, ..c.reg }, ..c };
        if y == 6 {
            c2 == cf && m.write_post(hl, r, m2) && cycles == 12
        } else {
            c2 == Cpu { reg: with_operand(cf.reg, y, r), ..cf } && m2 == m && cycles == 4
        }
    } else if x == 6 {
        // LD r, n.
        let c1 = c.advanced(1);
        if y == 6 {
            c2 == c1 && m.write_post(hl, n8, m2) && cycles == 12
        } else {
            c2 == Cpu { reg: with_operand(c1.reg, y, n8), ..c1 } && m2 == m && cycles == 8
        }
    } else {
        &&& m2 == m
        &&& cycles == 4
        &&& if y < 4 {
            // RLCA, RRCA, RLA, RRA.
            let (r, carry) = shift_result(y, c.reg.a, c.reg.cf());
            c2 == Cpu { reg: Registers { a: r, f: flag_byte(false, false, false, carry), ..c.reg }, ..c }
        } else if y == 4 {
            c2 == Cpu { reg: Registers { a: daa_result(c.reg.a, c.reg.f).0, f: daa_result(c.reg.a, c.reg.f).1, ..c.reg }, ..c }
        } else if y == 5 {
            c2 == Cpu { reg: Registers { a: (255 - c.reg.a) as u8, f: flag_byte(c.reg.zf(), true, true, c.reg.cf()), ..c.reg }, ..c }
        } else if y == 6 {
            c2 == Cpu { reg: Registers { f: flag_byte(c.reg.zf(), false, false, true), ..c.reg }, ..c }
        } else {
            c2 == Cpu { reg: Registers { f: flag_byte(c.reg.zf(), false, false, !c.reg.cf()), ..c.reg }, ..c }
        }
    }
}

impl Cpu {
    fn condition_holds(&self, y: u8) -> (r: bool)
        requires
            y < 4,
        ensures
            r == condition(self.reg, y),
    {
        if y == 0 {
            !self.reg.get_z()
        } else if y == 1 {
            self.reg.get_z()
        } else if y == 2 {
            !self.reg.get_c()
        } else {
            self.reg.get_c()
        }
    }

    fn read_pair(&self, p: u8) -> (r: u16)
        requires
            p < 4,
        ensures
            r == pair_operand(self.reg, p),
    {
        if p == 0 {
            self.reg.bc()
        } else if p == 1 {
            self.reg.de()
        } else if p == 2 {
            self.reg.hl()
        } else {
            self.reg.sp
        }
    }

    fn write_pair(&mut self, p: u8, v: u16)
        requires
            p < 4,
        ensures
            *final(self) == (Cpu { reg: with_pair(old(self).reg, p, v), ..*old(self) }),
    {
        if p == 0 {
            self.reg.set_bc(v);
        } else if p == 1 {
            self.reg.set_de(v);
        } else if p == 2 {
            self.reg.set_hl(v);
        } else {
            self.reg.sp = v;
        }
    }

    /// NOP, LD (nn) SP, STOP, JR and JR cc.
    #[verifier::rlimit(80)]
    fn exec_low_col0(&mut self, mmu: &mut Mmu, op: u8) -> (cycles: u32)
        requires
            old(mmu).wf(),
            old(self).reg.wf(),
            op < 0x40,
            op % 8 == 0,
        ensures
            final(mmu).wf(),
            final(self).reg.wf(),
            low_post(op, *old(self), *old(mmu), *final(self), *final(mmu), cycles),
    {
        let y = op / 8;
        if y == 0 || y == 2 {
            4
        } else if y == 1 {
            let addr = self.readw(mmu);
            mmu.writew(addr, self.reg.sp);
            20
        } else {
            let delta = self.readb(mmu);
            if y == 3 || self.condition_holds(y - 4) {
                self.jr(delta);
                12
            } else {
                8
            }
        }
    }

    /// LD rr, nn and ADD HL, rr.
    #[verifier::rlimit(80)]
    fn exec_low_col1(&mut self, mmu: &mut Mmu, op: u8) -> (cycles: u32)
        requires
            old(mmu).wf(),
            old(self).reg.wf(),
            op < 0x40,
            op % 8 == 1,
        ensures
            final(mmu).wf(),
            final(self).reg.wf(),
            low_post(op, *old(self), *old(mmu), *final(self), *final(mmu), cycles),
    {
        let y = op / 8;
        let p = y / 2;
        if y % 2 == 0 {
            let w = self.readw(mmu);
            self.write_pair(p, w);
            12
        } else {
            let rr = self.read_pair(p);
            self.add16(rr);
            proof {
                crate::registers::lemma_flag_byte_low_nibble(self.reg.f);
            }
            8
        }
    }

    /// Loads and stores of A through BC, DE, HL+ and HL-.
    #[verifier::rlimit(80)]
    fn exec_low_col2(&mut self, mmu: &mut Mmu, op: u8) -> (cycles: u32)
        requires
            old(mmu).wf(),
            old(self).reg.wf(),
            op < 0x40,
            op % 8 == 2,
        ensures
            final(mmu).wf(),
            final(self).reg.wf(),
            low_post(op, *old(self), *old(mmu), *final(self), *final(mmu), cycles),
    {
        let y = op / 8;
        let p = y / 2;
        let hl = self.reg.hl();
        let addr = if p == 0 { self.reg.bc() } else if p == 1 { self.reg.de() } else { hl };
        if p == 2 {
            self.reg.set_hl(wrap_add(hl, 1));
        } else if p == 3 {
            self.reg.set_hl(wrap_sub(hl, 1));
        }
        if y % 2 == 0 {
            mmu.writeb(addr, self.reg.a);
        } else {
            self.reg.a = mmu.readb(addr);
        }
        8
    }

    /// INC rr and DEC rr.
    #[verifier::rlimit(80)]
    fn exec_low_col3(&mut self, mmu: &mut Mmu, op: u8) -> (cycles: u32)
        requires
            old(mmu).wf(),
            old(self).reg.wf(),
            op < 0x40,
            op % 8 == 3,
        ensures
            final(mmu).wf(),
            final(self).reg.wf(),
            low_post(op, *old(self), *old(mmu), *final(self), *final(mmu), cycles),
    {
        let y = op / 8;
        let p = y / 2;
        let rr = self.read_pair(p);
        if y % 2 == 0 {
            self.write_pair(p, wrap_add(rr, 1));
        } else {
            self.write_pair(p, wrap_sub(rr, 1));
        }
        8
    }

    /// INC r and DEC r.
    #[verifier::rlimit(80)]
    fn exec_low_incdec(&mut self, mmu: &mut Mmu, op: u8) -> (cycles: u32)
        requires
            old(mmu).wf(),
            old(self).reg.wf(),
            op < 0x40,
            op % 8 == 4 || op % 8 == 5,
        ensures
            final(mmu).wf(),
            final(self).reg.wf(),
            low_post(op, *old(self), *old(mmu), *final(self), *final(mmu), cycles),
    {
        let y = op / 8;
        let v = self.read_operand(mmu, y);
        let r = if op % 8 == 4 { self.inc(v) } else { self.dec(v) };
        proof {
            crate::registers::lemma_flag_byte_low_nibble(self.reg.f);
        }
        self.write_operand(mmu, y, r);
        if y == 6 {
            12
        } else {
            4
        }
    }

    /// LD r, n.
    #[verifier::rlimit(80)]
    fn exec_low_col6(&mut self, mmu: &mut Mmu, op: u8) -> (cycles: u32)
        requires
            old(mmu).wf(),
            old(self).reg.wf(),
            op < 0x40,
            op % 8 == 6,
        ensures
            final(mmu).wf(),
            final(self).reg.wf(),
            low_post(op, *old(self), *old(mmu), *final(self), *final(mmu), cycles),
    {
        let y = op / 8;
        let n = self.readb(mmu);
        self.write_operand(mmu, y, n);
        if y == 6 {
            12
        } else {
            8
        }
    }

    /// Rotations of A, DAA, CPL, SCF, CCF.
    #[verifier::rlimit(80)]
    fn exec_low_col7(&mut self, mmu: &mut Mmu, op: u8) -> (cycles: u32)
        requires
            old(mmu).wf(),
            old(self).reg.wf(),
            op < 0x40,
            op % 8 == 7,
        ensures
            final(mmu).wf(),
            final(self).reg.wf(),
            low_post(op, *old(self), *old(mmu), *final(self), *final(mmu), cycles),
    {
        let y = op / 8;
        if y < 4 {
            let a = self.reg.a;
            let r = self.shift_op(y, a);
            self.reg.a = r;
            // The accumulator rotations always clear Z.
            self.reg.set_z(false);
            proof {
                crate::registers::lemma_flags_determine_f(self.reg.f);
            }
        } else if y == 4 {
            self.daa();
        } else if y == 5 {
            self.cpl();
        } else if y == 6 {
            self.scf();
        } else {
            self.ccf();
        }
        proof {
            crate::registers::lemma_flag_byte_low_nibble(self.reg.f);
        }
        4
    }

    /// Opcodes 0x00-0x3F.
    #[verifier::rlimit(80)]
    fn exec_low(&mut self, mmu: &mut Mmu, op: u8) -> (cycles: u32)
        requires
            old(mmu).wf(),
            old(self).reg.wf(),
            op < 0x40,
        ensures
            final(mmu).wf(),
            final(self).reg.wf(),
            low_post(op, *old(self), *old(mmu), *final(self), *final(mmu), cycles),
    {
        let x = op % 8;
        if x == 0 {
            self.exec_low_col0(mmu, op)
        } else if x == 1 {
            self.exec_low_col1(mmu, op)
        } else if x == 2 {
            self.exec_low_col2(mmu, op)
        } else if x == 3 {
            self.exec_low_col3(mmu, op)
        } else if x == 4 || x == 5 {
            self.exec_low_incdec(mmu, op)
        } else if x == 6 {
            self.exec_low_col6(mmu, op)
        } else {
            self.exec_low_col7(mmu, op)
        }
    }
}


/// Registers after POP into pair `p` (BC, DE, HL, AF) of the word `w`;
/// F keeps only its high nibble.
pub open spec fn with_popped(reg: Registers, p: u8, w: u16) -> Registers {
    if p == 3 {
        Registers { a: (w / 256) as u8, f: ((w % 256) / 16 * 16) as u8, ..reg }
    } else {
        with_pair(reg, p, w)
    }
}

/// Pair `p` as PUSH reads it: BC, DE, HL, AF.
pub open spec fn push_operand(reg: Registers, p: u8) -> u16 {
    if p == 3 {
        reg.spec_af()
    } else {
        pair_operand(reg, p)
    }
}

/// Effect of the opcodes 0xC0-0xFF but 0xCB, from the CPU `c` just past the opcode.
pub open spec fn high_post(op: u8, c: Cpu, m: Mmu, c2: Cpu, m2: Mmu, cycles: u32) -> bool {
    let x = (op % 8) as u8;
    let y = ((op / 8) % 8) as u8;
    let p = (y / 2) as u8;
    let n8 = m.read_spec(c.reg.pc);
    let n16 = m.read16_spec(c.reg.pc);
    let sp = c.reg.sp;
    let hl = c.reg.spec_hl();
    let c1 = c.advanced(1);
    let c2a = c.advanced(2);
    let ret = Cpu { reg: Registers { pc: stack_word(m, sp), sp: w16(sp + 2), ..c.reg }, ..c };
    let sp_flags = flag_byte(false, false, sp % 16 + n8 % 16 > 15, sp % 256 + n8 > 255);
    if x == 0 {
        if y < 4 {
            // RET cc.
            m2 == m && if condition(c.reg, y) { c2 == ret && cycles == 20 } else { c2 == c && cycles == 8 }
        } else if y == 4 {
            // LDH (n), A.
            c2 == c1 && m.write_post((0xFF00 + n8) as u16, c.reg.a, m2) && cycles == 12
        } else if y == 5 {
            // ADD SP, e.
            c2 == Cpu { reg: Registers { sp: w16(sp + signed(n8)), f: sp_flags, ..c1.reg }, ..c1 } && m2 == m && cycles == 16
        } else if y == 6 {
            // LDH A, (n).
            c2 == Cpu { reg: Registers { a: m.read_spec((0xFF00 + n8) as u16), ..c1.reg }, ..c1 } && m2 == m && cycles == 12
        } else {
            // LD HL, SP + e.
            c2 == Cpu { reg: with_pair(Registers { f: sp_flags, ..c1.reg }, 2, w16(sp + signed(n8))), ..c1 } && m2 == m
                && cycles == 12
        }
    } else if x == 1 {
        m2 == m && if y % 2 == 0 {
            // POP rr.
            c2 == Cpu { reg: with_popped(Registers { sp: w16(sp + 2), ..c.reg }, p, stack_word(m, sp)), ..c } && cycles == 12
        } else if p == 0 {
            c2 == ret && cycles == 16
        } else if p == 1 {
            // RETI.
            c2 == Cpu { ime: true, ..ret } && cycles == 16
        } else if p == 2 {
            // JP HL.
            c2 == Cpu { reg: Registers { pc: hl, ..c.reg }, ..c } && cycles == 4
        } else {
            // LD SP, HL.
            c2 == Cpu { reg: Registers { sp: hl, ..c.reg }, ..c } && cycles == 8
        }
    } else if x == 2 {
        if y < 4 {
            // JP cc, nn.
            m2 == m && if condition(c.reg, y) {
                c2 == Cpu { reg: Registers { pc: n16, ..c.reg }, ..c } && cycles == 16
            } else {
                c2 == c2a && cycles == 12
            }
        } else if y == 4 {
            // LD (0xFF00 + C), A.
            c2 == c && m.write_post((0xFF00 + c.reg.c) as u16, c.reg.a, m2) && cycles == 8
        } else if y == 5 {
            // LD (nn), A.
            c2 == c2a && m.write_post(n16, c.reg.a, m2) && cycles == 16
        } else if y == 6 {
            // LD A, (0xFF00 + C).
            c2 == Cpu { reg: Registers { a: m.read_spec((0xFF00 + c.reg.c) as u16), ..c.reg }, ..c } && m2 == m && cycles == 8
        } else {
            // LD A, (nn).
            c2 == Cpu { reg: Registers { a: m.read_spec(n16), ..c2a.reg }, ..c2a } && m2 == m && cycles == 16
        }
    } else if x == 3 {
        m2 == m && if y == 0 {
            // JP nn.
            c2 == Cpu { reg: Registers { pc: n16, ..c.reg }, ..c } && cycles == 16
        } else if y == 6 {
            // DI.
            c2 == Cpu { ime: false, ..c } && cycles == 4
        } else {
            // EI.
            c2 == Cpu { ime: true, ..c } && cycles == 4
        }
    } else if x == 4 || (x == 5 && y == 1) {
        // CALL cc, nn; CALL nn.
        if x == 5 || condition(c.reg, y) {
            &&& c2 == Cpu { reg: Registers { sp: w16(sp - 2), pc: n16, ..c.reg }, ..c }
            &&& pushed(m, sp, c2a.reg.pc, m2)
            &&& cycles == 24
        } else {
            c2 == c2a && m2 == m && cycles == 12
        }
    } else if x == 5 {
        // PUSH rr.
        c2 == Cpu { reg: Registers { sp: w16(sp - 2), ..c.reg }, ..c } && pushed(m, sp, push_operand(c.reg, p), m2)
            && cycles == 16
    } else if x == 6 {
        // ADD, ADC, SUB, SBC, AND, XOR, OR, CP with n.
        c2 == Cpu { reg: c1.alu_post(y, n8), ..c1 } && m2 == m && cycles == 8
    } else {
        // RST.
        &&& c2 == Cpu { reg: Registers { sp: w16(sp - 2), pc: (y * 8) as u16, ..c.reg }, ..c }
        &&& pushed(m, sp, c.reg.pc, m2)
        &&& cycles == 16
    }
}

impl Cpu {
    /// RET cc, LDH, ADD SP e, LD HL SP+e.
    #[verifier::rlimit(80)]
    fn exec_high_col0(&mut self, mmu: &mut Mmu, op: u8) -> (cycles: u32)
        requires
            old(mmu).wf(),
            old(self).reg.wf(),
            0xC0 <= op,
            op % 8 == 0,
        ensures
            final(mmu).wf(),
            final(self).reg.wf(),
            high_post(op, *old(self), *old(mmu), *final(self), *final(mmu), cycles),
    {
        let y = (op / 8) % 8;
        if y < 4 {
            if self.condition_holds(y) {
                self.reg.pc = self.pop(mmu);
                20
            } else {
                8
            }
        } else if y == 4 {
            let addr = 0xFF00 + self.readb(mmu) as u16;
            mmu.writeb(addr, self.reg.a);
            12
        } else if y == 5 {
            let delta = self.readb(mmu);
            self.reg.sp = self.add_sp(delta);
            proof {
                crate::registers::lemma_flag_byte_low_nibble(self.reg.f);
            }
            16
        } else if y == 6 {
            let addr = 0xFF00 + self.readb(mmu) as u16;
            self.reg.a = mmu.readb(addr);
            12
        } else {
            let delta = self.readb(mmu);
            let res = self.add_sp(delta);
            self.reg.set_hl(res);
            proof {
                crate::registers::lemma_flag_byte_low_nibble(self.reg.f);
            }
            12
        }
    }

    /// POP, RET, RETI, JP HL, LD SP HL.
    #[verifier::rlimit(80)]
    fn exec_high_col1(&mut self, mmu: &mut Mmu, op: u8) -> (cycles: u32)
        requires
            old(mmu).wf(),
            old(self).reg.wf(),
            0xC0 <= op,
            op % 8 == 1,
        ensures
            final(mmu).wf(),
            final(self).reg.wf(),
            high_post(op, *old(self), *old(mmu), *final(self), *final(mmu), cycles),
    {
        let y = (op / 8) % 8;
        let p = y / 2;
        if y % 2 == 0 {
            let w = self.pop(mmu);
            if p == 3 {
                self.reg.set_af(w);
            } else {
                self.write_pair(p, w);
            }
            12
        } else if p == 0 {
            self.reg.pc = self.pop(mmu);
            16
        } else if p == 1 {
            self.ime = true;
            self.reg.pc = self.pop(mmu);
            16
        } else if p == 2 {
            self.reg.pc = self.reg.hl();
            4
        } else {
            self.reg.sp = self.reg.hl();
            8
        }
    }

    /// JP cc, and loads of A through 0xFF00 + C or nn.
    #[verifier::rlimit(80)]
    fn exec_high_col2(&mut self, mmu: &mut Mmu, op: u8) -> (cycles: u32)
        requires
            old(mmu).wf(),
            old(self).reg.wf(),
            0xC0 <= op,
            op % 8 == 2,
        ensures
            final(mmu).wf(),
            final(self).reg.wf(),
            high_post(op, *old(self), *old(mmu), *final(self), *final(mmu), cycles),
    {
        let y = (op / 8) % 8;
        if y < 4 {
            let addr = self.readw(mmu);
            if self.condition_holds(y) {
                self.reg.pc = addr;
                16
            } else {
                12
            }
        } else if y == 4 {
            mmu.writeb(0xFF00 + self.reg.c as u16, self.reg.a);
            8
        } else if y == 5 {
            let addr = self.readw(mmu);
            mmu.writeb(addr, self.reg.a);
            16
        } else if y == 6 {
            self.reg.a = mmu.readb(0xFF00 + self.reg.c as u16);
            8
        } else {
            let addr = self.readw(mmu);
            self.reg.a = mmu.readb(addr);
            16
        }
    }

    /// CALL cc, CALL, PUSH.
    #[verifier::rlimit(80)]
    fn exec_high_call_push(&mut self, mmu: &mut Mmu, op: u8) -> (cycles: u32)
        requires
            old(mmu).wf(),
            old(self).reg.wf(),
            0xC0 <= op,
            op % 8 == 4 || op % 8 == 5,
            !is_undefined_opcode(op),
        ensures
            final(mmu).wf(),
            final(self).reg.wf(),
            high_post(op, *old(self), *old(mmu), *final(self), *final(mmu), cycles),
    {
        let y = (op / 8) % 8;
        if op % 8 == 5 && y % 2 == 0 {
            let value = if y / 2 == 3 { self.reg.af() } else { self.read_pair(y / 2) };
            self.push(mmu, value);
            16
        } else {
            let addr = self.readw(mmu);
            if op % 8 == 5 || self.condition_holds(y) {
                self.call(mmu, addr);
                24
            } else {
                12
            }
        }
    }

    /// Opcodes 0xC0-0xFF but 0xCB.
    #[verifier::rlimit(80)]
    fn exec_high(&mut self, mmu: &mut Mmu, op: u8) -> (cycles: u32)
        requires
            old(mmu).wf(),
            old(self).reg.wf(),
            0xC0 <= op,
            op != 0xCB,
            !is_undefined_opcode(op),
        ensures
            final(mmu).wf(),
            final(self).reg.wf(),
            high_post(op, *old(self), *old(mmu), *final(self), *final(mmu), cycles),
    {
        let x = op % 8;
        let y = (op / 8) % 8;
        if x == 0 {
            self.exec_high_col0(mmu, op)
        } else if x == 1 {
            self.exec_high_col1(mmu, op)
        } else if x == 2 {
            self.exec_high_col2(mmu, op)
        } else if x == 3 {
            if y == 0 {
                self.reg.pc = self.readw(mmu);
                16
            } else if y == 6 {
                self.ime = false;
                4
            } else {
                self.ime = true;
                4
            }
        } else if x == 4 || x == 5 {
            self.exec_high_call_push(mmu, op)
        } else if x == 6 {
            let v = self.readb(mmu);
            self.alu_op(y, v);
            8
        } else {
            self.call(mmu, y as u16 * 8);
            16
        }
    }
}


/// Effect of one call of `run_cycle` from CPU `c` and bus `m`.
pub open spec fn step_post(c: Cpu, m: Mmu, c2: Cpu, m2: Mmu, cycles: u32) -> bool {
    if c.halted {
        c2 == c && m2 == m && cycles == 4
    } else {
        let op = m.read_spec(c.reg.pc);
        let c1 = c.advanced(1);
        if op < 0x40 {
            low_post(op, c1, m, c2, m2, cycles)
        } else if op < 0x80 {
            load_post(op, c1, m, c2, m2, cycles)
        } else if op < 0xC0 {
            alu_block_post(op, c1, m, c2, m2, cycles)
        } else if op == 0xCB {
            prefixed_post(c1, m, c2, m2, cycles)
        } else {
            high_post(op, c1, m, c2, m2, cycles)
        }
    }
}

/// Whether interrupt `i` is both requested and enabled.
pub open spec fn both(req: u8, en: u8, i: int) -> bool {
    bit8(req, i as u8) && bit8(en, i as u8)
}

/// Number of interrupts below `n` that are requested and enabled.
pub open spec fn served_count(req: u8, en: u8, n: nat) -> nat
    decreases n,
{
    if n == 0 {
        0
    } else {
        served_count(req, en, (n - 1) as nat) + if both(req, en, n - 1) { 1nat } else { 0 }
    }
}

/// Routine address of interrupt `i`.
pub open spec fn vector(i: int) -> u16 {
    (0x40 + 8 * i) as u16
}

/// PC after serving, in order, the interrupts below `n` that are requested
/// and enabled, starting from `pc`.
pub open spec fn last_vector(req: u8, en: u8, n: nat, pc: u16) -> u16
    decreases n,
{
    if n == 0 {
        pc
    } else if both(req, en, n - 1) {
        vector(n - 1)
    } else {
        last_vector(req, en, (n - 1) as nat, pc)
    }
}

/// Lowest interrupt below `n` that is requested and enabled (5 if none).
pub open spec fn first_served(req: u8, en: u8, n: nat) -> u8
    decreases n,
{
    if n == 0 {
        5
    } else if first_served(req, en, (n - 1) as nat) < 5 {
        first_served(req, en, (n - 1) as nat)
    } else if both(req, en, n - 1) {
        (n - 1) as u8
    } else {
        5
    }
}

/// One step of serving interrupts: `c2`, `m2` are `c`, `m` once interrupt
/// `i` is served if it is requested in `req` and enabled in `en` (its
/// request cleared in IF, PC pushed, a jump to its routine), and as they
/// were otherwise.
pub open spec fn serve_step(req: u8, en: u8, i: int, c: Cpu, m: Mmu, c2: Cpu, m2: Mmu) -> bool {
    if both(req, en, i) {
        &&& c2 == Cpu { reg: Registers { sp: w16(c.reg.sp - 2), pc: vector(i), ..c.reg }, ..c }
        &&& pushed(Mmu { int_request: m.int_request & !(1u8 << (i as u8)), ..m }, c.reg.sp, c.reg.pc, m2)
    } else {
        c2 == c && m2 == m
    }
}

/// `cs`, `ms` list the states while interrupts 0-4 are served in turn.
pub open spec fn serve_trace(req: u8, en: u8, cs: Seq<Cpu>, ms: Seq<Mmu>) -> bool {
    &&& cs.len() == 6
    &&& ms.len() == 6
    &&& forall|i: int| 0 <= i < 5 ==> #[trigger] serve_step(req, en, i, cs[i], ms[i], cs[i + 1], ms[i + 1])
}

/// Effect of `check_interupts` from `c`, `m` to `c2`, `m2`.
pub open spec fn interrupts_post(c: Cpu, m: Mmu, c2: Cpu, m2: Mmu) -> bool {
    &&& ((!c.ime && !c.halted) || m.int_request & m.int_enabled == 0 ==> c2 == c && m2 == m)
    &&& ((c.ime || c.halted) && m.int_request & m.int_enabled != 0 ==> {
        let req = m.int_request;
        let en = m.int_enabled;
        let n = served_count(req, en, 5);
        &&& c2 == (Cpu {
            ime: false,
            halted: false,
            reg: Registers {
                pc: last_vector(req, en, 5, c.reg.pc),
                sp: w16(c.reg.sp - 2 * n),
                ..c.reg
            },
        })
        &&& exists|cs: Seq<Cpu>, ms: Seq<Mmu>|
            #[trigger] serve_trace(req, en, cs, ms) && cs[0] == Cpu { ime: false, halted: false, ..c }
                && ms[0] == m && cs[5] == c2 && ms[5] == m2
        &&& n == 0 ==> m2 == m
        &&& n == 1 ==> pushed(
            Mmu { int_request: req & !(1u8 << first_served(req, en, 5)), ..m },
            c.reg.sp,
            c.reg.pc,
            m2,
        )
    })
}

/// Reasons the CPU cannot go on.
#[derive(Clone, Copy, Debug, PartialEq, Eq, Structural)]
pub enum CpuError {
    /// The byte at `pc` is no instruction.
    UnknownOpcode { opcode: u8, pc: u16 },
}

/// CPU cycles per frame shown at 60 Hz.
pub const FRAME_CYLES: u32 = 69905;

proof fn lemma_w16_sub2(x: int)
    ensures
        w16(w16(x) - 2) == w16(x - 2),
{
}

impl Cpu {
    /// Runs one instruction and returns the cycles it took; a halted CPU
    /// does nothing for 4 cycles. EI takes effect at once, and HALT waits
    /// for an interrupt without the halt bug.
    #[verifier::rlimit(80)]
    pub fn run_cycle(&mut self, mmu: &mut Mmu) -> (cycles: u32)
        requires
            old(self).reg.wf(),
            old(mmu).wf(),
            old(self).halted || !is_undefined_opcode(old(mmu).read_spec(old(self).reg.pc)),
        ensures
            final(self).reg.wf(),
            final(mmu).wf(),
            step_post(*old(self), *old(mmu), *final(self), *final(mmu), cycles),
            4 <= cycles <= 24,
    {
        if self.halted {
            return 4;
        }
        let opcode = self.readb(mmu);
        if opcode < 0x40 {
            self.exec_low(mmu, opcode)
        } else if opcode < 0x80 {
            self.exec_load(mmu, opcode)
        } else if opcode < 0xC0 {
            self.exec_alu(mmu, opcode)
        } else if opcode == 0xCB {
            self.run_prefixed(mmu)
        } else {
            self.exec_high(mmu, opcode)
        }
    }

    /// Clears the request of interrupt `interupt` and calls its routine.
    fn execute_interupt(&mut self, interupt: u8, mmu: &mut Mmu)
        requires
            old(mmu).wf(),
            interupt < 5,
        ensures
            final(mmu).wf(),
            *final(self) == (Cpu { reg: Registers { sp: w16(old(self).reg.sp - 2), pc: vector(interupt as int), ..old(self).reg }, ..*old(self) }),
            pushed(Mmu { int_request: old(mmu).int_request & !(1u8 << interupt), ..*old(mmu) }, old(self).reg.sp, old(self).reg.pc, *final(mmu)),
    {
        mmu.int_request = mmu.int_request & !(1u8 << interupt);
        let routine = if interupt == V_BLANK_INTERUPT {
            V_BLANK_ROUTINE
        } else if interupt == LCD_INTERUPT {
            LCD_ROUTINE
        } else if interupt == TIMER_INTERUPT {
            TIMER_ROUTINE
        } else if interupt == SERIAL_INTERUPT {
            SERIAL_ROUTINE
        } else {
            JOYPAD_ROUTINE
        };
        self.call(mmu, routine);
    }

    /// Serves the pending interrupts: when IME is set or the CPU is halted
    /// and some interrupt is both requested and enabled, clears IME and the
    /// halt, then for each interrupt 0-4 requested and enabled, lowest first,
    /// clears its request and calls its routine.
    #[verifier::rlimit(100)]
    pub fn check_interupts(&mut self, mmu: &mut Mmu)
        requires
            old(mmu).wf(),
        ensures
            final(mmu).wf(),
            interrupts_post(*old(self), *old(mmu), *final(self), *final(mmu)),
    {
        if !self.ime && !self.halted {
            return;
        }
        let requested = mmu.int_request;
        let enabled = mmu.int_enabled;
        if requested & enabled == 0 {
            return;
        }
        self.ime = false;
        self.halted = false;
        let ghost c0 = *self;
        let ghost m0 = *mmu;
        let ghost mut cs: Seq<Cpu> = seq![c0];
        let ghost mut ms: Seq<Mmu> = seq![m0];
        let mut i: u8 = 0;
        while i < 5
            invariant
                i <= 5,
                mmu.wf(),
                cs.len() == i + 1,
                ms.len() == i + 1,
                cs[0] == c0,
                ms[0] == m0,
                cs[i as int] == *self,
                ms[i as int] == *mmu,
                forall|j: int| 0 <= j < i ==> #[trigger] serve_step(requested, enabled, j, cs[j], ms[j], cs[j + 1], ms[j + 1]),
                requested == m0.int_request,
                enabled == m0.int_enabled,
                *self == (Cpu {
                    reg: Registers {
                        pc: last_vector(requested, enabled, i as nat, c0.reg.pc),
                        sp: w16(c0.reg.sp - 2 * served_count(requested, enabled, i as nat)),
                        ..c0.reg
                    },
                    ..c0
                }),
                served_count(requested, enabled, i as nat) == 0 ==> *mmu == m0,
                served_count(requested, enabled, i as nat) == 0 ==> last_vector(requested, enabled, i as nat, c0.reg.pc)
                    == c0.reg.pc,
                served_count(requested, enabled, i as nat) == 0 ==> first_served(requested, enabled, i as nat) == 5,
                served_count(requested, enabled, i as nat) > 0 ==> first_served(requested, enabled, i as nat) < 5,
                served_count(requested, enabled, i as nat) == 1 ==> pushed(
                    Mmu { int_request: requested & !(1u8 << first_served(requested, enabled, i as nat)), ..m0 },
                    c0.reg.sp,
                    c0.reg.pc,
                    *mmu,
                ),
            decreases 5 - i,
        {
            if crate::utils::Bits::is_set(&requested, i) && crate::utils::Bits::is_set(&enabled, i) {
                proof {
                    lemma_w16_sub2(c0.reg.sp - 2 * served_count(requested, enabled, i as nat));
                }
                self.execute_interupt(i, mmu);
            }
            proof {
                cs = cs.push(*self);
                ms = ms.push(*mmu);
                assert(serve_step(requested, enabled, i as int, cs[i as int], ms[i as int], cs[i + 1], ms[i + 1]));
            }
            i += 1;
        }
        assert(serve_trace(requested, enabled, cs, ms));
    }
}

/// One turn of the main loop from `c`, `m` to `c2`, `m2`: an instruction
/// (not an unknown opcode) taking `cycles`, the peripherals advanced by
/// them, then the interrupts served.
#[verifier::opaque]
pub open spec fn main_step(c: Cpu, m: Mmu, c2: Cpu, m2: Mmu, cycles: u32) -> bool {
    &&& (c.halted || !is_undefined_opcode(m.read_spec(c.reg.pc)))
    &&& exists|c1: Cpu, m1: Mmu, m1b: Mmu|
        #![trigger step_post(c, m, c1, m1, cycles), m1.update_post(m1b, cycles)]
        step_post(c, m, c1, m1, cycles) && m1.wf() && m1.update_post(m1b, cycles) && interrupts_post(c1, m1b, c2, m2)
}

/// The turns of the main loop in `cs`, `ms`, with `ts[i]` the cycles run
/// before turn `i`: each turn starts below a frame's worth of cycles.
pub open spec fn frame_trace(cs: Seq<Cpu>, ms: Seq<Mmu>, ts: Seq<int>) -> bool {
    &&& cs.len() >= 1
    &&& ms.len() == cs.len()
    &&& ts.len() == cs.len()
    &&& ts[0] == 0
    &&& forall|i: int| 0 <= i < cs.len() - 1 ==> #[trigger] frame_turn(cs, ms, ts, i)
}

/// Turn `i` of a frame trace starts below a frame's worth of cycles and is
/// one turn of the main loop.
pub open spec fn frame_turn(cs: Seq<Cpu>, ms: Seq<Mmu>, ts: Seq<int>, i: int) -> bool {
    &&& ts[i] < FRAME_CYLES
    &&& 4 <= ts[i + 1] - ts[i] <= 24
    &&& main_step(cs[i], ms[i], cs[i + 1], ms[i + 1], (ts[i + 1] - ts[i]) as u32)
}

/// One turn of the main loop: an instruction, the peripherals advanced by
/// its cycles, then the interrupts served.
fn step(cpu: &mut Cpu, mmu: &mut Mmu) -> (cycles: u32)
    requires
        old(cpu).reg.wf(),
        old(mmu).wf(),
        old(cpu).halted || !is_undefined_opcode(old(mmu).read_spec(old(cpu).reg.pc)),
    ensures
        final(cpu).reg.wf(),
        final(mmu).wf(),
        4 <= cycles <= 24,
        main_step(*old(cpu), *old(mmu), *final(cpu), *final(mmu), cycles),
{
    let cpu_cycles = cpu.run_cycle(mmu);
    let ghost c1 = *cpu;
    let ghost m1 = *mmu;
    mmu.update(cpu_cycles);
    let ghost m1b = *mmu;
    cpu.check_interupts(mmu);
    assert(step_post(*old(cpu), *old(mmu), c1, m1, cpu_cycles) && m1.update_post(m1b, cpu_cycles));
    proof {
        reveal(main_step);
    }
    cpu_cycles
}

/// Runs instructions, advancing the peripherals and serving interrupts after
/// each, until a frame's worth of cycles has run; returns the cycles run.
/// Stops with an error before an opcode that is no instruction.
pub fn run_one_frame(cpu: &mut Cpu, mmu: &mut Mmu) -> (r: Result<u32, CpuError>)
    requires
        old(cpu).reg.wf(),
        old(mmu).wf(),
    ensures
        final(cpu).reg.wf(),
        final(mmu).wf(),
        r matches Ok(n) ==> FRAME_CYLES <= n < FRAME_CYLES + 24,
        exists|cs: Seq<Cpu>, ms: Seq<Mmu>, ts: Seq<int>|
            #[trigger] frame_trace(cs, ms, ts) && cs[0] == *old(cpu) && ms[0] == *old(mmu) && cs.last() == *final(cpu)
                && ms.last() == *final(mmu) && match r {
                Ok(n) => ts.last() == n,
                Err(_) => ts.last() < FRAME_CYLES,
            },
        r matches Err(CpuError::UnknownOpcode { opcode, pc }) ==> {
            &&& !final(cpu).halted
            &&& pc == final(cpu).reg.pc
            &&& opcode == final(mmu).read_spec(pc)
            &&& is_undefined_opcode(opcode)
        },
{
    let mut cycles: u32 = 0;
    let ghost mut cs: Seq<Cpu> = seq![*cpu];
    let ghost mut ms: Seq<Mmu> = seq![*mmu];
    let ghost mut ts: Seq<int> = seq![0int];
    while cycles < FRAME_CYLES
        invariant
            frame_trace(cs, ms, ts),
            cs[0] == *old(cpu),
            ms[0] == *old(mmu),
            cs.last() == *cpu,
            ms.last() == *mmu,
            ts.last() == cycles,
            cpu.reg.wf(),
            mmu.wf(),
            cycles < FRAME_CYLES + 24,
        decreases FRAME_CYLES + 24 - cycles,
    {
        if !cpu.halted {
            let opcode = mmu.readb(cpu.reg.pc);
            if is_unknown_opcode(opcode) {
                return Err(CpuError::UnknownOpcode { opcode, pc: cpu.reg.pc });
            }
        }
        let ghost before = cycles;
        let cpu_cycles = step(cpu, mmu);
        cycles += cpu_cycles;
        proof {
            let n = cs.len() as int;
            let (cs0, ms0, ts0) = (cs, ms, ts);
            cs = cs.push(*cpu);
            ms = ms.push(*mmu);
            ts = ts.push(cycles as int);
            assert forall|i: int| 0 <= i < cs.len() - 1 implies #[trigger] frame_turn(cs, ms, ts, i) by {
                if i < n - 1 {
                    assert(cs[i] == cs0[i] && cs[i + 1] == cs0[i + 1] && ms[i] == ms0[i] && ms[i + 1] == ms0[i + 1]
                        && ts[i] == ts0[i] && ts[i + 1] == ts0[i + 1]);
                    assert(frame_turn(cs0, ms0, ts0, i));
                } else {
                    assert(ts[i] == before);
                }
            }
            assert(ts[0] == ts0[0]);
            assert(cs[0] == cs0[0] && ms[0] == ms0[0]);
            assert(frame_trace(cs, ms, ts));
        }
    }
    Ok(cycles)
}


/// Work RAM and high RAM: plain bytes that read back what was written.
pub open spec fn is_ram_addr(a: u16) -> bool {
    (0xC000 <= a <= 0xDFFF) || (0xFF80 <= a <= 0xFFFE)
}

/// POP AF after PUSH AF, with the stack in RAM, restores A and F, the low
/// nibble of F cleared, and SP.
#[verifier::rlimit(80)]
pub proof fn lemma_push_pop_af(reg: Registers, m: Mmu, after: Mmu)
    requires
        m.wf(),
        is_ram_addr(w16(reg.sp - 1)),
        is_ram_addr(w16(reg.sp - 2)),
        pushed(m, reg.sp, reg.spec_af(), after),
    ensures
        with_popped(Registers { sp: w16(w16(reg.sp - 2) + 2), ..reg }, 3, stack_word(after, w16(reg.sp - 2)))
            == (Registers { f: (reg.f / 16 * 16) as u8, ..reg }),
{
    let mid = choose|mid: Mmu|
        mid.wf() && #[trigger] m.write_post(w16(reg.sp - 1), (reg.spec_af() / 256) as u8, mid) && mid.write_post(
            w16(reg.sp - 2),
            (reg.spec_af() % 256) as u8,
            after,
        );
    assert(w16(w16(reg.sp - 2) + 1) == w16(reg.sp - 1));
    assert(after.read_spec(w16(reg.sp - 2)) == reg.f);
    assert(after.read_spec(w16(reg.sp - 1)) == reg.a);
}


/// POP AF run after PUSH AF, the stack in RAM and left alone in between,
/// restores A, F without its low nibble, and SP, in 12 cycles.
#[verifier::rlimit(80)]
pub proof fn lemma_run_push_then_pop_af(c0: Cpu, m0: Mmu, c1: Cpu, m1: Mmu, k1: u32, c2: Cpu, m2: Mmu, k2: u32)
    requires
        c0.reg.wf(),
        m0.wf(),
        !c0.halted,
        m0.read_spec(c0.reg.pc) == 0xF5,
        is_ram_addr(w16(c0.reg.sp - 1)),
        is_ram_addr(w16(c0.reg.sp - 2)),
        step_post(c0, m0, c1, m1, k1),
        m1.read_spec(c1.reg.pc) == 0xF1,
        step_post(c1, m1, c2, m2, k2),
    ensures
        c2.reg.a == c0.reg.a,
        c2.reg.f == c0.reg.f / 16 * 16,
        c2.reg.spec_af() == c0.reg.spec_af() / 16 * 16,
        c2.reg.sp == c0.reg.sp,
        k1 == 16,
        k2 == 12,
{
    let cp = c0.advanced(1);
    assert(c1 == Cpu { reg: Registers { sp: w16(c0.reg.sp - 2), ..cp.reg }, ..cp });
    assert(pushed(m0, c0.reg.sp, c0.reg.spec_af(), m1));
    lemma_push_pop_af(c0.reg, m0, m1);
    assert(w16(w16(c0.reg.sp - 2) + 2) == c0.reg.sp);
}

} // verus!
