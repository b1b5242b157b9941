use vstd::prelude::*;

verus! {

/// Bit queries and updates on unsigned integers.
pub trait Bits: Sized {
    /// Number of bits in the type.
    spec fn width() -> nat;

    /// Whether bit `index` of the value is one.
    spec fn bit(&self, index: u8) -> bool;

    /// Returns true if bit at index is set.
    fn is_set(&self, index: u8) -> (r: bool)
        requires
            (index as nat) < Self::width(),
        ensures
            r == self.bit(index),
    ;

    /// Returns 1 if bit at index is set, 0 otherwise.
    fn get_bit(&self, index: u8) -> (r: u8)
        requires
            (index as nat) < Self::width(),
        ensures
            r == (if self.bit(index) { 1u8 } else { 0u8 }),
    ;

    /// Returns true if bit at index is clear.
    fn is_unset(&self, index: u8) -> (r: bool)
        requires
            (index as nat) < Self::width(),
        ensures
            r == !self.bit(index),
    ;

    /// The value with bit `index` set to one.
    fn set_bit(&self, index: u8) -> (r: Self)
        requires
            (index as nat) < Self::width(),
        ensures
            forall|i: u8| (i as nat) < Self::width() ==> r.bit(i) == (i == index || self.bit(i)),
    ;

    /// The value with bit `index` set to zero.
    fn unset_bit(&self, index: u8) -> (r: Self)
        requires
            (index as nat) < Self::width(),
        ensures
            forall|i: u8| (i as nat) < Self::width() ==> r.bit(i) == (i != index && self.bit(i)),
    ;
}

/// Bit `index` of an 8-bit value.
pub open spec fn bit8(v: u8, index: u8) -> bool {
    (v >> index) & 1 == 1
}

/// Bit `index` of a 16-bit value.
pub open spec fn bit16(v: u16, index: u8) -> bool {
    (v >> index) & 1 == 1
}

impl Bits for u8 {
    open spec fn width() -> nat {
        8
    }

    open spec fn bit(&self, index: u8) -> bool {
        bit8(*self, index)
    }

    fn is_set(&self, index: u8) -> (r: bool) {
        let v = *self;
        assert(index < 8 ==> ((v & (1u8 << index) != 0) == ((v >> index) & 1 == 1))) by (bit_vector);
        v & (1u8 << index) != 0
    }

    fn get_bit(&self, index: u8) -> (r: u8) {
        if self.is_set(index) {
            1
        } else {
            0
        }
    }

    fn is_unset(&self, index: u8) -> (r: bool) {
        !self.is_set(index)
    }

    fn set_bit(&self, index: u8) -> (r: u8) {
        let v = *self;
        let r = v | (1u8 << index);
        assert(forall|i: u8|
            index < 8 && i < 8 ==> (((r >> i) & 1 == 1) == (i == index || (v >> i) & 1 == 1)))
            by (bit_vector)
            requires
                r == v | (1u8 << index),
        ;
        r
    }

    fn unset_bit(&self, index: u8) -> (r: u8) {
        let v = *self;
        let r = v & !(1u8 << index);
        assert(forall|i: u8|
            index < 8 && i < 8 ==> (((r >> i) & 1 == 1) == (i != index && (v >> i) & 1 == 1)))
            by (bit_vector)
            requires
                r == v & !(1u8 << index),
        ;
        r
    }
}

impl Bits for u16 {
    open spec fn width() -> nat {
        16
    }

    open spec fn bit(&self, index: u8) -> bool {
        bit16(*self, index)
    }

    fn is_set(&self, index: u8) -> (r: bool) {
        let v = *self;
        assert(index < 16 ==> ((v & (1u16 << index) != 0) == ((v >> index) & 1 == 1)))
            by (bit_vector);
        v & (1u16 << index) != 0
    }

    fn get_bit(&self, index: u8) -> (r: u8) {
        if self.is_set(index) {
            1
        } else {
            0
        }
    }

    fn is_unset(&self, index: u8) -> (r: bool) {
        !self.is_set(index)
    }

    fn set_bit(&self, index: u8) -> (r: u16) {
        let v = *self;
        let r = v | (1u16 << index);
        assert(forall|i: u8|
            index < 16 && i < 16 ==> (((r >> i) & 1 == 1) == (i == index || (v >> i) & 1 == 1)))
            by (bit_vector)
            requires
                r == v | (1u16 << index),
        ;
        r
    }

    fn unset_bit(&self, index: u8) -> (r: u16) {
        let v = *self;
        let r = v & !(1u16 << index);
        assert(forall|i: u8|
            index < 16 && i < 16 ==> (((r >> i) & 1 == 1) == (i != index && (v >> i) & 1 == 1)))
            by (bit_vector)
            requires
                r == v & !(1u16 << index),
        ;
        r
    }
}

/// Builds a 16-bit word from its high and low bytes.
pub fn to_u16(msb: u8, lsb: u8) -> (r: u16)
    ensures
        r == msb as u16 * 256 + lsb as u16,
{
    msb as u16 * 256 + lsb as u16
}

/// Splits a 16-bit word into its (high, low) bytes.
pub fn to_u8(value: u16) -> (r: (u8, u8))
    ensures
        r.0 == value / 256,
        r.1 == value % 256,
{
    ((value / 256) as u8, (value % 256) as u8)
}

} // verus!

