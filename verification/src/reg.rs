//! The bit fields of the UART registers.

use vstd::prelude::*;

verus! {

/// `register` with the bits of `mask` replaced by those of `field`.
pub open spec fn with_field(register: u8, mask: u8, field: u8) -> u8 {
    (register & !mask) | (field & mask)
}

/// Setting a field leaves every bit outside it as it was, and puts exactly the
/// field's bits of the new value inside it.
pub proof fn lemma_with_field(register: u8, mask: u8, field: u8)
    ensures
        with_field(register, mask, field) & !mask == register & !mask,
        with_field(register, mask, field) & mask == field & mask,
{
    assert(((register & !mask) | (field & mask)) & !mask == register & !mask) by (bit_vector);
    assert(((register & !mask) | (field & mask)) & mask == field & mask) by (bit_vector);
}

/// Bit of the receiver enable field.
pub const FIELD_RE: u8 = 0x04;

/// Bit of the transmitter enable field.
pub const FIELD_TE: u8 = 0x08;

/// Bits of the baud rate field.
pub const FIELD_SBR: u8 = 0x1F;

/// Bit of the mode field.
pub const FIELD_M: u8 = 0x10;

/// Bit of the parity enable field.
pub const FIELD_PE: u8 = 0x02;

/// Bit of the flag that says that the transmit data register is empty.
pub const FLAG_TDRE: u8 = 0x80;

/// Bit of the flag that says that the receive data register is full.
pub const FLAG_RDRF: u8 = 0x20;

/// A register value whose UART fields can be set and read.
pub trait RegisterValue: Copy + Clone {
    /// The eight bits of the register.
    spec fn bits(&self) -> u8;

    /// Sets the receiver enable bit to the low bit of `value`.
    fn set_re(&mut self, value: u8) -> (register: &mut Self)
        ensures
            register.bits() == with_field(old(self).bits(), FIELD_RE, ((value & 0x01) << 2) as u8),
            *final(self) == *final(register),
    ;

    /// Sets the transmitter enable bit to the low bit of `value`.
    fn set_te(&mut self, value: u8) -> (register: &mut Self)
        ensures
            register.bits() == with_field(old(self).bits(), FIELD_TE, ((value & 0x01) << 3) as u8),
            *final(self) == *final(register),
    ;

    /// Sets the baud rate field to the low five bits of `value`.
    fn set_sbr(&mut self, value: u8) -> (register: &mut Self)
        ensures
            register.bits() == with_field(old(self).bits(), FIELD_SBR, value),
            *final(self) == *final(register),
    ;

    /// Sets the mode bit to the low bit of `value`.
    fn set_m(&mut self, value: u8) -> (register: &mut Self)
        ensures
            register.bits() == with_field(old(self).bits(), FIELD_M, ((value & 0x01) << 4) as u8),
            *final(self) == *final(register),
    ;

    /// Sets the parity enable bit to the low bit of `value`.
    fn set_pe(&mut self, value: u8) -> (register: &mut Self)
        ensures
            register.bits() == with_field(old(self).bits(), FIELD_PE, ((value & 0x01) << 1) as u8),
            *final(self) == *final(register),
    ;

    /// Replaces the whole register by `value`.
    fn set_data(&mut self, value: u8) -> (register: &mut Self)
        ensures
            register.bits() == value,
            *final(self) == *final(register),
    ;

    /// Tells whether the transmit data register is empty.
    fn tdre(&self) -> (empty: bool)
        ensures
            empty == (self.bits() & FLAG_TDRE != 0),
    ;

    /// Tells whether the receive data register is full.
    fn rdrf(&self) -> (full: bool)
        ensures
            full == (self.bits() & FLAG_RDRF != 0),
    ;

    /// The whole register.
    fn data(&self) -> (value: u8)
        ensures
            value == self.bits(),
    ;
}

impl RegisterValue for u8 {
    open spec fn bits(&self) -> u8 {
        *self
    }

    fn set_re(&mut self, value: u8) -> (register: &mut Self) {
        let field: u8 = (value & 0x01) << 2;
        assert(((value & 0x01) << 2) & 0x04 == (value & 0x01) << 2) by (bit_vector);
        *self = (*self & !FIELD_RE) | field;
        self
    }

    fn set_te(&mut self, value: u8) -> (register: &mut Self) {
        let field: u8 = (value & 0x01) << 3;
        assert(((value & 0x01) << 3) & 0x08 == (value & 0x01) << 3) by (bit_vector);
        *self = (*self & !FIELD_TE) | field;
        self
    }

    fn set_sbr(&mut self, value: u8) -> (register: &mut Self) {
        *self = (*self & !FIELD_SBR) | (value & FIELD_SBR);
        self
    }

    fn set_m(&mut self, value: u8) -> (register: &mut Self) {
        let field: u8 = (value & 0x01) << 4;
        assert(((value & 0x01) << 4) & 0x10 == (value & 0x01) << 4) by (bit_vector);
        *self = (*self & !FIELD_M) | field;
        self
    }

    fn set_pe(&mut self, value: u8) -> (register: &mut Self) {
        let field: u8 = (value & 0x01) << 1;
        assert(((value & 0x01) << 1) & 0x02 == (value & 0x01) << 1) by (bit_vector);
        *self = (*self & !FIELD_PE) | field;
        self
    }

    fn set_data(&mut self, value: u8) -> (register: &mut Self) {
        *self = value;
        self
    }

    fn tdre(&self) -> (empty: bool) {
        (*self & FLAG_TDRE) != 0
    }

    fn rdrf(&self) -> (full: bool) {
        (*self & FLAG_RDRF) != 0
    }

    fn data(&self) -> (value: u8) {
        *self
    }
}

} // verus!
