//! Interrupt-enable register of the position decoder, in the reader/writer
//! style of the generated register API: a reader exposes one proxy per
//! field, a writer is threaded through per-field proxies that set or clear
//! the field's bit.

use vstd::prelude::*;

use crate::dmac_regs::{get_bit8, spec_bit8, spec_with_bit8, with_bit8};

verus! {

/// Register layout marker for the interrupt-enable-set register.
pub struct IntensetSpec;

/// Proxy for one read field: the sampled bit.
#[derive(Clone, Copy, Debug, PartialEq, Eq, Structural)]
pub struct BitReader {
    /// The sampled bit.
    pub value: bool,
}

impl BitReader {
    /// The field's raw bit.
    pub fn bit(&self) -> (r: bool)
        ensures
            r == self.value,
    {
        self.value
    }

    /// Whether the field's bit is set.
    pub fn bit_is_set(&self) -> (r: bool)
        ensures
            r == self.value,
    {
        self.value
    }

    /// Whether the field's bit is clear.
    pub fn bit_is_clear(&self) -> (r: bool)
        ensures
            r == !self.value,
    {
        !self.value
    }
}

/// Reader of the interrupt-enable-set register.
#[derive(Clone, Copy, Debug, PartialEq, Eq, Structural)]
pub struct R {
    /// The sampled register value.
    pub bits: u8,
}

impl R {
    /// Overflow/underflow interrupt enable.
    pub fn ovf(&self) -> (r: BitReader)
        ensures
            r.value == spec_bit8(self.bits, 0),
    {
        BitReader { value: get_bit8(self.bits, 0) }
    }

    /// Error interrupt enable.
    pub fn err(&self) -> (r: BitReader)
        ensures
            r.value == spec_bit8(self.bits, 1),
    {
        BitReader { value: get_bit8(self.bits, 1) }
    }

    /// Direction interrupt enable.
    pub fn dir(&self) -> (r: BitReader)
        ensures
            r.value == spec_bit8(self.bits, 2),
    {
        BitReader { value: get_bit8(self.bits, 2) }
    }

    /// Velocity interrupt enable.
    pub fn vlc(&self) -> (r: BitReader)
        ensures
            r.value == spec_bit8(self.bits, 3),
    {
        BitReader { value: get_bit8(self.bits, 3) }
    }

    /// Channel 0 compare match enable.
    pub fn mc0(&self) -> (r: BitReader)
        ensures
            r.value == spec_bit8(self.bits, 4),
    {
        BitReader { value: get_bit8(self.bits, 4) }
    }

    /// Channel 1 compare match enable.
    pub fn mc1(&self) -> (r: BitReader)
        ensures
            r.value == spec_bit8(self.bits, 5),
    {
        BitReader { value: get_bit8(self.bits, 5) }
    }
}

/// Proxy for one write field: holds the value under construction and the
/// field's bit position.
#[derive(Clone, Copy, Debug, PartialEq, Eq, Structural)]
pub struct BitWriter {
    /// The value under construction.
    pub bits: u8,
    /// The field's bit position.
    pub pos: u8,
}

impl BitWriter {
    /// Set the field's bit and hand the writer back.
    pub fn set_bit(self) -> (r: W)
        requires
            self.pos < 8,
        ensures
            r.bits == spec_with_bit8(self.bits, self.pos, true),
    {
        W { bits: with_bit8(self.bits, self.pos, true) }
    }

    /// Clear the field's bit and hand the writer back.
    pub fn clear_bit(self) -> (r: W)
        requires
            self.pos < 8,
        ensures
            r.bits == spec_with_bit8(self.bits, self.pos, false),
    {
        W { bits: with_bit8(self.bits, self.pos, false) }
    }

    /// Force the field's bit to `v` and hand the writer back.
    pub fn bit(self, v: bool) -> (r: W)
        requires
            self.pos < 8,
        ensures
            r.bits == spec_with_bit8(self.bits, self.pos, v),
    {
        W { bits: with_bit8(self.bits, self.pos, v) }
    }
}

/// Writer of the interrupt-enable-set register.
#[derive(Clone, Copy, Debug, PartialEq, Eq, Structural)]
pub struct W {
    /// The value under construction.
    pub bits: u8,
}

impl W {
    /// Overflow/underflow interrupt enable.
    pub fn ovf(self) -> (r: BitWriter)
        ensures
            r.bits == self.bits,
            r.pos == 0,
    {
        BitWriter { bits: self.bits, pos: 0 }
    }

    /// Error interrupt enable.
    pub fn err(self) -> (r: BitWriter)
        ensures
            r.bits == self.bits,
            r.pos == 1,
    {
        BitWriter { bits: self.bits, pos: 1 }
    }

    /// Direction interrupt enable.
    pub fn dir(self) -> (r: BitWriter)
        ensures
            r.bits == self.bits,
            r.pos == 2,
    {
        BitWriter { bits: self.bits, pos: 2 }
    }

    /// Velocity interrupt enable.
    pub fn vlc(self) -> (r: BitWriter)
        ensures
            r.bits == self.bits,
            r.pos == 3,
    {
        BitWriter { bits: self.bits, pos: 3 }
    }

    /// Channel 0 compare match enable.
    pub fn mc0(self) -> (r: BitWriter)
        ensures
            r.bits == self.bits,
            r.pos == 4,
    {
        BitWriter { bits: self.bits, pos: 4 }
    }

    /// Channel 1 compare match enable.
    pub fn mc1(self) -> (r: BitWriter)
        ensures
            r.bits == self.bits,
            r.pos == 5,
    {
        BitWriter { bits: self.bits, pos: 5 }
    }
}

} // verus!
