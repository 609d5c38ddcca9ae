//! Debug-control register of the cipher engine, in the reader/writer style
//! of the generated register API.

use vstd::prelude::*;

use crate::dmac_regs::{get_bit8, spec_bit8, spec_with_bit8, with_bit8};
use crate::pdec::BitReader;

verus! {

/// Register layout marker for the debug-control register.
pub struct DbgctrlSpec;

/// Reader of the debug-control register.
#[derive(Clone, Copy, Debug, PartialEq, Eq, Structural)]
pub struct R {
    /// The sampled register value.
    pub bits: u8,
}

impl R {
    /// Whether the engine keeps running while the core is halted for
    /// debugging.
    pub fn dbgrun(&self) -> (r: BitReader)
        ensures
            r.value == spec_bit8(self.bits, 0),
    {
        BitReader { value: get_bit8(self.bits, 0) }
    }
}

/// Proxy for the debug-run write field.
#[derive(Clone, Copy, Debug, PartialEq, Eq, Structural)]
pub struct DbgrunW {
    /// The value under construction.
    pub bits: u8,
}

impl DbgrunW {
    /// Set the field's bit and hand the writer back.
    pub fn set_bit(self) -> (r: W)
        ensures
            r.bits == spec_with_bit8(self.bits, 0, true),
    {
        W { bits: with_bit8(self.bits, 0, true) }
    }

    /// Clear the field's bit and hand the writer back.
    pub fn clear_bit(self) -> (r: W)
        ensures
            r.bits == spec_with_bit8(self.bits, 0, false),
    {
        W { bits: with_bit8(self.bits, 0, false) }
    }

    /// Force the field's bit to `v` and hand the writer back.
    pub fn bit(self, v: bool) -> (r: W)
        ensures
            r.bits == spec_with_bit8(self.bits, 0, v),
    {
        W { bits: with_bit8(self.bits, 0, v) }
    }
}

/// Writer of the debug-control register.
#[derive(Clone, Copy, Debug, PartialEq, Eq, Structural)]
pub struct W {
    /// The value under construction.
    pub bits: u8,
}

impl W {
    /// Whether the engine keeps running while the core is halted for
    /// debugging.
    pub fn dbgrun(self) -> (r: DbgrunW)
        ensures
            r.bits == self.bits,
    {
        DbgrunW { bits: self.bits }
    }
}

} // verus!
