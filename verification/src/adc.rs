//! The analog-to-digital converter and its asynchronous conversion.
//!
//! A conversion is armed by a software trigger; the result-ready
//! interrupt wakes the converter's waker slot, and the resumed operation
//! reads the converted value from the result register. An overrun — a
//! new result arriving before the previous one was read — is surfaced to
//! the caller as a typed error, never retried internally.

use vstd::prelude::*;

use crate::dmac_regs::{get_bit8, spec_bit8, spec_with_bit8, with_bit8};
use crate::interrupts::{Binding, InterruptId, Nvic};
use crate::waker::{spec_check, spec_register_transition, WakerSlot};

verus! {

/// Handler identity of the converter's interrupt handler, as recorded in
/// a [`Binding`].
pub const ADC_HANDLER: u64 = 5;

/// Interrupt flag: a conversion result is ready.
pub const FLAG_RESRDY: u8 = 0x01;

/// Interrupt flag: a result was overwritten before it was read.
pub const FLAG_OVERRUN: u8 = 0x02;

/// The converter's registers.
#[derive(Clone, Copy, Debug, PartialEq, Eq, Structural)]
pub struct AdcRegs {
    /// Control: software reset (bit 0), enable (bit 1).
    pub ctrla: u8,
    /// Input selection.
    pub inputctrl: u16,
    /// Software trigger: start conversion (bit 1).
    pub swtrig: u8,
    /// Interrupt enable: result ready (bit 0), overrun (bit 1).
    pub intenset: u8,
    /// Interrupt flags: result ready (bit 0), overrun (bit 1).
    pub intflag: u8,
    /// The last conversion's result.
    pub result: u16,
}

impl AdcRegs {
    /// Registers at their reset values.
    pub fn new() -> (r: AdcRegs)
        ensures
            r == (AdcRegs {
                ctrla: 0u8,
                inputctrl: 0u16,
                swtrig: 0u8,
                intenset: 0u8,
                intflag: 0u8,
                result: 0u16,
            }),
    {
        AdcRegs { ctrla: 0, inputctrl: 0, swtrig: 0, intenset: 0, intflag: 0, result: 0 }
    }
}

/// A typed conversion failure.
#[derive(Clone, Copy, Debug, PartialEq, Eq, Structural)]
pub enum Error {
    /// A result was overwritten before it was read.
    Overrun,
}

/// An enabled analog-to-digital converter.
pub struct Adc {
    /// The converter's registers.
    pub regs: AdcRegs,
}

impl Adc {
    /// Take ownership of a converter and enable it.
    pub fn new(regs: AdcRegs) -> (r: Adc)
        ensures
            r.regs == (AdcRegs { ctrla: spec_with_bit8(regs.ctrla, 1, true), ..regs }),
    {
        let mut regs = regs;
        regs.ctrla = with_bit8(regs.ctrla, 1, true);
        Adc { regs }
    }

    /// The harness's side of the converter: a conversion finishes with
    /// `value`; if the previous result is still unread, the overrun flag
    /// rises with it.
    pub fn hw_conversion_done(&mut self, value: u16)
        ensures
            final(self).regs.result == value,
            final(self).regs.intflag == (if spec_bit8(old(self).regs.intflag, 0) {
                spec_with_bit8(spec_with_bit8(old(self).regs.intflag, 0, true), 1, true)
            } else {
                spec_with_bit8(old(self).regs.intflag, 0, true)
            }),
            final(self).regs == (AdcRegs {
                result: final(self).regs.result,
                intflag: final(self).regs.intflag,
                swtrig: 0u8,
                ..old(self).regs
            }),
    {
        if get_bit8(self.regs.intflag, 0) {
            self.regs.intflag = with_bit8(with_bit8(self.regs.intflag, 0, true), 1, true);
        } else {
            self.regs.intflag = with_bit8(self.regs.intflag, 0, true);
        }
        self.regs.result = value;
        self.regs.swtrig = 0;
    }

    /// Upgrade the converter for asynchronous use. Demands the
    /// [`Binding`] certificate wiring the converter's handler to its
    /// vector, and unmasks it.
    pub fn into_future(self, binding: Binding, nvic: &mut Nvic) -> (r: AdcFuture)
        requires
            old(nvic).wf(),
            binding.spec_vectors() == seq![InterruptId::Adc],
            binding.spec_handler() == ADC_HANDLER,
        ensures
            final(nvic).wf(),
            crate::interrupts::spec_enable_effect(
                *old(nvic),
                *final(nvic),
                seq![InterruptId::Adc],
            ),
            r.adc == self,
            !r.slot.spec_ready(),
    {
        let mut vecs: Vec<InterruptId> = Vec::new();
        vecs.push(InterruptId::Adc);
        proof {
            assert(vecs@ == seq![InterruptId::Adc]);
        }
        crate::interrupts::apply_enable(nvic, &vecs);
        AdcFuture { adc: self, slot: WakerSlot::new() }
    }
}

/// A converter with an asynchronous conversion: the converter plus the
/// waker slot its result-ready interrupt wakes.
pub struct AdcFuture {
    /// The enabled converter.
    pub adc: Adc,
    /// The converter's suspension record.
    pub slot: WakerSlot,
}

impl AdcFuture {
    /// Arm one conversion of the given input: select it, clear any stale
    /// readiness and flags, enable the result-ready and overrun
    /// interrupts, and issue the software trigger.
    pub fn start_conversion(&mut self, input: u16)
        ensures
            final(self).adc.regs == (AdcRegs {
                inputctrl: input,
                swtrig: 0x02u8,
                intenset: 0x03u8,
                intflag: 0u8,
                ..old(self).adc.regs
            }),
            !final(self).slot.spec_ready(),
    {
        self.adc.regs.inputctrl = input;
        self.adc.regs.intflag = 0;
        self.adc.regs.intenset = 0x03;
        self.slot.clear();
        self.adc.regs.swtrig = 0x02;
    }

    /// The converter's interrupt handler: if the result-ready flag is
    /// raised, claim it — leaving the overrun flag for the resumed
    /// operation to inspect — and wake the slot. A spurious invocation
    /// changes nothing.
    pub fn on_interrupt(&mut self)
        ensures
            spec_bit8(old(self).adc.regs.intflag, 0) ==> {
                &&& final(self).adc.regs == (AdcRegs {
                    intflag: spec_with_bit8(old(self).adc.regs.intflag, 0, false),
                    ..old(self).adc.regs
                })
                &&& final(self).slot.spec_ready()
            },
            !spec_bit8(old(self).adc.regs.intflag, 0) ==> *final(self) == *old(self),
    {
        if get_bit8(self.adc.regs.intflag, 0) {
            self.adc.regs.intflag = with_bit8(self.adc.regs.intflag, 0, false);
            self.slot.wake();
        }
    }

    /// One poll of the suspended conversion: register the caller's
    /// continuation, then re-check — and consume — the slot's readiness,
    /// so a result that arrived at any point before the check is
    /// observed, never lost.
    pub fn poll_conversion(&mut self, w: &core::task::Waker) -> (r: bool)
        ensures
            r == spec_check(spec_register_transition(old(self).slot.spec_ready())).0,
            !final(self).slot.spec_ready(),
            final(self).adc == old(self).adc,
    {
        self.slot.register(w);
        self.slot.ready()
    }

    /// Resume after the result-ready signal: read the converted value,
    /// unless an overrun is recorded — then clear the overrun and
    /// surface it, leaving the caller to decide whether to convert
    /// again.
    pub fn read_result(&mut self) -> (r: Result<u16, Error>)
        ensures
            spec_bit8(old(self).adc.regs.intflag, 1) ==> {
                &&& r == Result::<u16, Error>::Err(Error::Overrun)
                &&& final(self).adc.regs == (AdcRegs {
                    intflag: spec_with_bit8(old(self).adc.regs.intflag, 1, false),
                    ..old(self).adc.regs
                })
            },
            !spec_bit8(old(self).adc.regs.intflag, 1) ==> {
                &&& r == Result::<u16, Error>::Ok(old(self).adc.regs.result)
                &&& *final(self) == *old(self)
            },
    {
        if get_bit8(self.adc.regs.intflag, 1) {
            self.adc.regs.intflag = with_bit8(self.adc.regs.intflag, 1, false);
            Err(Error::Overrun)
        } else {
            Ok(self.adc.regs.result)
        }
    }
}

} // verus!
