//! The external interrupt controller: one numbered interrupt line per
//! configured pin, with edge/level sensing, and the suspension record
//! that bridges a line's interrupt to a suspended wait.

use vstd::prelude::*;

use crate::dmac_regs::{get_bit32, spec_bit32, spec_with_bit32, with_bit32};
use crate::waker::{spec_check, spec_register_transition, WakerSlot};

verus! {

/// Number of external interrupt lines.
pub const NUM_EXTINT: usize = 16;

/// Identifier of an external interrupt line.
pub type ExternalInterruptID = usize;

/// What condition on the pin raises the line's interrupt.
#[derive(Clone, Copy, Debug, PartialEq, Eq, Structural)]
pub enum Sense {
    /// No detection.
    None_,
    /// Rising edge.
    Rise,
    /// Falling edge.
    Fall,
    /// Both edges.
    Both,
    /// High level.
    High,
    /// Low level.
    Low,
}

impl Sense {
    /// The sense field encoding.
    pub open spec fn spec_bits(self) -> u8 {
        match self {
            Sense::None_ => 0,
            Sense::Rise => 1,
            Sense::Fall => 2,
            Sense::Both => 3,
            Sense::High => 4,
            Sense::Low => 5,
        }
    }

    /// The sense field encoding.
    pub fn bits(self) -> (r: u8)
        ensures
            r == self.spec_bits(),
    {
        match self {
            Sense::None_ => 0,
            Sense::Rise => 1,
            Sense::Fall => 2,
            Sense::Both => 3,
            Sense::High => 4,
            Sense::Low => 5,
        }
    }
}

/// The external interrupt controller's registers: one bit per line in the
/// interrupt-enable, flag, wake-up and event banks, and one sense code
/// per line.
pub struct EicRegs {
    /// Interrupt enable, one bit per line.
    pub intenset: u32,
    /// Interrupt flags, one bit per line.
    pub intflag: u32,
    /// Wake-up enable, one bit per line.
    pub wakeup: u32,
    /// Event output enable, one bit per line.
    pub evctrl: u32,
    /// Sense configuration, one code per line.
    pub sense: Vec<u8>,
}

impl EicRegs {
    /// One sense slot per line.
    pub open spec fn wf(self) -> bool {
        self.sense@.len() == NUM_EXTINT
    }

    /// Controller at reset: nothing enabled, nothing pending, no sensing.
    pub fn new() -> (r: EicRegs)
        ensures
            r.wf(),
            r.intenset == 0,
            r.intflag == 0,
            r.wakeup == 0,
            r.evctrl == 0,
            forall|i: int| 0 <= i < NUM_EXTINT ==> r.sense@[i] == 0,
    {
        let mut sense: Vec<u8> = Vec::new();
        let mut i: usize = 0;
        while i < NUM_EXTINT
            invariant
                i <= NUM_EXTINT,
                sense.len() == i,
                forall|j: int| 0 <= j < i ==> sense@[j] == 0,
            decreases NUM_EXTINT - i,
        {
            sense.push(0);
            i = i + 1;
        }
        EicRegs { intenset: 0, intflag: 0, wakeup: 0, evctrl: 0, sense }
    }

    /// The harness's side of the pin: the sensed condition occurs and the
    /// line's flag rises.
    pub fn hw_raise(&mut self, line: usize)
        requires
            line < NUM_EXTINT,
        ensures
            final(self).intflag == spec_with_bit32(old(self).intflag, line as u32, true),
            final(self).intenset == old(self).intenset,
            final(self).wakeup == old(self).wakeup,
            final(self).evctrl == old(self).evctrl,
            final(self).sense == old(self).sense,
    {
        self.intflag = with_bit32(self.intflag, line as u32, true);
    }
}

/// Something with an external interrupt line number.
pub trait ExternalInterrupt {
    /// The line this value is wired to.
    fn id(&self) -> ExternalInterruptID;
}

/// One numbered external interrupt line, bound to an already-configured
/// pin.
pub struct ExtInt {
    /// The line number.
    pub line: u8,
}

impl ExternalInterrupt for ExtInt {
    fn id(&self) -> ExternalInterruptID {
        (self.line % 16) as usize
    }
}

impl ExtInt {
    /// The line number, reduced to the controller's range.
    pub open spec fn spec_line(self) -> u32 {
        (self.line % 16) as u32
    }

    /// Enable the line's interrupt.
    pub fn enable_interrupt(&mut self, eic: &mut EicRegs)
        ensures
            *final(self) == *old(self),
            final(eic).intenset == spec_with_bit32(old(eic).intenset, old(self).spec_line(), true),
            final(eic).intflag == old(eic).intflag,
            final(eic).wakeup == old(eic).wakeup,
            final(eic).evctrl == old(eic).evctrl,
            final(eic).sense == old(eic).sense,
    {
        let line = (self.line % 16) as u32;
        eic.intenset = with_bit32(eic.intenset, line, true);
    }

    /// Disable the line's interrupt.
    pub fn disable_interrupt(&mut self, eic: &mut EicRegs)
        ensures
            *final(self) == *old(self),
            final(eic).intenset == spec_with_bit32(
                old(eic).intenset,
                old(self).spec_line(),
                false,
            ),
            final(eic).intflag == old(eic).intflag,
            final(eic).wakeup == old(eic).wakeup,
            final(eic).evctrl == old(eic).evctrl,
            final(eic).sense == old(eic).sense,
    {
        let line = (self.line % 16) as u32;
        eic.intenset = with_bit32(eic.intenset, line, false);
    }

    /// Enable the line's event output.
    pub fn enable_event(&mut self, eic: &mut EicRegs)
        ensures
            *final(self) == *old(self),
            final(eic).evctrl == spec_with_bit32(old(eic).evctrl, old(self).spec_line(), true),
            final(eic).intenset == old(eic).intenset,
            final(eic).intflag == old(eic).intflag,
            final(eic).wakeup == old(eic).wakeup,
            final(eic).sense == old(eic).sense,
    {
        let line = (self.line % 16) as u32;
        eic.evctrl = with_bit32(eic.evctrl, line, true);
    }

    /// Let the line's interrupt wake the core from sleep.
    pub fn enable_interrupt_wake(&mut self, eic: &mut EicRegs)
        ensures
            *final(self) == *old(self),
            final(eic).wakeup == spec_with_bit32(old(eic).wakeup, old(self).spec_line(), true),
            final(eic).intenset == old(eic).intenset,
            final(eic).intflag == old(eic).intflag,
            final(eic).evctrl == old(eic).evctrl,
            final(eic).sense == old(eic).sense,
    {
        let line = (self.line % 16) as u32;
        eic.wakeup = with_bit32(eic.wakeup, line, true);
    }

    /// Whether the line's interrupt flag is raised.
    pub fn is_interrupt(&mut self, eic: &EicRegs) -> (r: bool)
        ensures
            *final(self) == *old(self),
            r == spec_bit32(eic.intflag, old(self).spec_line()),
    {
        let line = (self.line % 16) as u32;
        get_bit32(eic.intflag, line)
    }

    /// Clear the line's interrupt flag.
    pub fn clear_interrupt(&mut self, eic: &mut EicRegs)
        ensures
            *final(self) == *old(self),
            final(eic).intflag == spec_with_bit32(old(eic).intflag, old(self).spec_line(), false),
            final(eic).intenset == old(eic).intenset,
            final(eic).wakeup == old(eic).wakeup,
            final(eic).evctrl == old(eic).evctrl,
            final(eic).sense == old(eic).sense,
    {
        let line = (self.line % 16) as u32;
        eic.intflag = with_bit32(eic.intflag, line, false);
    }

    /// Configure what condition on the pin raises the line's interrupt.
    pub fn sense(&mut self, eic: &mut EicRegs, sense: Sense)
        requires
            old(eic).wf(),
        ensures
            *final(self) == *old(self),
            final(eic).wf(),
            final(eic).sense@ == old(eic).sense@.update(
                old(self).spec_line() as int,
                sense.spec_bits(),
            ),
            final(eic).intenset == old(eic).intenset,
            final(eic).intflag == old(eic).intflag,
            final(eic).wakeup == old(eic).wakeup,
            final(eic).evctrl == old(eic).evctrl,
    {
        let line = (self.line % 16) as usize;
        eic.sense[line] = sense.bits();
    }
}

/// A pin that can be configured as an external interrupt line; the pin
/// modes only differ outside this subsystem, so each conversion yields
/// the bound line.
pub trait EicPin {
    /// The line produced by floating configuration.
    type Floating;

    /// The line produced by pull-up configuration.
    type PullUp;

    /// The line produced by pull-down configuration.
    type PullDown;

    /// Configure the pin as a floating external interrupt.
    fn into_floating_ei(self) -> Self::Floating;

    /// Configure the pin as a pulled-up external interrupt.
    fn into_pull_up_ei(self) -> Self::PullUp;

    /// Configure the pin as a pulled-down external interrupt.
    fn into_pull_down_ei(self) -> Self::PullDown;
}

/// An already-multiplexed pin wired to an external interrupt line.
pub struct EicCapablePin {
    /// The line the pin is wired to.
    pub line: u8,
}

impl EicPin for EicCapablePin {
    type Floating = ExtInt;

    type PullUp = ExtInt;

    type PullDown = ExtInt;

    fn into_floating_ei(self) -> ExtInt {
        ExtInt { line: self.line }
    }

    fn into_pull_up_ei(self) -> ExtInt {
        ExtInt { line: self.line }
    }

    fn into_pull_down_ei(self) -> ExtInt {
        ExtInt { line: self.line }
    }
}

/// An external interrupt line with an asynchronous wait: the line plus
/// its suspension record.
pub struct ExtIntFuture {
    /// The line.
    pub ext: ExtInt,
    /// The line's suspension record.
    pub slot: WakerSlot,
}

impl ExtIntFuture {
    /// Upgrade a line for asynchronous waits.
    pub fn new(ext: ExtInt) -> (r: ExtIntFuture)
        ensures
            r.ext == ext,
            !r.slot.spec_ready(),
    {
        ExtIntFuture { ext, slot: WakerSlot::new() }
    }

    /// The line's interrupt handler: if its flag is raised, clear it and
    /// wake the slot; a spurious invocation changes nothing.
    pub fn on_interrupt(&mut self, eic: &mut EicRegs)
        ensures
            final(self).ext == old(self).ext,
            spec_bit32(old(eic).intflag, old(self).ext.spec_line()) ==> {
                &&& final(eic).intflag == spec_with_bit32(
                    old(eic).intflag,
                    old(self).ext.spec_line(),
                    false,
                )
                &&& final(self).slot.spec_ready()
            },
            !spec_bit32(old(eic).intflag, old(self).ext.spec_line()) ==> *final(eic) == *old(eic)
                && final(self).slot.spec_ready() == old(self).slot.spec_ready(),
            final(eic).intenset == old(eic).intenset,
            final(eic).wakeup == old(eic).wakeup,
            final(eic).evctrl == old(eic).evctrl,
            final(eic).sense == old(eic).sense,
    {
        if self.ext.is_interrupt(eic) {
            self.ext.clear_interrupt(eic);
            self.slot.wake();
        }
    }

    /// One poll of a suspended wait: register the continuation, then
    /// re-check — and consume — the slot's readiness, so a condition
    /// sensed at any point before the check is observed, never lost.
    pub fn poll_wait(&mut self, w: &core::task::Waker) -> (r: bool)
        ensures
            final(self).ext == old(self).ext,
            r == spec_check(spec_register_transition(old(self).slot.spec_ready())).0,
            !final(self).slot.spec_ready(),
    {
        self.slot.register(w);
        self.slot.ready()
    }
}

} // verus!
