//! Timer/counter hardware and its asynchronous delay.
//!
//! [`TimerCounter::start`] computes a prescaler and a 16-bit period from
//! the requested duration and the peripheral clock frequency, then
//! programs the counter for match-frequency operation. The asynchronous
//! [`AsyncTimer`] arms the counter, enables its overflow interrupt, and
//! suspends on its waker slot; [`AsyncTimer::on_interrupt`] claims the
//! overflow flag and wakes the slot, and [`AsyncTimer::poll_delay`]
//! registers the caller's continuation before re-checking readiness, so
//! an overflow firing between the two steps is never lost.

use vstd::prelude::*;

use crate::dmac_regs::{get_bit8, spec_bit8, spec_with_bit8, with_bit8};
use crate::interrupts::{Binding, InterruptId, Nvic};
use crate::waker::{spec_check, spec_register_transition, WakerSlot};

verus! {

/// Handler identity of the timer's interrupt handler, as recorded in a
/// [`Binding`].
pub const TIMER_HANDLER: u64 = 2;

/// Number of timer/counter instances with an asynchronous delay.
pub const NUM_TIMERS: usize = 3;

/// One timer/counter instance's 16-bit-mode registers.
#[derive(Clone, Copy, Debug, PartialEq, Eq, Structural)]
pub struct Count16Regs {
    /// Control A: software reset (bit 0), enable (bit 1), waveform
    /// generation (bit 5 selects match frequency), prescaler (bits
    /// 8..=10), run in standby (bit 11).
    pub ctrla: u32,
    /// Control B set: direction (bit 0), one-shot (bit 2).
    pub ctrlbset: u8,
    /// Compare/period value for match-frequency mode.
    pub cc0: u16,
    /// Interrupt enable: overflow (bit 0).
    pub intenset: u8,
    /// Interrupt flags: overflow (bit 0).
    pub intflag: u8,
    /// Status: synchronization busy (bit 7).
    pub status: u8,
}

impl Count16Regs {
    /// Registers at their reset values.
    pub fn new() -> (r: Count16Regs)
        ensures
            r == (Count16Regs {
                ctrla: 0u32,
                ctrlbset: 0u8,
                cc0: 0u16,
                intenset: 0u8,
                intflag: 0u8,
                status: 0u8,
            }),
    {
        Count16Regs { ctrla: 0, ctrlbset: 0, cc0: 0, intenset: 0, intflag: 0, status: 0 }
    }
}

/// One timer/counter peripheral instance: its registers and its instance
/// index (instance `i` is serviced by the `i`-th timer vector).
pub struct Tc {
    /// The instance's 16-bit-mode registers.
    pub regs: Count16Regs,
    /// The instance index.
    pub id: u8,
}

/// Access to a timer/counter's 16-bit-mode registers.
pub trait Count16 {
    /// The instance's 16-bit-mode registers.
    fn count_16(&self) -> &Count16Regs;
}

impl Count16 for Tc {
    fn count_16(&self) -> &Count16Regs {
        &self.regs
    }
}

/// A timer/counter instance that can service an asynchronous delay: it
/// knows which waker-slot position its interrupt wakes.
pub trait AsyncCount16: Count16 {
    /// Position of this instance in the delay state tracking.
    fn state_id(&self) -> usize;
}

impl AsyncCount16 for Tc {
    fn state_id(&self) -> usize {
        self.id as usize
    }
}

/// The interrupt vector servicing timer instance `id`.
pub open spec fn spec_tc_vector(id: u8) -> InterruptId {
    if id == 0 {
        InterruptId::Tc3
    } else if id == 1 {
        InterruptId::Tc4
    } else {
        InterruptId::Tc5
    }
}

/// The interrupt vector servicing timer instance `id`.
pub fn tc_vector(id: u8) -> (r: InterruptId)
    requires
        id < NUM_TIMERS,
    ensures
        r == spec_tc_vector(id),
{
    if id == 0 {
        InterruptId::Tc3
    } else if id == 1 {
        InterruptId::Tc4
    } else {
        InterruptId::Tc5
    }
}

/// Counter ticks that a duration spans at the given clock frequency.
pub open spec fn spec_ticks(timeout_ns: u32, freq_hz: u32) -> int {
    (timeout_ns * freq_hz) / 1_000_000_000
}

/// The smallest prescaler divider the hardware offers that brings the
/// tick count within the counter's 16-bit range.
pub open spec fn spec_divider(ticks: int) -> int {
    if ticks <= 0xFFFF {
        1
    } else if ticks / 2 <= 0xFFFF {
        2
    } else if ticks / 4 <= 0xFFFF {
        4
    } else if ticks / 8 <= 0xFFFF {
        8
    } else if ticks / 16 <= 0xFFFF {
        16
    } else if ticks / 64 <= 0xFFFF {
        64
    } else if ticks / 256 <= 0xFFFF {
        256
    } else {
        1024
    }
}

/// Prescaler divider and counter cycles realizing a duration.
#[derive(Clone, Copy, Debug, PartialEq, Eq, Structural)]
pub struct TimerParams {
    /// The hardware prescaler divider.
    pub divider: u16,
    /// The compare value in prescaled ticks.
    pub cycles: u16,
}

/// Compute the prescaler divider and compare value for a duration at the
/// given clock frequency: the smallest offered divider whose cycle count
/// fits the 16-bit counter. The duration must be realizable at all — at
/// most `0xFFFF` cycles at the largest divider; a longer request is a
/// programming error, excluded here by precondition.
pub fn timer_params(timeout_ns: u32, freq_hz: u32) -> (r: TimerParams)
    requires
        spec_ticks(timeout_ns, freq_hz) / 1024 <= 0xFFFF,
    ensures
        r.divider == spec_divider(spec_ticks(timeout_ns, freq_hz)),
        r.cycles == spec_ticks(timeout_ns, freq_hz) / spec_divider(
            spec_ticks(timeout_ns, freq_hz),
        ),
{
    let ticks: u64 = ((timeout_ns as u64) * (freq_hz as u64)) / 1_000_000_000u64;
    let divider: u16 = if ticks <= 0xFFFF {
        1
    } else if ticks / 2 <= 0xFFFF {
        2
    } else if ticks / 4 <= 0xFFFF {
        4
    } else if ticks / 8 <= 0xFFFF {
        8
    } else if ticks / 16 <= 0xFFFF {
        16
    } else if ticks / 64 <= 0xFFFF {
        64
    } else if ticks / 256 <= 0xFFFF {
        256
    } else {
        1024
    };
    let cycles: u64 = ticks / (divider as u64);
    TimerParams { divider, cycles: cycles as u16 }
}

/// The prescaler field encoding of an offered divider.
pub open spec fn spec_prescaler_bits(divider: int) -> u32 {
    if divider == 1 {
        0
    } else if divider == 2 {
        1
    } else if divider == 4 {
        2
    } else if divider == 8 {
        3
    } else if divider == 16 {
        4
    } else if divider == 64 {
        5
    } else if divider == 256 {
        6
    } else {
        7
    }
}

/// `ctrla` after [`TimerCounter::start`]: enabled, match-frequency
/// waveform, run-in-standby, counting up, with the chosen prescaler.
pub open spec fn spec_start_ctrla(divider: int) -> u32 {
    (spec_prescaler_bits(divider) << 8u32) | 0x0822u32
}

/// A hardware timer counter in 16-bit mode, driven at a configured clock
/// frequency.
pub struct TimerCounter {
    /// The underlying timer/counter instance.
    pub tc: Tc,
    /// The configured peripheral clock frequency in hertz.
    pub freq_hz: u32,
}

/// Whether a blocking wait observed the period's end.
#[derive(Clone, Copy, Debug, PartialEq, Eq, Structural)]
pub enum WaitOutcome {
    /// The period elapsed: the overflow flag was observed and cleared.
    Elapsed,
    /// The period has not elapsed yet; check again later.
    Pending,
}

impl TimerCounter {
    /// Take ownership of a disabled timer/counter instance with its clock
    /// frequency.
    pub fn new(tc: Tc, freq_hz: u32) -> (r: TimerCounter)
        ensures
            r.tc == tc,
            r.freq_hz == freq_hz,
    {
        TimerCounter { tc, freq_hz }
    }

    /// Program a period: reset the counter, select counting up in
    /// periodic match-frequency mode, install the computed compare value
    /// and prescaler, and enable the counter. The requested duration must
    /// be realizable with the largest prescaler; a longer request is a
    /// programming error, excluded here by precondition.
    pub fn start(&mut self, timeout_ns: u32)
        requires
            spec_ticks(timeout_ns, old(self).freq_hz) / 1024 <= 0xFFFF,
        ensures
            final(self).freq_hz == old(self).freq_hz,
            final(self).tc.id == old(self).tc.id,
            final(self).tc.regs == (Count16Regs {
                ctrla: spec_start_ctrla(
                    spec_divider(spec_ticks(timeout_ns, old(self).freq_hz)),
                ),
                ctrlbset: 0u8,
                cc0: (spec_ticks(timeout_ns, old(self).freq_hz) / spec_divider(
                    spec_ticks(timeout_ns, old(self).freq_hz),
                )) as u16,
                intenset: 0u8,
                intflag: 0u8,
                status: 0u8,
            }),
    {
        let params = timer_params(timeout_ns, self.freq_hz);
        let prescaler: u32 = if params.divider == 1 {
            0
        } else if params.divider == 2 {
            1
        } else if params.divider == 4 {
            2
        } else if params.divider == 8 {
            3
        } else if params.divider == 16 {
            4
        } else if params.divider == 64 {
            5
        } else if params.divider == 256 {
            6
        } else {
            7
        };
        self.tc.regs = Count16Regs {
            ctrla: (prescaler << 8u32) | 0x0822u32,
            ctrlbset: 0,
            cc0: params.cycles,
            intenset: 0,
            intflag: 0,
            status: 0,
        };
    }

    /// Check once whether the programmed period has elapsed: observe the
    /// overflow flag, clear it if set, and report the outcome.
    pub fn wait(&mut self) -> (r: WaitOutcome)
        ensures
            r == (if spec_bit8(old(self).tc.regs.intflag, 0) {
                WaitOutcome::Elapsed
            } else {
                WaitOutcome::Pending
            }),
            final(self).tc.regs.intflag == spec_with_bit8(old(self).tc.regs.intflag, 0, false),
            final(self).tc.regs == (Count16Regs {
                intflag: final(self).tc.regs.intflag,
                ..old(self).tc.regs
            }),
            final(self).tc.id == old(self).tc.id,
            final(self).freq_hz == old(self).freq_hz,
    {
        if get_bit8(self.tc.regs.intflag, 0) {
            self.tc.regs.intflag = with_bit8(self.tc.regs.intflag, 0, false);
            WaitOutcome::Elapsed
        } else {
            proof {
                let flag = old(self).tc.regs.intflag;
                assert(flag & (1u8 << 0u8) == 0 ==> spec_with_bit8(flag, 0, false) == flag)
                    by (bit_vector);
            }
            WaitOutcome::Pending
        }
    }

    /// Enable overflow interrupt generation for this counter. This only
    /// configures the peripheral; wiring and unmasking the interrupt
    /// vector is the integration point's task.
    pub fn enable_interrupt(&mut self)
        ensures
            final(self).tc.regs.intenset == spec_with_bit8(old(self).tc.regs.intenset, 0, true),
            final(self).tc.regs == (Count16Regs {
                intenset: final(self).tc.regs.intenset,
                ..old(self).tc.regs
            }),
            final(self).tc.id == old(self).tc.id,
            final(self).freq_hz == old(self).freq_hz,
    {
        self.tc.regs.intenset = with_bit8(self.tc.regs.intenset, 0, true);
    }

    /// Disable overflow interrupt generation for this counter.
    pub fn disable_interrupt(&mut self)
        ensures
            final(self).tc.regs.intenset == spec_with_bit8(old(self).tc.regs.intenset, 0, false),
            final(self).tc.regs == (Count16Regs {
                intenset: final(self).tc.regs.intenset,
                ..old(self).tc.regs
            }),
            final(self).tc.id == old(self).tc.id,
            final(self).freq_hz == old(self).freq_hz,
    {
        self.tc.regs.intenset = with_bit8(self.tc.regs.intenset, 0, false);
    }

    /// Upgrade the counter for asynchronous use; see [`AsyncTimer::new`].
    pub fn into_future(self, binding: Binding, nvic: &mut Nvic) -> (r: AsyncTimer)
        requires
            old(nvic).wf(),
            self.tc.id < NUM_TIMERS,
            binding.spec_vectors() == seq![spec_tc_vector(self.tc.id)],
            binding.spec_handler() == TIMER_HANDLER,
        ensures
            final(nvic).wf(),
            crate::interrupts::spec_enable_effect(
                *old(nvic),
                *final(nvic),
                seq![spec_tc_vector(self.tc.id)],
            ),
            r.timer.tc.id == self.tc.id,
            r.timer.freq_hz == self.freq_hz,
            r.timer.tc.regs.intenset == spec_with_bit8(self.tc.regs.intenset, 0, true),
            r.timer.tc.regs == (Count16Regs {
                intenset: r.timer.tc.regs.intenset,
                ..self.tc.regs
            }),
            !r.slot.spec_ready(),
    {
        AsyncTimer::new(self, binding, nvic)
    }
}

/// A timer counter with an asynchronous delay: the counter plus the waker
/// slot its interrupt handler shares with the suspended delay.
pub struct AsyncTimer {
    /// The programmed counter.
    pub timer: TimerCounter,
    /// The instance's suspension record.
    pub slot: WakerSlot,
}

impl AsyncTimer {
    /// Upgrade a counter for asynchronous use. Demands the [`Binding`]
    /// certificate wiring the timer handler to this instance's vector,
    /// unmasks that vector, and enables overflow interrupt generation.
    pub fn new(timer: TimerCounter, binding: Binding, nvic: &mut Nvic) -> (r: AsyncTimer)
        requires
            old(nvic).wf(),
            timer.tc.id < NUM_TIMERS,
            binding.spec_vectors() == seq![spec_tc_vector(timer.tc.id)],
            binding.spec_handler() == TIMER_HANDLER,
        ensures
            final(nvic).wf(),
            crate::interrupts::spec_enable_effect(
                *old(nvic),
                *final(nvic),
                seq![spec_tc_vector(timer.tc.id)],
            ),
            r.timer.tc.id == timer.tc.id,
            r.timer.freq_hz == timer.freq_hz,
            r.timer.tc.regs.intenset == spec_with_bit8(timer.tc.regs.intenset, 0, true),
            r.timer.tc.regs == (Count16Regs {
                intenset: r.timer.tc.regs.intenset,
                ..timer.tc.regs
            }),
            !r.slot.spec_ready(),
    {
        let mut vecs: Vec<InterruptId> = Vec::new();
        vecs.push(tc_vector(timer.tc.id));
        proof {
            assert(vecs@ == seq![spec_tc_vector(timer.tc.id)]);
        }
        crate::interrupts::apply_enable(nvic, &vecs);
        let mut timer = timer;
        timer.enable_interrupt();
        AsyncTimer { timer, slot: WakerSlot::new() }
    }

    /// Arm a delay: program the period, clear any stale readiness from an
    /// earlier delay, and enable the overflow interrupt. The requested
    /// duration must be realizable; see [`TimerCounter::start`].
    pub fn start_delay(&mut self, timeout_ns: u32)
        requires
            spec_ticks(timeout_ns, old(self).timer.freq_hz) / 1024 <= 0xFFFF,
        ensures
            final(self).timer.freq_hz == old(self).timer.freq_hz,
            final(self).timer.tc.id == old(self).timer.tc.id,
            final(self).timer.tc.regs == (Count16Regs {
                ctrla: spec_start_ctrla(
                    spec_divider(spec_ticks(timeout_ns, old(self).timer.freq_hz)),
                ),
                ctrlbset: 0u8,
                cc0: (spec_ticks(timeout_ns, old(self).timer.freq_hz) / spec_divider(
                    spec_ticks(timeout_ns, old(self).timer.freq_hz),
                )) as u16,
                intenset: 1u8,
                intflag: 0u8,
                status: 0u8,
            }),
            !final(self).slot.spec_ready(),
    {
        self.timer.start(timeout_ns);
        self.timer.enable_interrupt();
        self.slot.clear();
        proof {
            assert(spec_with_bit8(0u8, 0u8, true) == 1u8) by (bit_vector);
        }
    }

    /// One poll of the suspended delay: register the caller's
    /// continuation, then re-check — and consume — the slot's readiness.
    /// Registration happens first, so an overflow that fired at any point
    /// before the check is observed, never lost.
    pub fn poll_delay(&mut self, w: &core::task::Waker) -> (r: bool)
        ensures
            r == spec_check(spec_register_transition(old(self).slot.spec_ready())).0,
            !final(self).slot.spec_ready(),
            final(self).timer == old(self).timer,
    {
        self.slot.register(w);
        self.slot.ready()
    }

    /// The timer's interrupt handler: if the overflow flag is raised,
    /// clear it — so the interrupt cannot re-fire — and wake the slot.
    /// Touches only the flag register and the waker slot; a spurious
    /// invocation with no flag raised changes nothing.
    pub fn on_interrupt(&mut self)
        ensures
            spec_bit8(old(self).timer.tc.regs.intflag, 0) ==> {
                &&& final(self).timer.tc.regs.intflag == spec_with_bit8(
                    old(self).timer.tc.regs.intflag,
                    0,
                    false,
                )
                &&& final(self).timer.tc.regs == (Count16Regs {
                    intflag: final(self).timer.tc.regs.intflag,
                    ..old(self).timer.tc.regs
                })
                &&& final(self).slot.spec_ready()
            },
            !spec_bit8(old(self).timer.tc.regs.intflag, 0) ==> *final(self) == *old(self),
            final(self).timer.tc.id == old(self).timer.tc.id,
            final(self).timer.freq_hz == old(self).timer.freq_hz,
    {
        if get_bit8(self.timer.tc.regs.intflag, 0) {
            self.timer.tc.regs.intflag = with_bit8(self.timer.tc.regs.intflag, 0, false);
            self.slot.wake();
        }
    }

    /// Abandon an in-flight delay: mask the instance's interrupt vector,
    /// disable overflow interrupt generation, and drop any pending
    /// readiness, leaving the timer idle and reusable.
    pub fn cancel_delay(&mut self, nvic: &mut Nvic)
        requires
            old(nvic).wf(),
            old(self).timer.tc.id < NUM_TIMERS,
        ensures
            final(nvic).wf(),
            crate::interrupts::spec_disable_effect(
                *old(nvic),
                *final(nvic),
                seq![spec_tc_vector(old(self).timer.tc.id)],
            ),
            final(self).timer.tc.regs.intenset == spec_with_bit8(
                old(self).timer.tc.regs.intenset,
                0,
                false,
            ),
            final(self).timer.tc.regs == (Count16Regs {
                intenset: final(self).timer.tc.regs.intenset,
                ..old(self).timer.tc.regs
            }),
            final(self).timer.tc.id == old(self).timer.tc.id,
            final(self).timer.freq_hz == old(self).timer.freq_hz,
            !final(self).slot.spec_ready(),
    {
        let mut vecs: Vec<InterruptId> = Vec::new();
        vecs.push(tc_vector(self.timer.tc.id));
        proof {
            assert(vecs@ == seq![spec_tc_vector(old(self).timer.tc.id)]);
        }
        crate::interrupts::apply_disable(nvic, &vecs);
        self.timer.disable_interrupt();
        self.slot.clear();
    }
}

} // verus!
