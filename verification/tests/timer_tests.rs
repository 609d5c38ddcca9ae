use std::sync::atomic::{AtomicUsize, Ordering};
use std::sync::Arc;

use samd_hal::interrupts::{Bindings, InterruptId, Nvic};
use samd_hal::timer::{
    timer_params, Count16Regs, Tc, TimerCounter, WaitOutcome, TIMER_HANDLER,
};

struct CountingWake(AtomicUsize);

impl futures::task::ArcWake for CountingWake {
    fn wake_by_ref(arc_self: &Arc<Self>) {
        arc_self.0.fetch_add(1, Ordering::SeqCst);
    }
}

fn counting_waker() -> (Arc<CountingWake>, core::task::Waker) {
    let counter = Arc::new(CountingWake(AtomicUsize::new(0)));
    let waker = futures::task::waker(counter.clone());
    (counter, waker)
}

#[test]
fn params_short_period_uses_smallest_divider() {
    // One millisecond at 48 MHz: 48000 ticks fit the counter directly.
    let params = timer_params(1_000_000, 48_000_000);
    assert_eq!(params.divider, 1);
    assert_eq!(params.cycles, 48_000);
}

#[test]
fn params_long_period_scales_the_divider() {
    // One second at 48 MHz: 48 million ticks need the largest divider.
    let params = timer_params(1_000_000_000, 48_000_000);
    assert_eq!(params.divider, 1024);
    assert_eq!(params.cycles, 46_875);
}

#[test]
fn params_pick_first_fitting_divider() {
    // 10 ms at 48 MHz: 480000 ticks; 480000/8 = 60000 fits, /4 does not.
    let params = timer_params(10_000_000, 48_000_000);
    assert_eq!(params.divider, 8);
    assert_eq!(params.cycles, 60_000);
}

#[test]
fn start_programs_the_counter() {
    let tc = Tc { regs: Count16Regs::new(), id: 0 };
    let mut timer = TimerCounter::new(tc, 48_000_000);
    timer.start(1_000_000);
    // Enabled, match-frequency waveform, run in standby, prescaler one.
    assert_eq!(timer.tc.regs.ctrla, 0x0822);
    assert_eq!(timer.tc.regs.cc0, 48_000);
    timer.start(1_000_000_000);
    // Prescaler 1024 is code seven in bits 8..=10.
    assert_eq!(timer.tc.regs.ctrla, (7 << 8) | 0x0822);
    assert_eq!(timer.tc.regs.cc0, 46_875);
}

#[test]
fn wait_observes_and_clears_overflow() {
    let tc = Tc { regs: Count16Regs::new(), id: 0 };
    let mut timer = TimerCounter::new(tc, 48_000_000);
    timer.start(1_000_000);
    assert_eq!(timer.wait(), WaitOutcome::Pending);
    timer.tc.regs.intflag = 1;
    assert_eq!(timer.wait(), WaitOutcome::Elapsed);
    // The flag was claimed: a second check is pending again.
    assert_eq!(timer.wait(), WaitOutcome::Pending);
}

#[test]
fn async_delay_round_trip() {
    let mut nvic = Nvic::new();
    let mut bindings = Bindings::new();
    let binding = bindings.bind(&InterruptId::Tc3, TIMER_HANDLER).unwrap();
    let tc = Tc { regs: Count16Regs::new(), id: 0 };
    let timer = TimerCounter::new(tc, 48_000_000);
    let mut delay = timer.into_future(binding, &mut nvic);
    assert!(nvic.is_enabled(InterruptId::Tc3));

    delay.start_delay(2_000_000);
    assert_eq!(delay.timer.tc.regs.intenset, 1);

    let (counter, waker) = counting_waker();
    assert!(!delay.poll_delay(&waker));

    // The overflow fires and the handler services it.
    delay.timer.tc.regs.intflag = 1;
    delay.on_interrupt();
    assert_eq!(counter.0.load(Ordering::SeqCst), 1);
    assert_eq!(delay.timer.tc.regs.intflag, 0);

    assert!(delay.poll_delay(&waker));
    // One event, one resumption.
    assert!(!delay.poll_delay(&waker));
}

#[test]
fn spurious_timer_interrupt_changes_nothing() {
    let mut nvic = Nvic::new();
    let mut bindings = Bindings::new();
    let binding = bindings.bind(&InterruptId::Tc4, TIMER_HANDLER).unwrap();
    let tc = Tc { regs: Count16Regs::new(), id: 1 };
    let timer = TimerCounter::new(tc, 8_000_000);
    let mut delay = timer.into_future(binding, &mut nvic);
    delay.start_delay(1_000);
    let (counter, waker) = counting_waker();
    delay.on_interrupt();
    assert_eq!(counter.0.load(Ordering::SeqCst), 0);
    assert!(!delay.poll_delay(&waker));
}

#[test]
fn cancel_delay_disables_interrupt_and_vector() {
    let mut nvic = Nvic::new();
    let mut bindings = Bindings::new();
    let binding = bindings.bind(&InterruptId::Tc5, TIMER_HANDLER).unwrap();
    let tc = Tc { regs: Count16Regs::new(), id: 2 };
    let timer = TimerCounter::new(tc, 48_000_000);
    let mut delay = timer.into_future(binding, &mut nvic);
    delay.start_delay(5_000_000);
    delay.timer.tc.regs.intflag = 1;
    delay.on_interrupt();
    delay.cancel_delay(&mut nvic);
    assert!(!nvic.is_enabled(InterruptId::Tc5));
    assert_eq!(delay.timer.tc.regs.intenset, 0);
    // The pending readiness of the abandoned delay was dropped.
    let waker = futures::task::noop_waker();
    assert!(!delay.poll_delay(&waker));
}
