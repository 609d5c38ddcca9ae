use std::sync::atomic::{AtomicUsize, Ordering};
use std::sync::Arc;

use samd_hal::adc::{Adc, AdcRegs, Error as AdcError, ADC_HANDLER};
use samd_hal::interrupts::{Bindings, InterruptId, Nvic};

struct CountingWake(AtomicUsize);

impl futures::task::ArcWake for CountingWake {
    fn wake_by_ref(arc_self: &Arc<Self>) {
        arc_self.0.fetch_add(1, Ordering::SeqCst);
    }
}

fn counting_waker() -> (Arc<CountingWake>, core::task::Waker) {
    let counter = Arc::new(CountingWake(AtomicUsize::new(0)));
    let waker = futures::task::waker(counter.clone());
    (counter, waker)
}

fn adc_future() -> (samd_hal::adc::AdcFuture, Nvic) {
    let mut nvic = Nvic::new();
    let mut bindings = Bindings::new();
    let binding = bindings.bind(&InterruptId::Adc, ADC_HANDLER).unwrap();
    let adc = Adc::new(AdcRegs::new());
    let fut = adc.into_future(binding, &mut nvic);
    (fut, nvic)
}

#[test]
fn conversion_round_trip() {
    let (mut fut, nvic) = adc_future();
    assert!(nvic.is_enabled(InterruptId::Adc));
    fut.start_conversion(3);
    assert_eq!(fut.adc.regs.inputctrl, 3);
    assert_eq!(fut.adc.regs.intenset, 0x03);

    let (counter, waker) = counting_waker();
    assert!(!fut.poll_conversion(&waker));

    fut.adc.hw_conversion_done(0x0123);
    fut.on_interrupt();
    assert_eq!(counter.0.load(Ordering::SeqCst), 1);

    assert!(fut.poll_conversion(&waker));
    assert_eq!(fut.read_result(), Ok(0x0123));
}

#[test]
fn unread_result_surfaces_overrun() {
    let (mut fut, _nvic) = adc_future();
    fut.start_conversion(1);
    fut.adc.hw_conversion_done(0x0040);
    // A second result lands before the first was read.
    fut.adc.hw_conversion_done(0x0055);
    fut.on_interrupt();
    let waker = futures::task::noop_waker();
    assert!(fut.poll_conversion(&waker));
    assert_eq!(fut.read_result(), Err(AdcError::Overrun));
    // The overrun was claimed; the surviving result is readable.
    assert_eq!(fut.read_result(), Ok(0x0055));
}

#[test]
fn spurious_adc_interrupt_changes_nothing() {
    let (mut fut, _nvic) = adc_future();
    fut.start_conversion(2);
    let (counter, waker) = counting_waker();
    fut.on_interrupt();
    assert_eq!(counter.0.load(Ordering::SeqCst), 0);
    assert!(!fut.poll_conversion(&waker));
}
