use std::sync::atomic::{AtomicUsize, Ordering};
use std::sync::Arc;

use samd_hal::waker::WakerSlot;

struct CountingWake(AtomicUsize);

impl futures::task::ArcWake for CountingWake {
    fn wake_by_ref(arc_self: &Arc<Self>) {
        arc_self.0.fetch_add(1, Ordering::SeqCst);
    }
}

fn counting_waker() -> (Arc<CountingWake>, core::task::Waker) {
    let counter = Arc::new(CountingWake(AtomicUsize::new(0)));
    let waker = futures::task::waker(counter.clone());
    (counter, waker)
}

#[test]
fn idempotent_wake_many_signals_one_observation() {
    let mut slot = WakerSlot::new();
    let (_counter, waker) = counting_waker();
    slot.register(&waker);
    for _ in 0..5 {
        slot.wake();
    }
    // Exactly one pending readiness observation is carried.
    assert!(slot.ready());
    assert!(!slot.ready());
}

#[test]
fn single_wake_single_observation() {
    let mut slot = WakerSlot::new();
    slot.wake();
    assert!(slot.ready());
    assert!(!slot.ready());
}

#[test]
fn wake_invokes_registered_continuation() {
    let mut slot = WakerSlot::new();
    let (counter, waker) = counting_waker();
    slot.register(&waker);
    slot.wake();
    assert_eq!(counter.0.load(Ordering::SeqCst), 1);
    slot.wake();
    assert_eq!(counter.0.load(Ordering::SeqCst), 2);
}

#[test]
fn wake_with_no_registration_only_sets_readiness() {
    let mut slot = WakerSlot::new();
    slot.wake();
    assert!(slot.ready());
}

#[test]
fn registration_does_not_consume_readiness() {
    let mut slot = WakerSlot::new();
    let (_counter, waker) = counting_waker();
    slot.wake();
    slot.register(&waker);
    assert!(slot.ready());
}

#[test]
fn last_registration_wins() {
    let mut slot = WakerSlot::new();
    let (first_counter, first_waker) = counting_waker();
    let (second_counter, second_waker) = counting_waker();
    slot.register(&first_waker);
    slot.register(&second_waker);
    slot.wake();
    // Only the most recent continuation is honored.
    assert_eq!(first_counter.0.load(Ordering::SeqCst), 0);
    assert_eq!(second_counter.0.load(Ordering::SeqCst), 1);
}

#[test]
fn completion_between_register_and_recheck_is_observed() {
    let mut slot = WakerSlot::new();
    let (counter, waker) = counting_waker();
    // The suspend protocol: register first...
    slot.register(&waker);
    // ... the completion signal fires exactly between registration and
    // the readiness recheck ...
    slot.wake();
    // ... and the recheck observes it: the operation never hangs.
    assert!(slot.ready());
    assert_eq!(counter.0.load(Ordering::SeqCst), 1);
}

#[test]
fn clear_drops_stale_readiness() {
    let mut slot = WakerSlot::new();
    slot.wake();
    slot.clear();
    assert!(!slot.ready());
}
