//! Waker slots: the per-resource suspension records that bridge
//! interrupt-context completion signals to suspended application-context
//! operations.
//!
//! Each waitable resource (a DMA channel, a timer instance, a serial RX or
//! TX direction, an external interrupt line) owns one [`WakerSlot`]: a
//! readiness flag plus at most one registered continuation. The suspend
//! protocol is: register the continuation, then re-check readiness, and
//! only yield if the slot is still not ready — so a completion signal that
//! arrives between the two steps is never lost. Readiness is read *and
//! cleared* by a single [`WakerSlot::ready`] call, so one hardware event
//! wakes an operation exactly once, and redundant wake signals collapse
//! into at most one pending readiness observation.

use vstd::prelude::*;

verus! {

/// Waker storage declared from the outside crate; a slot carries one.
#[verifier::external_type_specification]
#[verifier::external_body]
pub struct ExAtomicWaker(embassy_sync::waitqueue::AtomicWaker);

/// The continuation handle the external scheduler hands to `poll`.
#[verifier::external_type_specification]
#[verifier::external_body]
pub struct ExWaker(core::task::Waker);

/// Relies on embassy_sync::waitqueue::AtomicWaker::new: a slot with no
/// registered waker.
#[verifier::external_body]
fn atomic_waker_new() -> embassy_sync::waitqueue::AtomicWaker {
    embassy_sync::waitqueue::AtomicWaker::new()
}

/// Relies on embassy_sync::waitqueue::AtomicWaker::register: stores a clone
/// of `w`, replacing any previously registered waker without waking it
/// (last registration wins).
#[verifier::external_body]
fn register_in(cell: &embassy_sync::waitqueue::AtomicWaker, w: &core::task::Waker) {
    cell.register(w)
}

/// Relies on embassy_sync::waitqueue::AtomicWaker::wake: invokes the wake
/// function of the registered waker, if any, and keeps it registered.
#[verifier::external_body]
fn wake_in(cell: &embassy_sync::waitqueue::AtomicWaker) {
    cell.wake()
}

/// What a wake signal does to a slot's readiness: it becomes ready, no
/// matter how many signals came before.
pub open spec fn spec_wake_transition(ready: bool) -> bool {
    true
}

/// What registering a continuation does to readiness: nothing.
pub open spec fn spec_register_transition(ready: bool) -> bool {
    ready
}

/// What one readiness check observes and leaves behind: it observes the
/// current flag and clears it.
pub open spec fn spec_check(ready: bool) -> (bool, bool) {
    (ready, false)
}

/// Readiness after `n` consecutive wake signals.
pub open spec fn spec_wakes(ready: bool, n: nat) -> bool
    decreases n,
{
    if n == 0 {
        ready
    } else {
        spec_wake_transition(spec_wakes(ready, (n - 1) as nat))
    }
}

/// Idempotent wake: any run of one or more wake signals leaves exactly one
/// pending readiness observation — the first check observes ready, and a
/// second check with no wake in between observes not-ready.
pub proof fn lemma_wake_idempotent(ready0: bool, n: nat)
    requires
        n >= 1,
    ensures
        ({
            let first = spec_check(spec_wakes(ready0, n));
            let second = spec_check(first.1);
            first.0 == true && second.0 == false
        }),
{
    assert(spec_wakes(ready0, n) == spec_wake_transition(spec_wakes(ready0, (n - 1) as nat)));
}

/// Lost-wakeup freedom: if the completion signal fires at any point after
/// the continuation is registered, the readiness recheck that follows the
/// registration observes it — the operation never suspends past its own
/// completion.
pub proof fn lemma_no_lost_wakeup(ready0: bool)
    ensures
        ({
            let after_register = spec_register_transition(ready0);
            let after_wake = spec_wake_transition(after_register);
            spec_check(after_wake).0 == true
        }),
{
}

/// One waitable resource's suspension record: a readiness flag and at most
/// one registered continuation. This is the only state shared between the
/// interrupt context (which calls [`WakerSlot::wake`]) and the application
/// context (which registers, checks, and clears).
pub struct WakerSlot {
    ready: bool,
    waker: embassy_sync::waitqueue::AtomicWaker,
}

impl WakerSlot {
    /// Whether the resource's completion signal has fired since the last
    /// readiness check.
    pub closed spec fn spec_ready(self) -> bool {
        self.ready
    }

    /// A fresh slot: not ready, no registered continuation.
    pub fn new() -> (r: WakerSlot)
        ensures
            !r.spec_ready(),
    {
        WakerSlot { ready: false, waker: atomic_waker_new() }
    }

    /// Store the most recent continuation, replacing any previous one
    /// without waking it. Readiness is untouched: registration must be
    /// followed by a readiness recheck.
    pub fn register(&mut self, w: &core::task::Waker)
        ensures
            final(self).spec_ready() == spec_register_transition(old(self).spec_ready()),
    {
        register_in(&self.waker, w);
    }

    /// Signal completion: mark the slot ready, then invoke the registered
    /// continuation's wake function, if any. Called from interrupt-handler
    /// context; calling it spuriously or repeatedly is harmless.
    pub fn wake(&mut self)
        ensures
            final(self).spec_ready() == spec_wake_transition(old(self).spec_ready()),
    {
        self.ready = true;
        wake_in(&self.waker);
    }

    /// Atomically read and clear the readiness flag: the single source of
    /// truth for "should the suspended operation resume now".
    pub fn ready(&mut self) -> (r: bool)
        ensures
            r == spec_check(old(self).spec_ready()).0,
            final(self).spec_ready() == spec_check(old(self).spec_ready()).1,
    {
        let r = self.ready;
        self.ready = false;
        r
    }

    /// Clear the readiness flag without observing it; done before arming a
    /// new operation so that no stale signal from an earlier use of the
    /// resource can wake it.
    pub fn clear(&mut self)
        ensures
            !final(self).spec_ready(),
    {
        self.ready = false;
    }
}

/// A fixed bank of waker slots, one per DMA channel.
pub struct WakerTable {
    slots: Vec<WakerSlot>,
}

impl WakerTable {
    /// Number of slots.
    pub closed spec fn spec_len(self) -> nat {
        self.slots@.len()
    }

    /// Readiness of slot `i`.
    pub closed spec fn spec_ready_at(self, i: int) -> bool {
        self.slots@[i].spec_ready()
    }

    /// A table of `n` fresh slots, none ready. Built at program start,
    /// before any interrupt can fire.
    pub fn new(n: usize) -> (r: WakerTable)
        ensures
            r.spec_len() == n,
            forall|i: int| 0 <= i < n ==> !r.spec_ready_at(i),
    {
        let mut slots: Vec<WakerSlot> = Vec::new();
        let mut i: usize = 0;
        while i < n
            invariant
                i <= n,
                slots.len() == i,
                forall|j: int| 0 <= j < i ==> !slots@[j].spec_ready(),
            decreases n - i,
        {
            slots.push(WakerSlot::new());
            i = i + 1;
        }
        WakerTable { slots }
    }

    /// Number of slots.
    pub fn len(&self) -> (n: usize)
        ensures
            n == self.spec_len(),
    {
        self.slots.len()
    }

    /// Register a continuation in slot `i`.
    pub fn register(&mut self, i: usize, w: &core::task::Waker)
        requires
            i < old(self).spec_len(),
        ensures
            final(self).spec_len() == old(self).spec_len(),
            final(self).spec_ready_at(i as int) == spec_register_transition(
                old(self).spec_ready_at(i as int),
            ),
            forall|j: int|
                0 <= j < old(self).spec_len() && j != i ==> final(self).spec_ready_at(j) == old(
                    self,
                ).spec_ready_at(j),
    {
        let slot = &mut self.slots[i];
        slot.register(w);
    }

    /// Signal completion of the resource behind slot `i`.
    pub fn wake(&mut self, i: usize)
        requires
            i < old(self).spec_len(),
        ensures
            final(self).spec_len() == old(self).spec_len(),
            final(self).spec_ready_at(i as int) == spec_wake_transition(
                old(self).spec_ready_at(i as int),
            ),
            forall|j: int|
                0 <= j < old(self).spec_len() && j != i ==> final(self).spec_ready_at(j) == old(
                    self,
                ).spec_ready_at(j),
    {
        let slot = &mut self.slots[i];
        slot.wake();
    }

    /// Atomically read and clear the readiness flag of slot `i`.
    pub fn ready(&mut self, i: usize) -> (r: bool)
        requires
            i < old(self).spec_len(),
        ensures
            final(self).spec_len() == old(self).spec_len(),
            r == spec_check(old(self).spec_ready_at(i as int)).0,
            final(self).spec_ready_at(i as int) == spec_check(
                old(self).spec_ready_at(i as int),
            ).1,
            forall|j: int|
                0 <= j < old(self).spec_len() && j != i ==> final(self).spec_ready_at(j) == old(
                    self,
                ).spec_ready_at(j),
    {
        let slot = &mut self.slots[i];
        slot.ready()
    }

    /// Clear the readiness flag of slot `i` without observing it.
    pub fn clear(&mut self, i: usize)
        requires
            i < old(self).spec_len(),
        ensures
            final(self).spec_len() == old(self).spec_len(),
            !final(self).spec_ready_at(i as int),
            forall|j: int|
                0 <= j < old(self).spec_len() && j != i ==> final(self).spec_ready_at(j) == old(
                    self,
                ).spec_ready_at(j),
    {
        let slot = &mut self.slots[i];
        slot.clear();
    }
}

} // verus!
