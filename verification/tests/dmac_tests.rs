use std::sync::atomic::{AtomicUsize, Ordering};
use std::sync::Arc;

use samd_hal::dmac::{
    DmaController, IrqsBound, PriorityLevel, PriorityLevelMask, RoundRobinMask, TriggerAction,
    TriggerSource, DMAC_HANDLER,
};
use samd_hal::dmac_regs::RegisterBlock;
use samd_hal::interrupts::{Bindings, DmacInterruptSources, InterruptId, Nvic};
use samd_hal::transfer::{
    hw_complete_transfer, hw_error_transfer, on_interrupt, DmaError, Transfer, TransferBuffer,
};

struct CountingWake(AtomicUsize);

impl futures::task::ArcWake for CountingWake {
    fn wake_by_ref(arc_self: &Arc<Self>) {
        arc_self.0.fetch_add(1, Ordering::SeqCst);
    }
}

fn counting_waker() -> (Arc<CountingWake>, core::task::Waker) {
    let counter = Arc::new(CountingWake(AtomicUsize::new(0)));
    let waker = futures::task::waker(counter.clone());
    (counter, waker)
}

fn async_controller() -> (DmaController<IrqsBound>, Nvic) {
    let mut nvic = Nvic::new();
    let mut bindings = Bindings::new();
    let binding = bindings.bind(&DmacInterruptSources, DMAC_HANDLER).unwrap();
    let ctl = DmaController::init(RegisterBlock::new(4));
    let ctl = ctl.into_future(binding, &mut nvic);
    (ctl, nvic)
}

#[test]
fn init_configures_controller() {
    let ctl = DmaController::init(RegisterBlock::new(4));
    // Controller enabled with all four priority levels.
    assert_eq!(ctl.dmac.ctrl.bits, 0x0F02);
    assert_eq!(ctl.dmac.baseaddr.bits, samd_hal::dmac::DESCRIPTOR_BASE);
    assert_eq!(ctl.dmac.wrbaddr.bits, samd_hal::dmac::WRITEBACK_BASE);
    assert_eq!(ctl.dmac.intstatus.bits, 0);
}

#[test]
fn level_masks_drive_exact_bits() {
    let mut ctl = DmaController::init(RegisterBlock::new(4));
    let mask = PriorityLevelMask { level0: true, level1: false, level2: true, level3: false };
    ctl.disable_levels(mask);
    assert_eq!(ctl.dmac.ctrl.bits, 0x0F02 & !0x0500);
    ctl.enable_levels(mask);
    assert_eq!(ctl.dmac.ctrl.bits, 0x0F02);

    let rr = RoundRobinMask { level0: true, level1: true, level2: false, level3: false };
    ctl.round_robin_arbitration(rr);
    assert_eq!(ctl.dmac.prictrl0.bits, 0x0000_8080);
    ctl.static_arbitration(rr);
    assert_eq!(ctl.dmac.prictrl0.bits, 0);
}

#[test]
fn split_hands_out_channels_exactly_once() {
    let mut ctl = DmaController::init(RegisterBlock::new(4));
    let first = ctl.split();
    assert!(first.is_some());
    // The channel handles exist exactly once.
    let second = ctl.split();
    assert!(second.is_none());
}

#[test]
fn controller_free_resets_engine() {
    let mut ctl = DmaController::init(RegisterBlock::new(4));
    let channels = ctl.split().unwrap();
    let block = ctl.free(channels);
    assert_eq!(block.ctrl.bits, 0);
}

#[test]
fn channel_init_sets_arbitration_level() {
    let (mut ctl, _nvic) = async_controller();
    let chs = ctl.split().unwrap();
    let ch2 = chs.2.init(&mut ctl, PriorityLevel::Lvl3);
    assert_eq!(ch2.id(), 2);
    assert_eq!(ctl.dmac.channel(2).chprilvl, 3);
}

#[test]
fn round_trip_memory_to_memory_transfer() {
    let (mut ctl, _nvic) = async_controller();
    let chs = ctl.split().unwrap();
    let ch0 = chs.0.init(&mut ctl, PriorityLevel::Lvl0);

    let source = TransferBuffer::new(vec![0xFF; 1000]);
    let dest = TransferBuffer::new(vec![0u8; 1000]);
    let mut t = Transfer::transfer_future(
        ch0,
        source,
        dest,
        TriggerSource::Disable,
        TriggerAction::Block,
        &mut ctl,
    );

    let (counter, waker) = counting_waker();
    // Not complete yet: the operation suspends.
    assert!(!t.poll(&mut ctl, &waker));

    // The hardware completes the block and the interrupt fires.
    hw_complete_transfer(&mut ctl, &mut t);
    on_interrupt(&mut ctl);
    assert_eq!(counter.0.load(Ordering::SeqCst), 1);

    assert!(t.poll(&mut ctl, &waker));
    let (ch0, source, dest, outcome) = t.complete(&mut ctl);
    assert_eq!(outcome, Ok(()));
    assert_eq!(ch0.id(), 0);
    let sent = source.into_words();
    let received = dest.into_words();
    assert_eq!(sent, vec![0xFF; 1000]);
    // Destination equals source, byte for byte.
    assert_eq!(received, vec![0xFF; 1000]);
}

#[test]
fn transfer_error_is_surfaced() {
    let (mut ctl, _nvic) = async_controller();
    let chs = ctl.split().unwrap();
    let ch1 = chs.1.init(&mut ctl, PriorityLevel::Lvl0);
    let source = TransferBuffer::new(vec![1, 2, 3]);
    let dest = TransferBuffer::new(vec![0u8; 3]);
    let mut t = Transfer::transfer_future(
        ch1,
        source,
        dest,
        TriggerSource::Disable,
        TriggerAction::Block,
        &mut ctl,
    );
    let (counter, waker) = counting_waker();
    assert!(!t.poll(&mut ctl, &waker));
    hw_error_transfer(&mut ctl, &t);
    on_interrupt(&mut ctl);
    assert_eq!(counter.0.load(Ordering::SeqCst), 1);
    assert!(t.poll(&mut ctl, &waker));
    let (_ch, _source, dest, outcome) = t.complete(&mut ctl);
    assert_eq!(outcome, Err(DmaError::TransferError));
    // No data moved.
    assert_eq!(dest.into_words(), vec![0u8; 3]);
}

#[test]
fn cancellation_leaves_channel_idle_and_reusable() {
    let (mut ctl, _nvic) = async_controller();
    let chs = ctl.split().unwrap();
    let ch0 = chs.0.init(&mut ctl, PriorityLevel::Lvl1);

    let source = TransferBuffer::new(vec![0xAA; 8]);
    let dest = TransferBuffer::new(vec![0u8; 8]);
    let mut t = Transfer::transfer_future(
        ch0,
        source,
        dest,
        TriggerSource::Disable,
        TriggerAction::Block,
        &mut ctl,
    );
    // The completion event fires before the cancellation...
    hw_complete_transfer(&mut ctl, &mut t);
    let (ch0, _source, _dest) = t.cancel(&mut ctl);
    // ... and cancelling still leaves the channel disabled, its interrupt
    // disabled, and no stale completion flag or readiness signal behind.
    assert_eq!(ctl.dmac.channel(0).chctrla, 0);
    assert_eq!(ctl.dmac.channel(0).chintenset, 0);
    assert_eq!(ctl.dmac.channel(0).chintflag, 0);
    assert_eq!(ctl.dmac.channel(0).chstatus, 0);
    assert_eq!(ctl.dmac.intstatus.bits, 0);
    // The arbitration level survives cancellation.
    assert_eq!(ctl.dmac.channel(0).chprilvl, 1);

    // A new transfer on the same channel succeeds and observes nothing
    // stale from the cancelled one.
    let source = TransferBuffer::new(vec![7; 16]);
    let dest = TransferBuffer::new(vec![0u8; 16]);
    let mut t2 = Transfer::transfer_future(
        ch0,
        source,
        dest,
        TriggerSource::Disable,
        TriggerAction::Block,
        &mut ctl,
    );
    let (counter, waker) = counting_waker();
    // No stale readiness: the fresh transfer suspends.
    assert!(!t2.poll(&mut ctl, &waker));
    assert_eq!(counter.0.load(Ordering::SeqCst), 0);
    hw_complete_transfer(&mut ctl, &mut t2);
    on_interrupt(&mut ctl);
    assert!(t2.poll(&mut ctl, &waker));
    let (_ch, _source, dest, outcome) = t2.complete(&mut ctl);
    assert_eq!(outcome, Ok(()));
    assert_eq!(dest.into_words(), vec![7; 16]);
}

#[test]
fn spurious_interrupt_wakes_nothing() {
    let (mut ctl, _nvic) = async_controller();
    // Nothing pending: the handler is absorbed silently.
    on_interrupt(&mut ctl);
    assert_eq!(ctl.dmac.intstatus.bits, 0);
}

#[test]
fn arming_writes_the_descriptor() {
    let (mut ctl, _nvic) = async_controller();
    let chs = ctl.split().unwrap();
    let ch3 = chs.3.init(&mut ctl, PriorityLevel::Lvl0);
    let source = TransferBuffer::new(vec![1, 2, 3, 4]);
    let dest = TransferBuffer::new(vec![0u8; 4]);
    let t = Transfer::transfer_future(
        ch3,
        source,
        dest,
        TriggerSource::Disable,
        TriggerAction::Block,
        &mut ctl,
    );
    // Valid descriptor with both increment bits and the beat count.
    assert_eq!(ctl.descriptors[3].btctrl, 0x0C01);
    assert_eq!(ctl.descriptors[3].btcnt, 4);
    // Channel enabled, both channel interrupts enabled, software trigger
    // issued for the trigger-less transfer.
    assert_eq!(ctl.dmac.channel(3).chctrla & 0x2, 0x2);
    assert_eq!(ctl.dmac.channel(3).chintenset, 0x03);
    assert_eq!(ctl.dmac.swtrigctrl.bits, 1 << 3);
    let (_ch, _s, _d) = t.cancel(&mut ctl);
}

#[test]
fn free_of_async_controller_disables_vectors() {
    let (mut ctl, mut nvic) = async_controller();
    assert!(nvic.is_enabled(InterruptId::Dmac0));
    let chs = ctl.split().unwrap();
    let block = ctl.free(chs, &mut nvic);
    assert_eq!(block.ctrl.bits, 0);
    assert!(!nvic.is_enabled(InterruptId::Dmac0));
    assert!(!nvic.is_enabled(InterruptId::DmacOther));
}

#[test]
fn channels_move_back_for_free() {
    let ctl = DmaController::init(RegisterBlock::new(4));
    let mut nvic = Nvic::new();
    let mut bindings = Bindings::new();
    let binding = bindings.bind(&DmacInterruptSources, DMAC_HANDLER).unwrap();
    let mut ctl = ctl.into_future(binding, &mut nvic);
    let chs = ctl.split().unwrap();
    let ch0 = chs.0.init(&mut ctl, PriorityLevel::Lvl0);
    // Returning the channel to its uninitialized stage lets the channel
    // set be reassembled, which free demands.
    let ch0 = ch0.reset(&mut ctl);
    let chs = samd_hal::dmac::FutureChannels(ch0, chs.1, chs.2, chs.3);
    let _block = ctl.free(chs, &mut nvic);
}
