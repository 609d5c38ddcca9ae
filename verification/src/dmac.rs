//! The DMA controller and its channel resource pool.
//!
//! [`DmaController::init`] consumes the raw register block, resets the
//! controller, installs the descriptor and write-back memory sections, and
//! enables every priority level. [`DmaController::split`] hands out one
//! independently-owned channel handle per hardware channel — exactly once —
//! and [`DmaController::free`] takes them all back before releasing the
//! register block, so no channel handle can outlive its controller.
//!
//! Each channel handle carries its lifecycle stage in its type
//! (uninitialized → initialized → ready for asynchronous use); a stage
//! transition consumes the old handle and produces the new one, so a
//! channel can never be used in the wrong configuration state, and two
//! live handles to the same channel cannot exist.

use vstd::prelude::*;

use core::marker::PhantomData;

use crate::dmac_regs::{with_bit16, Channel as ChannelRegs, RegisterBlock};
use crate::interrupts::{Binding, DmacInterruptSources, Nvic};
use crate::waker::WakerTable;

verus! {

/// Number of DMA channels on the modeled hardware variant.
pub const NUM_CHANNELS: usize = 4;

/// Handler identity of the DMA controller's interrupt handler, as recorded
/// in a [`Binding`].
pub const DMAC_HANDLER: u64 = 1;

/// `ctrl` bit: software reset.
pub const CTRL_SWRST: u16 = 0;

/// `ctrl` bit: controller enable.
pub const CTRL_DMAENABLE: u16 = 1;

/// `ctrl` bit of the level-0 enable; levels 0 to 3 occupy four adjacent
/// bits.
pub const CTRL_LVLEN0: u16 = 8;

/// `chctrla` bit: channel software reset.
pub const CHCTRLA_SWRST: u32 = 0;

/// `chctrla` bit: channel enable.
pub const CHCTRLA_ENABLE: u32 = 1;

/// `chctrla` bit where the trigger source field starts.
pub const CHCTRLA_TRIGSRC_SHIFT: u32 = 8;

/// `chctrla` bit where the trigger action field starts.
pub const CHCTRLA_TRIGACT_SHIFT: u32 = 20;

/// `chintflag` / `chintenset` bit: transfer error.
pub const CHINT_TERR: u8 = 0;

/// `chintflag` / `chintenset` bit: transfer complete.
pub const CHINT_TCMPL: u8 = 1;

/// `chstatus` bit: a transfer error was recorded for the last transfer.
pub const CHSTATUS_FERR: u8 = 2;

/// Model base address of the pending-descriptor memory section.
pub const DESCRIPTOR_BASE: u32 = 0x2000_0000;

/// Model base address of the write-back memory section.
pub const WRITEBACK_BASE: u32 = 0x2000_0200;

/// What event starts a transfer: a software trigger, or a peripheral's
/// data-ready signal.
#[derive(Clone, Copy, Debug, PartialEq, Eq, Structural)]
pub enum TriggerSource {
    /// No hardware trigger: the transfer is started by software and runs as
    /// one block.
    Disable,
    /// Serial engine 0 received a word.
    Sercom0Rx,
    /// Serial engine 0 can accept a word.
    Sercom0Tx,
    /// Serial engine 1 received a word.
    Sercom1Rx,
    /// Serial engine 1 can accept a word.
    Sercom1Tx,
    /// Serial engine 2 received a word.
    Sercom2Rx,
    /// Serial engine 2 can accept a word.
    Sercom2Tx,
}

impl TriggerSource {
    /// Encoding of the trigger source in `chctrla`.
    pub open spec fn spec_bits(self) -> u32 {
        match self {
            TriggerSource::Disable => 0,
            TriggerSource::Sercom0Rx => 1,
            TriggerSource::Sercom0Tx => 2,
            TriggerSource::Sercom1Rx => 3,
            TriggerSource::Sercom1Tx => 4,
            TriggerSource::Sercom2Rx => 5,
            TriggerSource::Sercom2Tx => 6,
        }
    }

    /// Encoding of the trigger source in `chctrla`.
    pub fn bits(self) -> (r: u32)
        ensures
            r == self.spec_bits(),
            r < 64,
    {
        match self {
            TriggerSource::Disable => 0,
            TriggerSource::Sercom0Rx => 1,
            TriggerSource::Sercom0Tx => 2,
            TriggerSource::Sercom1Rx => 3,
            TriggerSource::Sercom1Tx => 4,
            TriggerSource::Sercom2Rx => 5,
            TriggerSource::Sercom2Tx => 6,
        }
    }
}

/// How much data one trigger moves.
#[derive(Clone, Copy, Debug, PartialEq, Eq, Structural)]
pub enum TriggerAction {
    /// One trigger moves the whole block.
    Block,
    /// One trigger moves one beat.
    Beat,
    /// One trigger moves the whole transaction.
    Transaction,
}

impl TriggerAction {
    /// Encoding of the trigger action in `chctrla`.
    pub open spec fn spec_bits(self) -> u32 {
        match self {
            TriggerAction::Block => 0,
            TriggerAction::Beat => 2,
            TriggerAction::Transaction => 3,
        }
    }

    /// Encoding of the trigger action in `chctrla`.
    pub fn bits(self) -> (r: u32)
        ensures
            r == self.spec_bits(),
            r < 4,
    {
        match self {
            TriggerAction::Block => 0,
            TriggerAction::Beat => 2,
            TriggerAction::Transaction => 3,
        }
    }
}

/// Priority level of one DMA channel (the controller's arbitration level,
/// distinct from the NVIC's interrupt priority).
#[derive(Clone, Copy, Debug, PartialEq, Eq, Structural)]
pub enum PriorityLevel {
    /// Lowest arbitration level.
    Lvl0,
    /// Second arbitration level.
    Lvl1,
    /// Third arbitration level.
    Lvl2,
    /// Highest arbitration level.
    Lvl3,
}

impl PriorityLevel {
    /// Encoding of the level in `chprilvl`.
    pub open spec fn spec_bits(self) -> u8 {
        match self {
            PriorityLevel::Lvl0 => 0,
            PriorityLevel::Lvl1 => 1,
            PriorityLevel::Lvl2 => 2,
            PriorityLevel::Lvl3 => 3,
        }
    }

    /// Encoding of the level in `chprilvl`.
    pub fn bits(self) -> (r: u8)
        ensures
            r == self.spec_bits(),
    {
        match self {
            PriorityLevel::Lvl0 => 0,
            PriorityLevel::Lvl1 => 1,
            PriorityLevel::Lvl2 => 2,
            PriorityLevel::Lvl3 => 3,
        }
    }
}

/// Mask naming the priority levels an operation applies to; the level
/// enable bits sit in the second byte of `ctrl`.
#[derive(Clone, Copy, Debug, PartialEq, Eq, Structural)]
pub struct PriorityLevelMask {
    /// Level 0.
    pub level0: bool,
    /// Level 1.
    pub level1: bool,
    /// Level 2.
    pub level2: bool,
    /// Level 3.
    pub level3: bool,
}

impl PriorityLevelMask {
    /// The mask as `ctrl` register bits.
    pub open spec fn spec_bits(self) -> u16 {
        (if self.level0 {
            0x0100u16
        } else {
            0u16
        }) | (if self.level1 {
            0x0200u16
        } else {
            0u16
        }) | (if self.level2 {
            0x0400u16
        } else {
            0u16
        }) | (if self.level3 {
            0x0800u16
        } else {
            0u16
        })
    }

    /// The mask as `ctrl` register bits.
    pub fn bits(self) -> (r: u16)
        ensures
            r == self.spec_bits(),
    {
        (if self.level0 {
            0x0100u16
        } else {
            0u16
        }) | (if self.level1 {
            0x0200u16
        } else {
            0u16
        }) | (if self.level2 {
            0x0400u16
        } else {
            0u16
        }) | (if self.level3 {
            0x0800u16
        } else {
            0u16
        })
    }
}

/// Mask naming the priority levels whose arbitration an operation switches
/// between static and round-robin; the round-robin enable bits sit in the
/// top bit of each byte of `prictrl0`.
#[derive(Clone, Copy, Debug, PartialEq, Eq, Structural)]
pub struct RoundRobinMask {
    /// Level 0.
    pub level0: bool,
    /// Level 1.
    pub level1: bool,
    /// Level 2.
    pub level2: bool,
    /// Level 3.
    pub level3: bool,
}

impl RoundRobinMask {
    /// The mask as `prictrl0` register bits.
    pub open spec fn spec_bits(self) -> u32 {
        (if self.level0 {
            0x0000_0080u32
        } else {
            0u32
        }) | (if self.level1 {
            0x0000_8000u32
        } else {
            0u32
        }) | (if self.level2 {
            0x0080_0000u32
        } else {
            0u32
        }) | (if self.level3 {
            0x8000_0000u32
        } else {
            0u32
        })
    }

    /// The mask as `prictrl0` register bits.
    pub fn bits(self) -> (r: u32)
        ensures
            r == self.spec_bits(),
    {
        (if self.level0 {
            0x0000_0080u32
        } else {
            0u32
        }) | (if self.level1 {
            0x0000_8000u32
        } else {
            0u32
        }) | (if self.level2 {
            0x0080_0000u32
        } else {
            0u32
        }) | (if self.level3 {
            0x8000_0000u32
        } else {
            0u32
        })
    }
}

/// Lifecycle stage: channel handed out by `split`, not yet configured.
pub struct Uninitialized;

/// Lifecycle stage: channel configured and ready for blocking use.
pub struct Ready;

/// Lifecycle stage: channel handed out by the async controller's `split`,
/// not yet configured.
pub struct UninitializedFuture;

/// Lifecycle stage: channel configured and ready for asynchronous use.
pub struct ReadyFuture;

/// Lifecycle stage: channel owned by an in-flight transfer.
pub struct Busy;

/// One DMA channel handle. The stage parameter `S` records the lifecycle
/// stage; transitions consume the handle and produce one of the next
/// stage. Handles are created only by the controller's `split`, exactly
/// once per channel, so only one live handle per channel index can exist.
pub struct Channel<S> {
    id: u8,
    _stage: PhantomData<S>,
}

impl<S> Channel<S> {
    /// The channel index.
    pub closed spec fn spec_id(self) -> u8 {
        self.id
    }

    /// A channel handle denotes a hardware channel.
    pub open spec fn wf(self) -> bool {
        self.spec_id() < NUM_CHANNELS
    }

    /// The channel index.
    pub fn id(&self) -> (r: u8)
        ensures
            r == self.spec_id(),
    {
        self.id
    }
}

/// Change a channel handle's lifecycle stage; only the stage-transition
/// functions call this.
pub(crate) fn rebrand<S, T>(c: Channel<S>) -> (r: Channel<T>)
    ensures
        r.spec_id() == c.spec_id(),
{
    Channel { id: c.id, _stage: PhantomData }
}

/// Make a channel handle; only the controller's `split` calls this.
fn new_chan<S>(id: u8) -> (r: Channel<S>)
    requires
        id < NUM_CHANNELS,
    ensures
        r.spec_id() == id,
        r.wf(),
{
    Channel { id, _stage: PhantomData }
}

/// The controller's channels, each owned independently. Reconstructing
/// this struct — as [`DmaController::free`] demands — requires moving every
/// channel back in, which the compiler refuses unless all of them are
/// returned to their uninitialized stage.
pub struct Channels(
    /// Channel 0.
    pub Channel<Uninitialized>,
    /// Channel 1.
    pub Channel<Uninitialized>,
    /// Channel 2.
    pub Channel<Uninitialized>,
    /// Channel 3.
    pub Channel<Uninitialized>,
);

/// The async controller's channels, each owned independently.
pub struct FutureChannels(
    /// Channel 0.
    pub Channel<UninitializedFuture>,
    /// Channel 1.
    pub Channel<UninitializedFuture>,
    /// Channel 2.
    pub Channel<UninitializedFuture>,
    /// Channel 3.
    pub Channel<UninitializedFuture>,
);

/// Marker: the controller's interrupt vectors have no handler bound.
pub struct NoneT;

/// Marker: the controller's interrupt vectors are bound to its handler and
/// enabled, so channels may be upgraded for asynchronous use.
pub struct IrqsBound;

/// The initialized DMA controller. It owns the hardware-visible state of
/// the engine: the register block, the pending-descriptor and write-back
/// memory sections, and the per-channel waker table that its interrupt
/// handler shares with suspended transfers.
pub struct DmaController<I> {
    /// The controller's register block.
    pub dmac: RegisterBlock,
    /// Pending-descriptor memory: one hardware-read descriptor per channel.
    pub descriptors: Vec<crate::transfer::TransferDescriptor>,
    /// Write-back memory: the hardware-maintained copy per channel.
    pub writeback: Vec<crate::transfer::TransferDescriptor>,
    /// One waker slot per channel.
    pub wakers: WakerTable,
    /// Whether `split` has already handed the channels out; mutated only
    /// by `split`.
    pub split_done: bool,
    /// Marker recording whether the interrupt vectors are bound.
    pub marker: PhantomData<I>,
}

impl<I> DmaController<I> {
    /// The register banks and memory sections cover every channel.
    pub open spec fn wf(self) -> bool {
        &&& self.dmac.channel@.len() == NUM_CHANNELS
        &&& self.descriptors@.len() == NUM_CHANNELS
        &&& self.writeback@.len() == NUM_CHANNELS
        &&& self.wakers.spec_len() == NUM_CHANNELS
    }

    /// Whether `split` has already handed the channels out.
    pub open spec fn spec_split_done(self) -> bool {
        self.split_done
    }

    /// Enable several priority levels at once: each level named by the
    /// mask is enabled, the rest of `ctrl` is untouched.
    pub fn enable_levels(&mut self, mask: PriorityLevelMask)
        ensures
            final(self).dmac.ctrl.bits == old(self).dmac.ctrl.bits | mask.spec_bits(),
            unchanged_but_ctrl(*old(self), *final(self)),
    {
        let m = mask.bits();
        self.dmac.ctrl.bits = self.dmac.ctrl.bits | m;
    }

    /// Disable several priority levels at once: each level named by the
    /// mask is disabled, the rest of `ctrl` is untouched.
    pub fn disable_levels(&mut self, mask: PriorityLevelMask)
        ensures
            final(self).dmac.ctrl.bits == old(self).dmac.ctrl.bits & !mask.spec_bits(),
            unchanged_but_ctrl(*old(self), *final(self)),
    {
        let m = mask.bits();
        self.dmac.ctrl.bits = self.dmac.ctrl.bits & !m;
    }

    /// Switch several priority levels to round-robin arbitration at once.
    pub fn round_robin_arbitration(&mut self, mask: RoundRobinMask)
        ensures
            final(self).dmac.prictrl0.bits == old(self).dmac.prictrl0.bits | mask.spec_bits(),
            unchanged_but_prictrl(*old(self), *final(self)),
    {
        let m = mask.bits();
        self.dmac.prictrl0.bits = self.dmac.prictrl0.bits | m;
    }

    /// Switch several priority levels to static arbitration at once.
    pub fn static_arbitration(&mut self, mask: RoundRobinMask)
        ensures
            final(self).dmac.prictrl0.bits == old(self).dmac.prictrl0.bits & !mask.spec_bits(),
            unchanged_but_prictrl(*old(self), *final(self)),
    {
        let m = mask.bits();
        self.dmac.prictrl0.bits = self.dmac.prictrl0.bits & !m;
    }
}

/// Everything but `ctrl` kept as it was.
pub open spec fn unchanged_but_ctrl<I>(pre: DmaController<I>, post: DmaController<I>) -> bool {
    &&& post.dmac == (RegisterBlock { ctrl: post.dmac.ctrl, ..pre.dmac })
    &&& post.descriptors == pre.descriptors
    &&& post.writeback == pre.writeback
    &&& post.wakers == pre.wakers
    &&& post.spec_split_done() == pre.spec_split_done()
}

/// Everything but `prictrl0` kept as it was.
pub open spec fn unchanged_but_prictrl<I>(pre: DmaController<I>, post: DmaController<I>) -> bool {
    &&& post.dmac == (RegisterBlock { prictrl0: post.dmac.prictrl0, ..pre.dmac })
    &&& post.descriptors == pre.descriptors
    &&& post.writeback == pre.writeback
    &&& post.wakers == pre.wakers
    &&& post.spec_split_done() == pre.spec_split_done()
}

/// Reset the register block to its power-on state: every register zero,
/// every channel cluster zero. Models the software reset, which the
/// hardware acknowledges by clearing the reset bit once done.
fn swreset(dmac: &mut RegisterBlock)
    ensures
        final(dmac).channel@.len() == old(dmac).channel@.len(),
        final(dmac).ctrl.bits == 0,
        final(dmac).prictrl0.bits == 0,
        final(dmac).swtrigctrl.bits == 0,
        final(dmac).intpend.bits == 0,
        final(dmac).intstatus.bits == 0,
        final(dmac).busych.bits == 0,
        final(dmac).pendch.bits == 0,
        final(dmac).active.bits == 0,
        final(dmac).baseaddr.bits == 0,
        final(dmac).wrbaddr.bits == 0,
        forall|i: int|
            0 <= i < final(dmac).channel@.len() ==> final(dmac).channel@[i] == (ChannelRegs {
                chctrla: 0u32,
                chintenset: 0u8,
                chintflag: 0u8,
                chstatus: 0u8,
                chprilvl: 0u8,
            }),
{
    dmac.ctrl.bits = 0;
    dmac.crcctrl.bits = 0;
    dmac.crcdatain.bits = 0;
    dmac.crcchksum.bits = 0;
    dmac.crcstatus.bits = 0;
    dmac.dbgctrl.bits = 0;
    dmac.swtrigctrl.bits = 0;
    dmac.prictrl0.bits = 0;
    dmac.intpend.bits = 0;
    dmac.intstatus.bits = 0;
    dmac.busych.bits = 0;
    dmac.pendch.bits = 0;
    dmac.active.bits = 0;
    dmac.baseaddr.bits = 0;
    dmac.wrbaddr.bits = 0;
    let n = dmac.channel.len();
    let mut i: usize = 0;
    while i < n
        invariant
            i <= n,
            n == dmac.channel@.len(),
            forall|j: int|
                0 <= j < i ==> dmac.channel@[j] == (ChannelRegs {
                    chctrla: 0u32,
                    chintenset: 0u8,
                    chintflag: 0u8,
                    chstatus: 0u8,
                    chprilvl: 0u8,
                }),
            dmac.ctrl.bits == 0,
            dmac.prictrl0.bits == 0,
            dmac.swtrigctrl.bits == 0,
            dmac.intpend.bits == 0,
            dmac.intstatus.bits == 0,
            dmac.busych.bits == 0,
            dmac.pendch.bits == 0,
            dmac.active.bits == 0,
            dmac.baseaddr.bits == 0,
            dmac.wrbaddr.bits == 0,
        decreases n - i,
    {
        dmac.channel[i] = ChannelRegs {
            chctrla: 0,
            chintenset: 0,
            chintflag: 0,
            chstatus: 0,
            chprilvl: 0,
        };
        i = i + 1;
    }
}

impl DmaController<NoneT> {
    /// Initialize the DMA controller: reset it, install the
    /// pending-descriptor and write-back memory sections at their base
    /// addresses, enable all four priority levels, and enable the engine.
    pub fn init(dmac: RegisterBlock) -> (r: DmaController<NoneT>)
        requires
            dmac.channel@.len() == NUM_CHANNELS,
        ensures
            r.wf(),
            !r.spec_split_done(),
            r.dmac.ctrl.bits == 0x0F02,
            r.dmac.baseaddr.bits == DESCRIPTOR_BASE,
            r.dmac.wrbaddr.bits == WRITEBACK_BASE,
            r.dmac.intstatus.bits == 0,
            forall|i: int|
                0 <= i < NUM_CHANNELS ==> r.dmac.channel@[i] == (ChannelRegs {
                    chctrla: 0u32,
                    chintenset: 0u8,
                    chintflag: 0u8,
                    chstatus: 0u8,
                    chprilvl: 0u8,
                }),
            forall|i: int| 0 <= i < NUM_CHANNELS ==> !r.wakers.spec_ready_at(i),
            forall|i: int|
                0 <= i < NUM_CHANNELS ==> !crate::transfer::spec_descriptor_valid(
                    r.writeback@[i],
                ),
    {
        let mut dmac = dmac;
        swreset(&mut dmac);
        dmac.baseaddr.bits = DESCRIPTOR_BASE;
        dmac.wrbaddr.bits = WRITEBACK_BASE;
        // all four level-enable bits plus the controller enable bit
        dmac.ctrl.bits = 0x0F02u16;
        let mut descriptors: Vec<crate::transfer::TransferDescriptor> = Vec::new();
        let mut writeback: Vec<crate::transfer::TransferDescriptor> = Vec::new();
        let mut i: usize = 0;
        while i < NUM_CHANNELS
            invariant
                i <= NUM_CHANNELS,
                descriptors.len() == i,
                writeback.len() == i,
                forall|j: int|
                    0 <= j < i ==> !crate::transfer::spec_descriptor_valid(writeback@[j]),
            decreases NUM_CHANNELS - i,
        {
            descriptors.push(crate::transfer::TransferDescriptor::empty());
            writeback.push(crate::transfer::TransferDescriptor::empty());
            i = i + 1;
        }
        DmaController {
            dmac,
            descriptors,
            writeback,
            wakers: WakerTable::new(NUM_CHANNELS),
            split_done: false,
            marker: PhantomData,
        }
    }

    /// Hand out the channel handles, one per hardware channel. The
    /// channels exist exactly once: a second call is refused.
    pub fn split(&mut self) -> (r: Option<Channels>)
        ensures
            final(self).spec_split_done(),
            r is Some <==> !old(self).spec_split_done(),
            r matches Some(chs) ==> {
                &&& chs.0.spec_id() == 0
                &&& chs.1.spec_id() == 1
                &&& chs.2.spec_id() == 2
                &&& chs.3.spec_id() == 3
            },
            final(self).dmac == old(self).dmac,
            final(self).descriptors == old(self).descriptors,
            final(self).writeback == old(self).writeback,
            final(self).wakers == old(self).wakers,
    {
        if self.split_done {
            return None;
        }
        self.split_done = true;
        Some(Channels(new_chan(0), new_chan(1), new_chan(2), new_chan(3)))
    }

    /// Upgrade the controller for asynchronous use. Demands the [`Binding`]
    /// certificate wiring the controller's interrupt handler to all of its
    /// vectors, then clears any stale pending state and enables every one
    /// of them in the NVIC.
    pub fn into_future(self, binding: Binding, nvic: &mut Nvic) -> (r: DmaController<IrqsBound>)
        requires
            old(nvic).wf(),
            binding.spec_vectors() == DmacInterruptSources::spec_dmac_vectors(),
            binding.spec_handler() == DMAC_HANDLER,
        ensures
            final(nvic).wf(),
            crate::interrupts::spec_unpend_then_enable_effect(
                *old(nvic),
                *final(nvic),
                binding.spec_vectors(),
            ),
            r.dmac == self.dmac,
            r.descriptors == self.descriptors,
            r.writeback == self.writeback,
            r.wakers == self.wakers,
            r.spec_split_done() == self.spec_split_done(),
    {
        let mut vecs: Vec<crate::interrupts::InterruptId> = Vec::new();
        vecs.push(crate::interrupts::InterruptId::Dmac0);
        vecs.push(crate::interrupts::InterruptId::Dmac1);
        vecs.push(crate::interrupts::InterruptId::Dmac2);
        vecs.push(crate::interrupts::InterruptId::DmacOther);
        proof {
            assert(vecs@ == DmacInterruptSources::spec_dmac_vectors());
        }
        crate::interrupts::apply_unpend(nvic, &vecs);
        let ghost mid = *nvic;
        crate::interrupts::apply_enable(nvic, &vecs);
        proof {
            let vs = DmacInterruptSources::spec_dmac_vectors();
            assert forall|j: int|
                0 <= j < crate::interrupts::NUM_VECTORS implies nvic.enabled@[j] == (old(
                nvic,
            ).enabled@[j] || crate::interrupts::covers(vs, j)) by {
                assert(nvic.enabled@[j] == (mid.enabled@[j] || crate::interrupts::covers(vs, j)));
                assert(mid.enabled@[j] == old(nvic).enabled@[j]);
            }
            assert forall|j: int|
                0 <= j < crate::interrupts::NUM_VECTORS implies nvic.pending@[j] == (old(
                nvic,
            ).pending@[j] && !crate::interrupts::covers(vs, j)) by {
                assert(mid.pending@[j] == (old(nvic).pending@[j] && !crate::interrupts::covers(
                    vs,
                    j,
                )));
                assert(nvic.pending@[j] == mid.pending@[j]);
            }
        }
        DmaController {
            dmac: self.dmac,
            descriptors: self.descriptors,
            writeback: self.writeback,
            wakers: self.wakers,
            split_done: self.split_done,
            marker: PhantomData,
        }
    }

    /// Release the controller: disable and reset the engine, and return
    /// the register block. All channels must be moved back into the
    /// [`Channels`] struct first — a handle still in use makes this call
    /// impossible to write.
    pub fn free(self, channels: Channels) -> (r: RegisterBlock)
        ensures
            r.ctrl.bits == 0,
            r.baseaddr.bits == 0,
            r.wrbaddr.bits == 0,
            r.intstatus.bits == 0,
            r.swtrigctrl.bits == 0,
            r.channel@.len() == self.dmac.channel@.len(),
            forall|i: int|
                0 <= i < r.channel@.len() ==> r.channel@[i] == (ChannelRegs {
                    chctrla: 0u32,
                    chintenset: 0u8,
                    chintflag: 0u8,
                    chstatus: 0u8,
                    chprilvl: 0u8,
                }),
    {
        let Channels(_c0, _c1, _c2, _c3) = channels;
        let mut dmac = self.dmac;
        dmac.ctrl.bits = with_bit16(dmac.ctrl.bits, CTRL_DMAENABLE, false);
        swreset(&mut dmac);
        dmac
    }
}

impl DmaController<IrqsBound> {
    /// Hand out the async-capable channel handles, exactly once.
    pub fn split(&mut self) -> (r: Option<FutureChannels>)
        ensures
            final(self).spec_split_done(),
            r is Some <==> !old(self).spec_split_done(),
            r matches Some(chs) ==> {
                &&& chs.0.spec_id() == 0
                &&& chs.1.spec_id() == 1
                &&& chs.2.spec_id() == 2
                &&& chs.3.spec_id() == 3
            },
            final(self).dmac == old(self).dmac,
            final(self).descriptors == old(self).descriptors,
            final(self).writeback == old(self).writeback,
            final(self).wakers == old(self).wakers,
    {
        if self.split_done {
            return None;
        }
        self.split_done = true;
        Some(FutureChannels(new_chan(0), new_chan(1), new_chan(2), new_chan(3)))
    }

    /// Release the async controller: disable its interrupt vectors,
    /// disable and reset the engine, and return the register block. All
    /// channels must be moved back into the [`FutureChannels`] struct
    /// first.
    pub fn free(self, channels: FutureChannels, nvic: &mut Nvic) -> (r: RegisterBlock)
        requires
            old(nvic).wf(),
        ensures
            final(nvic).wf(),
            crate::interrupts::spec_disable_effect(
                *old(nvic),
                *final(nvic),
                DmacInterruptSources::spec_dmac_vectors(),
            ),
            r.ctrl.bits == 0,
            r.baseaddr.bits == 0,
            r.wrbaddr.bits == 0,
            r.intstatus.bits == 0,
            r.swtrigctrl.bits == 0,
            r.channel@.len() == self.dmac.channel@.len(),
            forall|i: int|
                0 <= i < r.channel@.len() ==> r.channel@[i] == (ChannelRegs {
                    chctrla: 0u32,
                    chintenset: 0u8,
                    chintflag: 0u8,
                    chstatus: 0u8,
                    chprilvl: 0u8,
                }),
    {
        let FutureChannels(_c0, _c1, _c2, _c3) = channels;
        let mut vecs: Vec<crate::interrupts::InterruptId> = Vec::new();
        vecs.push(crate::interrupts::InterruptId::Dmac0);
        vecs.push(crate::interrupts::InterruptId::Dmac1);
        vecs.push(crate::interrupts::InterruptId::Dmac2);
        vecs.push(crate::interrupts::InterruptId::DmacOther);
        proof {
            assert(vecs@ == DmacInterruptSources::spec_dmac_vectors());
        }
        crate::interrupts::apply_disable(nvic, &vecs);
        let mut dmac = self.dmac;
        dmac.ctrl.bits = with_bit16(dmac.ctrl.bits, CTRL_DMAENABLE, false);
        swreset(&mut dmac);
        dmac
    }
}

impl Channel<Uninitialized> {
    /// Configure the channel: record its arbitration level and reset its
    /// per-channel registers, moving it to the initialized stage.
    pub fn init<I>(self, ctl: &mut DmaController<I>, lvl: PriorityLevel) -> (r: Channel<Ready>)
        requires
            old(ctl).wf(),
            self.wf(),
        ensures
            final(ctl).wf(),
            r.spec_id() == self.spec_id(),
            r.wf(),
            final(ctl).dmac.channel@ == old(ctl).dmac.channel@.update(
                self.spec_id() as int,
                ChannelRegs {
                    chctrla: 0u32,
                    chintenset: 0u8,
                    chintflag: 0u8,
                    chstatus: 0u8,
                    chprilvl: lvl.spec_bits(),
                },
            ),
            channel_init_frame(*old(ctl), *final(ctl)),
    {
        let id = self.id as usize;
        ctl.dmac.channel[id] = ChannelRegs {
            chctrla: 0,
            chintenset: 0,
            chintflag: 0,
            chstatus: 0,
            chprilvl: lvl.bits(),
        };
        new_chan(self.id)
    }
}

impl Channel<UninitializedFuture> {
    /// Configure the channel for asynchronous use: record its arbitration
    /// level and reset its per-channel registers.
    pub fn init<I>(self, ctl: &mut DmaController<I>, lvl: PriorityLevel) -> (r: Channel<
        ReadyFuture,
    >)
        requires
            old(ctl).wf(),
            self.wf(),
        ensures
            final(ctl).wf(),
            r.spec_id() == self.spec_id(),
            r.wf(),
            final(ctl).dmac.channel@ == old(ctl).dmac.channel@.update(
                self.spec_id() as int,
                ChannelRegs {
                    chctrla: 0u32,
                    chintenset: 0u8,
                    chintflag: 0u8,
                    chstatus: 0u8,
                    chprilvl: lvl.spec_bits(),
                },
            ),
            channel_init_frame(*old(ctl), *final(ctl)),
    {
        let id = self.id as usize;
        ctl.dmac.channel[id] = ChannelRegs {
            chctrla: 0,
            chintenset: 0,
            chintflag: 0,
            chstatus: 0,
            chprilvl: lvl.bits(),
        };
        new_chan(self.id)
    }
}

impl Channel<Ready> {
    /// Return an initialized channel to its uninitialized stage, so it can
    /// be moved back into [`Channels`] for [`DmaController::free`].
    pub fn reset<I>(self, ctl: &mut DmaController<I>) -> (r: Channel<Uninitialized>)
        requires
            old(ctl).wf(),
            self.wf(),
        ensures
            final(ctl).wf(),
            r.spec_id() == self.spec_id(),
            r.wf(),
            final(ctl).dmac.channel@ == old(ctl).dmac.channel@.update(
                self.spec_id() as int,
                ChannelRegs {
                    chctrla: 0u32,
                    chintenset: 0u8,
                    chintflag: 0u8,
                    chstatus: 0u8,
                    chprilvl: 0u8,
                },
            ),
            channel_init_frame(*old(ctl), *final(ctl)),
    {
        let id = self.id as usize;
        ctl.dmac.channel[id] = ChannelRegs {
            chctrla: 0,
            chintenset: 0,
            chintflag: 0,
            chstatus: 0,
            chprilvl: 0,
        };
        new_chan(self.id)
    }
}

impl Channel<ReadyFuture> {
    /// Return an async-capable channel to its uninitialized stage, so it
    /// can be moved back into [`FutureChannels`].
    pub fn reset<I>(self, ctl: &mut DmaController<I>) -> (r: Channel<UninitializedFuture>)
        requires
            old(ctl).wf(),
            self.wf(),
        ensures
            final(ctl).wf(),
            r.spec_id() == self.spec_id(),
            r.wf(),
            final(ctl).dmac.channel@ == old(ctl).dmac.channel@.update(
                self.spec_id() as int,
                ChannelRegs {
                    chctrla: 0u32,
                    chintenset: 0u8,
                    chintflag: 0u8,
                    chstatus: 0u8,
                    chprilvl: 0u8,
                },
            ),
            channel_init_frame(*old(ctl), *final(ctl)),
    {
        let id = self.id as usize;
        ctl.dmac.channel[id] = ChannelRegs {
            chctrla: 0,
            chintenset: 0,
            chintflag: 0,
            chstatus: 0,
            chprilvl: 0,
        };
        new_chan(self.id)
    }
}

/// A channel-register write touches nothing else in the controller.
pub open spec fn channel_init_frame<I>(pre: DmaController<I>, post: DmaController<I>) -> bool {
    &&& post.dmac == (RegisterBlock { channel: post.dmac.channel, ..pre.dmac })
    &&& post.descriptors == pre.descriptors
    &&& post.writeback == pre.writeback
    &&& post.wakers == pre.wakers
    &&& post.spec_split_done() == pre.spec_split_done()
}

} // verus!
