//! Transfer descriptors and the asynchronous transfer operation.
//!
//! Arming a transfer writes the descriptor for the channel, clears the
//! channel's stale flags and readiness, enables its completion and error
//! interrupts, and enables the channel — issuing the software trigger when
//! no hardware trigger is configured. The armed operation owns both
//! buffers and the channel until it completes or is cancelled, so the
//! memory the hardware reads and writes cannot be touched or freed while
//! a transfer is in flight.
//!
//! The hardware's side of the protocol is modeled by the `hw_*` functions:
//! a deterministic harness calls them to complete or fail the armed
//! transfer, then calls [`on_interrupt`] to play the interrupt handler,
//! which claims the completion flags and wakes the channel's waker slot.
//! The suspended operation's [`Transfer::poll`] registers its continuation
//! *before* re-checking readiness, so a completion signal arriving between
//! the two steps is observed, never lost.

use vstd::prelude::*;

use crate::dmac::{
    Busy, Channel, DmaController, IrqsBound, ReadyFuture, TriggerAction, TriggerSource,
    CHCTRLA_ENABLE, CHSTATUS_FERR, NUM_CHANNELS,
};
use crate::dmac_regs::{
    get_bit8, get_bit32, spec_bit8, spec_bit16, spec_bit32, spec_with_bit8, spec_with_bit32,
    with_bit8, with_bit32, Channel as ChannelRegs, RegisterBlock,
};
use crate::waker::{spec_check, spec_register_transition};

verus! {

/// `btctrl` bit: the descriptor is valid for the hardware to execute.
pub const BTCTRL_VALID: u16 = 0;

/// `btctrl` bit: the source address increments after each beat.
pub const BTCTRL_SRCINC: u16 = 10;

/// `btctrl` bit: the destination address increments after each beat.
pub const BTCTRL_DSTINC: u16 = 11;

/// A typed failure of a DMA transfer, surfaced to the caller on resume.
#[derive(Clone, Copy, Debug, PartialEq, Eq, Structural)]
pub enum DmaError {
    /// The hardware reported a transfer error for the block.
    TransferError,
}

/// One hardware-resident transfer descriptor: block control flags, beat
/// count, the model source and destination addresses, and the link to a
/// next descriptor (zero: none).
#[derive(Clone, Copy, Debug, PartialEq, Eq, Structural)]
pub struct TransferDescriptor {
    /// Block control: valid bit, and the address-increment bits.
    pub btctrl: u16,
    /// Number of beats in the block.
    pub btcnt: u16,
    /// Source address.
    pub srcaddr: u32,
    /// Destination address.
    pub dstaddr: u32,
    /// Address of the linked descriptor; zero for a single block.
    pub descaddr: u32,
}

/// Whether the descriptor's valid bit is set.
pub open spec fn spec_descriptor_valid(d: TransferDescriptor) -> bool {
    spec_bit16(d.btctrl, 0)
}

impl TransferDescriptor {
    /// An all-zero descriptor: not valid, nothing to execute.
    pub fn empty() -> (r: TransferDescriptor)
        ensures
            r == (TransferDescriptor {
                btctrl: 0u16,
                btcnt: 0u16,
                srcaddr: 0u32,
                dstaddr: 0u32,
                descaddr: 0u32,
            }),
            !spec_descriptor_valid(r),
    {
        let r = TransferDescriptor { btctrl: 0, btcnt: 0, srcaddr: 0, dstaddr: 0, descaddr: 0 };
        proof {
            assert(0u16 & (1u16 << 0u16) == 0) by (bit_vector);
        }
        r
    }
}

/// The beat read from a buffer at beat index `i`: an incrementing buffer
/// supplies its `i`-th word, a fixed buffer always supplies its only word.
pub open spec fn spec_read_beat(words: Seq<u8>, incrementing: bool, i: int) -> u8 {
    if incrementing {
        words[i]
    } else {
        words[0]
    }
}

/// The destination buffer's contents after `n` beats have been moved into
/// it: an incrementing destination receives beat `i` at word `i`, a fixed
/// destination (a peripheral's data-register window) holds the last beat.
pub open spec fn spec_dest_after(
    dst: Seq<u8>,
    dst_inc: bool,
    src: Seq<u8>,
    src_inc: bool,
    n: int,
) -> Seq<u8> {
    if dst_inc {
        Seq::new(dst.len(), |i: int| if i < n {
            spec_read_beat(src, src_inc, i)
        } else {
            dst[i]
        })
    } else if n > 0 {
        dst.update(0, spec_read_beat(src, src_inc, n - 1))
    } else {
        dst
    }
}

/// Round-trip: a completed memory-to-memory transfer over incrementing
/// source and destination buffers of the same length leaves the
/// destination equal to the source, beat for beat.
pub proof fn lemma_transfer_round_trip(src: Seq<u8>, dst: Seq<u8>)
    requires
        src.len() == dst.len(),
    ensures
        spec_dest_after(dst, true, src, true, src.len() as int) == src,
{
    assert(spec_dest_after(dst, true, src, true, src.len() as int) =~= src);
}

/// One side of a transfer: the words, and whether the hardware address
/// increments beat by beat. A non-incrementing buffer holds a single word
/// and stands for a fixed data-register window of the given logical
/// length.
pub struct TransferBuffer {
    words: Vec<u8>,
    incrementing: bool,
    len: usize,
}

impl TransferBuffer {
    /// The buffer's words.
    pub closed spec fn spec_words(self) -> Seq<u8> {
        self.words@
    }

    /// Whether the hardware address increments beat by beat.
    pub closed spec fn spec_incrementing(self) -> bool {
        self.incrementing
    }

    /// The buffer's logical length in beats.
    pub closed spec fn spec_len(self) -> int {
        self.len as int
    }

    /// An incrementing buffer backs every beat with its own word; a fixed
    /// buffer holds exactly one word, whatever its logical length.
    pub open spec fn wf(self) -> bool {
        &&& if self.spec_incrementing() {
            self.spec_words().len() == self.spec_len()
        } else {
            self.spec_words().len() == 1
        }
        &&& self.spec_len() > 0
    }

    /// An incrementing buffer over owned memory.
    pub fn new(words: Vec<u8>) -> (r: TransferBuffer)
        requires
            words@.len() > 0,
        ensures
            r.spec_words() == words@,
            r.spec_incrementing(),
            r.spec_len() == words@.len(),
            r.wf(),
    {
        let len = words.len();
        TransferBuffer { words, incrementing: true, len }
    }

    /// A fixed buffer: one word, repeated for `len` beats.
    pub fn fixed(word: u8, len: usize) -> (r: TransferBuffer)
        requires
            len > 0,
        ensures
            r.spec_words() == seq![word],
            !r.spec_incrementing(),
            r.spec_len() == len,
            r.wf(),
    {
        let mut words: Vec<u8> = Vec::new();
        words.push(word);
        proof {
            assert(words@ == seq![word]);
        }
        TransferBuffer { words, incrementing: false, len }
    }

    /// Whether the hardware address increments beat by beat.
    pub fn incrementing(&self) -> (r: bool)
        ensures
            r == self.spec_incrementing(),
    {
        self.incrementing
    }

    /// The buffer's logical length in beats.
    pub fn buffer_len(&self) -> (r: usize)
        ensures
            r == self.spec_len(),
    {
        self.len
    }

    /// Give the owned memory back.
    pub fn into_words(self) -> (r: Vec<u8>)
        ensures
            r@ == self.spec_words(),
    {
        self.words
    }
}

/// Sink/source buffer for one-directional transfers: a single word with a
/// configurable logical length, used to pad the unused direction of a
/// duplex exchange.
pub struct DummyBuffer {
    word: u8,
    length: usize,
}

impl DummyBuffer {
    /// The repeated word.
    pub closed spec fn spec_word(self) -> u8 {
        self.word
    }

    /// The logical length.
    pub closed spec fn spec_length(self) -> int {
        self.length as int
    }

    /// A single-word buffer of the given logical length.
    pub fn new(word: u8, length: usize) -> (r: DummyBuffer)
        ensures
            r.spec_word() == word,
            r.spec_length() == length,
    {
        DummyBuffer { word, length }
    }

    /// A dummy buffer never increments: every beat sees the same word.
    pub fn incrementing(&self) -> (r: bool)
        ensures
            r == false,
    {
        false
    }

    /// The logical length.
    pub fn buffer_len(&self) -> (r: usize)
        ensures
            r == self.spec_length(),
    {
        self.length
    }

    /// The transfer-engine buffer this dummy stands for.
    pub fn into_buffer(self) -> (r: TransferBuffer)
        requires
            self.spec_length() > 0,
        ensures
            r.spec_words() == seq![self.spec_word()],
            !r.spec_incrementing(),
            r.spec_len() == self.spec_length(),
            r.wf(),
    {
        TransferBuffer::fixed(self.word, self.length)
    }
}

/// The descriptor that arming a transfer writes for the hardware: valid,
/// with the block's beat count and the two increment flags.
pub open spec fn spec_descriptor_for(
    src_inc: bool,
    dst_inc: bool,
    n: int,
) -> TransferDescriptor {
    TransferDescriptor {
        btctrl: spec_armed_btctrl(src_inc, dst_inc),
        btcnt: n as u16,
        srcaddr: 0,
        dstaddr: 0,
        descaddr: 0,
    }
}

/// The `btctrl` value of a freshly armed descriptor: the valid bit plus
/// the two increment bits.
pub open spec fn spec_armed_btctrl(src_inc: bool, dst_inc: bool) -> u16 {
    if src_inc && dst_inc {
        0x0C01u16
    } else if src_inc {
        0x0401u16
    } else if dst_inc {
        0x0801u16
    } else {
        0x0001u16
    }
}

/// An in-flight (or just-armed) DMA transfer. It owns the channel and
/// both buffers: the caller gets them back only from
/// [`Transfer::complete`] or [`Transfer::cancel`], after the hardware has
/// observably finished or been disarmed.
pub struct Transfer {
    channel: Channel<Busy>,
    source: TransferBuffer,
    dest: TransferBuffer,
}

impl Transfer {
    /// The channel index this transfer runs on.
    pub closed spec fn spec_id(self) -> u8 {
        self.channel.spec_id()
    }

    /// The source buffer.
    pub closed spec fn spec_source(self) -> TransferBuffer {
        self.source
    }

    /// The destination buffer.
    pub closed spec fn spec_dest(self) -> TransferBuffer {
        self.dest
    }

    /// A transfer runs on a hardware channel, over well-formed buffers of
    /// one common logical length that the descriptor's beat counter can
    /// hold.
    pub open spec fn wf(self) -> bool {
        &&& self.spec_id() < NUM_CHANNELS
        &&& self.spec_source().wf()
        &&& self.spec_dest().wf()
        &&& self.spec_source().spec_len() == self.spec_dest().spec_len()
        &&& 0 < self.spec_dest().spec_len() <= 0xFFFF
    }

    /// Arm an asynchronous transfer on `channel`: write the channel's
    /// pending descriptor, invalidate its write-back slot, clear stale
    /// flags and readiness, enable the completion and error interrupts,
    /// enable the channel with the requested trigger configuration, and —
    /// when no hardware trigger is configured — issue the software
    /// trigger. The returned operation owns the channel and both buffers.
    ///
    /// Both buffers must be well-formed, of one common logical length
    /// between 1 and the descriptor's maximum beat count; a violation is
    /// a programming error, excluded here by precondition.
    pub fn transfer_future(
        channel: Channel<ReadyFuture>,
        source: TransferBuffer,
        dest: TransferBuffer,
        trig_src: TriggerSource,
        trig_act: TriggerAction,
        ctl: &mut DmaController<IrqsBound>,
    ) -> (r: Transfer)
        requires
            old(ctl).wf(),
            channel.wf(),
            source.wf(),
            dest.wf(),
            source.spec_len() == dest.spec_len(),
            0 < dest.spec_len() <= 0xFFFF,
        ensures
            final(ctl).wf(),
            r.wf(),
            r.spec_id() == channel.spec_id(),
            r.spec_source() == source,
            r.spec_dest() == dest,
            final(ctl).descriptors@ == old(ctl).descriptors@.update(
                channel.spec_id() as int,
                spec_descriptor_for(
                    source.spec_incrementing(),
                    dest.spec_incrementing(),
                    dest.spec_len(),
                ),
            ),
            final(ctl).writeback@ == old(ctl).writeback@.update(
                channel.spec_id() as int,
                TransferDescriptor {
                    btctrl: 0u16,
                    btcnt: 0u16,
                    srcaddr: 0u32,
                    dstaddr: 0u32,
                    descaddr: 0u32,
                },
            ),
            final(ctl).dmac.channel@ == old(ctl).dmac.channel@.update(
                channel.spec_id() as int,
                spec_armed_channel_regs(
                    old(ctl).dmac.channel@[channel.spec_id() as int],
                    trig_src,
                    trig_act,
                ),
            ),
            !final(ctl).wakers.spec_ready_at(channel.spec_id() as int),
            forall|j: int|
                0 <= j < NUM_CHANNELS && j != channel.spec_id()
                    ==> final(ctl).wakers.spec_ready_at(j) == old(ctl).wakers.spec_ready_at(j),
            final(ctl).dmac.swtrigctrl.bits == (if trig_src is Disable {
                spec_with_bit32(old(ctl).dmac.swtrigctrl.bits, channel.spec_id() as u32, true)
            } else {
                old(ctl).dmac.swtrigctrl.bits
            }),
            transfer_arm_frame(*old(ctl), *final(ctl)),
    {
        let id = channel.id() as usize;
        let n = dest.buffer_len() as u16;
        let src_inc = source.incrementing();
        let dst_inc = dest.incrementing();
        let btctrl: u16 = if src_inc && dst_inc {
            0x0C01u16
        } else if src_inc {
            0x0401u16
        } else if dst_inc {
            0x0801u16
        } else {
            0x0001u16
        };
        ctl.descriptors[id] = TransferDescriptor {
            btctrl,
            btcnt: n,
            srcaddr: 0,
            dstaddr: 0,
            descaddr: 0,
        };
        ctl.writeback[id] = TransferDescriptor {
            btctrl: 0,
            btcnt: 0,
            srcaddr: 0,
            dstaddr: 0,
            descaddr: 0,
        };
        let prilvl = ctl.dmac.channel[id].chprilvl;
        let chctrla: u32 = ((1u32 << 1u32) | (trig_src.bits() << 8u32)) | (trig_act.bits()
            << 20u32);
        ctl.dmac.channel[id] = ChannelRegs {
            chctrla,
            chintenset: 0x03,
            chintflag: 0,
            chstatus: 0,
            chprilvl: prilvl,
        };
        ctl.wakers.clear(id);
        if matches!(trig_src, TriggerSource::Disable) {
            ctl.dmac.swtrigctrl.bits = with_bit32(ctl.dmac.swtrigctrl.bits, id as u32, true);
        }
        let transfer = Transfer { channel: rebrand_busy(channel), source, dest };
        transfer
    }

    /// One poll of the suspended operation: register the caller's
    /// continuation in the channel's waker slot, then re-check — and
    /// consume — the slot's readiness. Registration happens first, so a
    /// completion signal that fired at any point before the check is
    /// observed: the poll returns "ready" exactly when the completion
    /// signal has fired since arming (or since the last poll), and a
    /// wakeup can never fall between registration and the re-check.
    pub fn poll(
        &self,
        ctl: &mut DmaController<IrqsBound>,
        w: &core::task::Waker,
    ) -> (r: bool)
        requires
            old(ctl).wf(),
            self.wf(),
        ensures
            final(ctl).wf(),
            r == spec_check(
                spec_register_transition(old(ctl).wakers.spec_ready_at(self.spec_id() as int)),
            ).0,
            !final(ctl).wakers.spec_ready_at(self.spec_id() as int),
            forall|j: int|
                0 <= j < NUM_CHANNELS && j != self.spec_id() ==> final(ctl).wakers.spec_ready_at(
                    j,
                ) == old(ctl).wakers.spec_ready_at(j),
            transfer_poll_frame(*old(ctl), *final(ctl)),
    {
        let id = self.channel.id() as usize;
        ctl.wakers.register(id, w);
        ctl.wakers.ready(id)
    }

    /// Resume after the completion signal: inspect the write-back status
    /// and the channel's error record, clear the channel back to its idle
    /// state, and return the channel and both buffers together with the
    /// outcome — success, or the transfer error the hardware reported.
    pub fn complete(self, ctl: &mut DmaController<IrqsBound>) -> (r: (
        Channel<ReadyFuture>,
        TransferBuffer,
        TransferBuffer,
        Result<(), DmaError>,
    ))
        requires
            old(ctl).wf(),
            self.wf(),
            // the hardware has finished the block: the channel disabled itself
            !spec_bit32(
                old(ctl).dmac.channel@[self.spec_id() as int].chctrla,
                CHCTRLA_ENABLE,
            ),
        ensures
            final(ctl).wf(),
            r.0.spec_id() == self.spec_id(),
            r.0.wf(),
            r.1 == self.spec_source(),
            r.2 == self.spec_dest(),
            r.3 is Err <==> spec_bit8(
                old(ctl).dmac.channel@[self.spec_id() as int].chstatus,
                CHSTATUS_FERR,
            ),
            final(ctl).dmac.channel@ == old(ctl).dmac.channel@.update(
                self.spec_id() as int,
                ChannelRegs {
                    chctrla: 0u32,
                    chintenset: 0u8,
                    chintflag: 0u8,
                    chstatus: 0u8,
                    chprilvl: old(ctl).dmac.channel@[self.spec_id() as int].chprilvl,
                },
            ),
            final(ctl).writeback@ == old(ctl).writeback@.update(
                self.spec_id() as int,
                TransferDescriptor {
                    btctrl: 0u16,
                    btcnt: 0u16,
                    srcaddr: 0u32,
                    dstaddr: 0u32,
                    descaddr: 0u32,
                },
            ),
            transfer_complete_frame(*old(ctl), *final(ctl)),
    {
        let id = self.channel.id() as usize;
        let failed = get_bit8(ctl.dmac.channel[id].chstatus, CHSTATUS_FERR);
        let prilvl = ctl.dmac.channel[id].chprilvl;
        ctl.dmac.channel[id] = ChannelRegs {
            chctrla: 0,
            chintenset: 0,
            chintflag: 0,
            chstatus: 0,
            chprilvl: prilvl,
        };
        ctl.writeback[id] = TransferDescriptor {
            btctrl: 0,
            btcnt: 0,
            srcaddr: 0,
            dstaddr: 0,
            descaddr: 0,
        };
        let outcome: Result<(), DmaError> = if failed {
            Err(DmaError::TransferError)
        } else {
            Ok(())
        };
        (rebrand_ready(self.channel), self.source, self.dest, outcome)
    }

    /// Abandon the in-flight transfer: synchronously disable the
    /// channel's interrupts and the channel itself, invalidate its
    /// pending descriptor and write-back slot, drop any pending trigger or
    /// completion signal, and return the channel and both buffers. The
    /// channel is left idle and reusable, with no transfer silently armed
    /// and no stale completion flag for a later transfer to observe.
    pub fn cancel(self, ctl: &mut DmaController<IrqsBound>) -> (r: (
        Channel<ReadyFuture>,
        TransferBuffer,
        TransferBuffer,
    ))
        requires
            old(ctl).wf(),
            self.wf(),
        ensures
            final(ctl).wf(),
            r.0.spec_id() == self.spec_id(),
            r.0.wf(),
            r.1 == self.spec_source(),
            r.2 == self.spec_dest(),
            final(ctl).dmac.channel@ == old(ctl).dmac.channel@.update(
                self.spec_id() as int,
                ChannelRegs {
                    chctrla: 0u32,
                    chintenset: 0u8,
                    chintflag: 0u8,
                    chstatus: 0u8,
                    chprilvl: old(ctl).dmac.channel@[self.spec_id() as int].chprilvl,
                },
            ),
            final(ctl).descriptors@ == old(ctl).descriptors@.update(
                self.spec_id() as int,
                TransferDescriptor {
                    btctrl: 0u16,
                    btcnt: 0u16,
                    srcaddr: 0u32,
                    dstaddr: 0u32,
                    descaddr: 0u32,
                },
            ),
            final(ctl).writeback@ == old(ctl).writeback@.update(
                self.spec_id() as int,
                TransferDescriptor {
                    btctrl: 0u16,
                    btcnt: 0u16,
                    srcaddr: 0u32,
                    dstaddr: 0u32,
                    descaddr: 0u32,
                },
            ),
            final(ctl).dmac.swtrigctrl.bits == spec_with_bit32(
                old(ctl).dmac.swtrigctrl.bits,
                self.spec_id() as u32,
                false,
            ),
            final(ctl).dmac.intstatus.bits == spec_with_bit32(
                old(ctl).dmac.intstatus.bits,
                self.spec_id() as u32,
                false,
            ),
            !final(ctl).wakers.spec_ready_at(self.spec_id() as int),
            forall|j: int|
                0 <= j < NUM_CHANNELS && j != self.spec_id() ==> final(ctl).wakers.spec_ready_at(
                    j,
                ) == old(ctl).wakers.spec_ready_at(j),
            transfer_cancel_frame(*old(ctl), *final(ctl)),
    {
        let id = self.channel.id() as usize;
        let prilvl = ctl.dmac.channel[id].chprilvl;
        ctl.dmac.channel[id] = ChannelRegs {
            chctrla: 0,
            chintenset: 0,
            chintflag: 0,
            chstatus: 0,
            chprilvl: prilvl,
        };
        ctl.descriptors[id] = TransferDescriptor {
            btctrl: 0,
            btcnt: 0,
            srcaddr: 0,
            dstaddr: 0,
            descaddr: 0,
        };
        ctl.writeback[id] = TransferDescriptor {
            btctrl: 0,
            btcnt: 0,
            srcaddr: 0,
            dstaddr: 0,
            descaddr: 0,
        };
        ctl.dmac.swtrigctrl.bits = with_bit32(ctl.dmac.swtrigctrl.bits, id as u32, false);
        ctl.dmac.intstatus.bits = with_bit32(ctl.dmac.intstatus.bits, id as u32, false);
        ctl.wakers.clear(id);
        (rebrand_ready(self.channel), self.source, self.dest)
    }
}

/// The channel registers right after arming: enabled, with the trigger
/// configuration installed, both interrupts enabled, no stale flags, and
/// the arbitration level kept.
pub open spec fn spec_armed_channel_regs(
    pre: ChannelRegs,
    trig_src: TriggerSource,
    trig_act: TriggerAction,
) -> ChannelRegs {
    ChannelRegs {
        chctrla: ((1u32 << 1u32) | (trig_src.spec_bits() << 8u32)) | (trig_act.spec_bits()
            << 20u32),
        chintenset: 0x03u8,
        chintflag: 0u8,
        chstatus: 0u8,
        chprilvl: pre.chprilvl,
    }
}

/// Arming touches only its channel's descriptor slots, channel registers,
/// waker slot, and the software-trigger register.
pub open spec fn transfer_arm_frame(
    pre: DmaController<IrqsBound>,
    post: DmaController<IrqsBound>,
) -> bool {
    &&& post.dmac == (RegisterBlock {
        channel: post.dmac.channel,
        swtrigctrl: post.dmac.swtrigctrl,
        ..pre.dmac
    })
    &&& post.spec_split_done() == pre.spec_split_done()
}

/// A poll touches only the waker table.
pub open spec fn transfer_poll_frame(
    pre: DmaController<IrqsBound>,
    post: DmaController<IrqsBound>,
) -> bool {
    &&& post.dmac == pre.dmac
    &&& post.descriptors == pre.descriptors
    &&& post.writeback == pre.writeback
    &&& post.spec_split_done() == pre.spec_split_done()
}

/// Completing touches only the channel's registers and write-back slot.
pub open spec fn transfer_complete_frame(
    pre: DmaController<IrqsBound>,
    post: DmaController<IrqsBound>,
) -> bool {
    &&& post.dmac == (RegisterBlock { channel: post.dmac.channel, ..pre.dmac })
    &&& post.descriptors == pre.descriptors
    &&& post.wakers == pre.wakers
    &&& post.spec_split_done() == pre.spec_split_done()
}

/// Cancelling touches only its channel's state.
pub open spec fn transfer_cancel_frame(
    pre: DmaController<IrqsBound>,
    post: DmaController<IrqsBound>,
) -> bool {
    &&& post.dmac == (RegisterBlock {
        channel: post.dmac.channel,
        swtrigctrl: post.dmac.swtrigctrl,
        intstatus: post.dmac.intstatus,
        ..pre.dmac
    })
    &&& post.spec_split_done() == pre.spec_split_done()
}

/// Whether the interrupt handler has work on channel `ch`: the channel's
/// interrupt is pending in the summary register and a transfer-complete
/// or transfer-error flag is raised.
pub open spec fn spec_dmac_serviced(pre: DmaController<IrqsBound>, ch: int) -> bool {
    &&& spec_bit32(pre.dmac.intstatus.bits, ch as u32)
    &&& (spec_bit8(pre.dmac.channel@[ch].chintflag, 0) || spec_bit8(
        pre.dmac.channel@[ch].chintflag,
        1,
    ))
}

/// The channel's registers after the handler claims its completion and
/// error flags.
pub open spec fn spec_flags_cleared(c: ChannelRegs) -> ChannelRegs {
    ChannelRegs { chintflag: c.chintflag & 0xFCu8, ..c }
}

/// Service one channel: if its interrupt is pending and a completion or
/// error flag is raised, claim the flags, clear the pending summary bit,
/// and wake the channel's waker slot; otherwise change nothing.
fn service_one(ctl: &mut DmaController<IrqsBound>, ch: usize)
    requires
        old(ctl).wf(),
        ch < NUM_CHANNELS,
    ensures
        final(ctl).wf(),
        spec_dmac_serviced(*old(ctl), ch as int) ==> {
            &&& final(ctl).dmac.channel@ == old(ctl).dmac.channel@.update(
                ch as int,
                spec_flags_cleared(old(ctl).dmac.channel@[ch as int]),
            )
            &&& final(ctl).dmac.intstatus.bits == spec_with_bit32(
                old(ctl).dmac.intstatus.bits,
                ch as u32,
                false,
            )
            &&& final(ctl).wakers.spec_ready_at(ch as int)
            &&& forall|j: int|
                0 <= j < NUM_CHANNELS && j != ch ==> (#[trigger] final(ctl).wakers.spec_ready_at(
                    j,
                )) == old(ctl).wakers.spec_ready_at(j)
            &&& final(ctl).dmac == (RegisterBlock {
                channel: final(ctl).dmac.channel,
                intstatus: final(ctl).dmac.intstatus,
                ..old(ctl).dmac
            })
            &&& final(ctl).descriptors == old(ctl).descriptors
            &&& final(ctl).writeback == old(ctl).writeback
            &&& final(ctl).spec_split_done() == old(ctl).spec_split_done()
        },
        !spec_dmac_serviced(*old(ctl), ch as int) ==> *final(ctl) == *old(ctl),
{
    if !get_bit32(ctl.dmac.intstatus.bits, ch as u32) {
        return ;
    }
    let flags = ctl.dmac.channel[ch].chintflag;
    let terr = get_bit8(flags, 0);
    let tcmpl = get_bit8(flags, 1);
    if !terr && !tcmpl {
        return ;
    }
    let prev = ctl.dmac.channel[ch];
    ctl.dmac.channel[ch] = ChannelRegs {
        chctrla: prev.chctrla,
        chintenset: prev.chintenset,
        chintflag: prev.chintflag & 0xFCu8,
        chstatus: prev.chstatus,
        chprilvl: prev.chprilvl,
    };
    ctl.dmac.intstatus.bits = with_bit32(ctl.dmac.intstatus.bits, ch as u32, false);
    ctl.wakers.wake(ch);
}

/// The interrupt handler of the DMA controller: walk the channels whose
/// interrupts are pending, claim each one's transfer-complete or
/// transfer-error flag, and wake the channel's waker slot. It touches only
/// hardware status registers and the waker table — never a transfer's
/// buffers — and a spurious invocation with nothing pending changes
/// nothing.
pub fn on_interrupt(ctl: &mut DmaController<IrqsBound>)
    requires
        old(ctl).wf(),
    ensures
        final(ctl).wf(),
        forall|c: int|
            0 <= c < NUM_CHANNELS ==> (#[trigger] final(ctl).dmac.channel@[c]) == (if
            spec_dmac_serviced(*old(ctl), c) {
                spec_flags_cleared(old(ctl).dmac.channel@[c])
            } else {
                old(ctl).dmac.channel@[c]
            }),
        forall|c: int|
            0 <= c < NUM_CHANNELS ==> (#[trigger] final(ctl).wakers.spec_ready_at(c)) == (old(
                ctl,
            ).wakers.spec_ready_at(c) || spec_dmac_serviced(*old(ctl), c)),
        forall|p: u32|
            p < 32 ==> (#[trigger] spec_bit32(final(ctl).dmac.intstatus.bits, p)) == (if p
                < NUM_CHANNELS && spec_dmac_serviced(*old(ctl), p as int) {
                false
            } else {
                spec_bit32(old(ctl).dmac.intstatus.bits, p)
            }),
        final(ctl).dmac == (RegisterBlock {
            channel: final(ctl).dmac.channel,
            intstatus: final(ctl).dmac.intstatus,
            ..old(ctl).dmac
        }),
        final(ctl).descriptors == old(ctl).descriptors,
        final(ctl).writeback == old(ctl).writeback,
        final(ctl).spec_split_done() == old(ctl).spec_split_done(),
{
    let mut ch: usize = 0;
    while ch < NUM_CHANNELS
        invariant
            ch <= NUM_CHANNELS,
            ctl.wf(),
            forall|c: int|
                0 <= c < NUM_CHANNELS ==> (#[trigger] ctl.dmac.channel@[c]) == (if c < ch
                    && spec_dmac_serviced(*old(ctl), c) {
                    spec_flags_cleared(old(ctl).dmac.channel@[c])
                } else {
                    old(ctl).dmac.channel@[c]
                }),
            forall|c: int|
                0 <= c < NUM_CHANNELS ==> (#[trigger] ctl.wakers.spec_ready_at(c)) == (old(
                    ctl,
                ).wakers.spec_ready_at(c) || (c < ch && spec_dmac_serviced(*old(ctl), c))),
            forall|p: u32|
                p < 32 ==> (#[trigger] spec_bit32(ctl.dmac.intstatus.bits, p)) == (if p < ch && p
                    < NUM_CHANNELS && spec_dmac_serviced(*old(ctl), p as int) {
                    false
                } else {
                    spec_bit32(old(ctl).dmac.intstatus.bits, p)
                }),
            ctl.dmac == (RegisterBlock {
                channel: ctl.dmac.channel,
                intstatus: ctl.dmac.intstatus,
                ..old(ctl).dmac
            }),
            ctl.descriptors == old(ctl).descriptors,
            ctl.writeback == old(ctl).writeback,
            ctl.spec_split_done() == old(ctl).spec_split_done(),
        decreases NUM_CHANNELS - ch,
    {
        let ghost pre = *ctl;
        service_one(ctl, ch);
        proof {
            assert(spec_dmac_serviced(pre, ch as int) == spec_dmac_serviced(*old(ctl), ch as int));
            if spec_dmac_serviced(pre, ch as int) {
                assert forall|p: u32| p < 32 implies (#[trigger] spec_bit32(
                    ctl.dmac.intstatus.bits,
                    p,
                )) == (if p < ch + 1 && p < NUM_CHANNELS && spec_dmac_serviced(
                    *old(ctl),
                    p as int,
                ) {
                    false
                } else {
                    spec_bit32(old(ctl).dmac.intstatus.bits, p)
                }) by {
                    crate::dmac_regs::lemma_bit32_update(
                        pre.dmac.intstatus.bits,
                        ch as u32,
                        false,
                        p,
                    );
                }
            }
        }
        ch = ch + 1;
    }
}

/// The hardware's completion of the armed block transfer: every beat is
/// moved from the source buffer to the destination buffer, the write-back
/// slot records the finished block, the channel disables itself, its
/// transfer-complete flag rises, and the channel's interrupt becomes
/// pending in the controller's summary register. A deterministic harness
/// calls this to play the DMA engine.
pub fn hw_complete_transfer(ctl: &mut DmaController<IrqsBound>, t: &mut Transfer)
    requires
        old(ctl).wf(),
        old(t).wf(),
        old(ctl).descriptors@[old(t).spec_id() as int] == spec_descriptor_for(
            old(t).spec_source().spec_incrementing(),
            old(t).spec_dest().spec_incrementing(),
            old(t).spec_dest().spec_len(),
        ),
        spec_bit32(old(ctl).dmac.channel@[old(t).spec_id() as int].chctrla, 1),
    ensures
        final(ctl).wf(),
        final(t).wf(),
        final(t).spec_id() == old(t).spec_id(),
        final(t).spec_source() == old(t).spec_source(),
        final(t).spec_dest().spec_incrementing() == old(t).spec_dest().spec_incrementing(),
        final(t).spec_dest().spec_len() == old(t).spec_dest().spec_len(),
        final(t).spec_dest().spec_words() == spec_dest_after(
            old(t).spec_dest().spec_words(),
            old(t).spec_dest().spec_incrementing(),
            old(t).spec_source().spec_words(),
            old(t).spec_source().spec_incrementing(),
            old(t).spec_dest().spec_len(),
        ),
        final(ctl).dmac.channel@ == old(ctl).dmac.channel@.update(
            old(t).spec_id() as int,
            ChannelRegs {
                chctrla: spec_with_bit32(
                    old(ctl).dmac.channel@[old(t).spec_id() as int].chctrla,
                    1u32,
                    false,
                ),
                chintflag: spec_with_bit8(
                    old(ctl).dmac.channel@[old(t).spec_id() as int].chintflag,
                    1u8,
                    true,
                ),
                ..old(ctl).dmac.channel@[old(t).spec_id() as int]
            },
        ),
        final(ctl).writeback@ == old(ctl).writeback@.update(
            old(t).spec_id() as int,
            TransferDescriptor {
                btctrl: 0u16,
                btcnt: 0u16,
                srcaddr: 0u32,
                dstaddr: 0u32,
                descaddr: 0u32,
            },
        ),
        final(ctl).dmac.intstatus.bits == spec_with_bit32(
            old(ctl).dmac.intstatus.bits,
            old(t).spec_id() as u32,
            true,
        ),
        hw_step_frame(*old(ctl), *final(ctl)),
{
    let n = t.dest.len;
    if t.dest.incrementing {
        let mut i: usize = 0;
        while i < n
            invariant
                i <= n,
                t.dest.incrementing,
                t.dest.words@.len() == n,
                n == t.dest.len,
                t.dest.len == old(t).dest.len,
                t.source == old(t).source,
                t.channel == old(t).channel,
                old(t).wf(),
                *ctl == *old(ctl),
                forall|k: int|
                    0 <= k < i ==> (#[trigger] t.dest.words@[k]) == spec_read_beat(
                        old(t).spec_source().spec_words(),
                        old(t).spec_source().spec_incrementing(),
                        k,
                    ),
                forall|k: int|
                    i <= k < n ==> (#[trigger] t.dest.words@[k]) == old(
                        t,
                    ).spec_dest().spec_words()[k],
            decreases n - i,
        {
            let b = if t.source.incrementing {
                t.source.words[i]
            } else {
                t.source.words[0]
            };
            t.dest.words[i] = b;
            i = i + 1;
        }
        proof {
            assert(t.dest.words@ =~= spec_dest_after(
                old(t).spec_dest().spec_words(),
                true,
                old(t).spec_source().spec_words(),
                old(t).spec_source().spec_incrementing(),
                n as int,
            ));
        }
    } else {
        let b = if t.source.incrementing {
            t.source.words[n - 1]
        } else {
            t.source.words[0]
        };
        t.dest.words[0] = b;
    }
    let id = t.channel.id() as usize;
    let prev = ctl.dmac.channel[id];
    ctl.dmac.channel[id] = ChannelRegs {
        chctrla: with_bit32(prev.chctrla, 1u32, false),
        chintenset: prev.chintenset,
        chintflag: with_bit8(prev.chintflag, 1u8, true),
        chstatus: prev.chstatus,
        chprilvl: prev.chprilvl,
    };
    ctl.writeback[id] = TransferDescriptor {
        btctrl: 0,
        btcnt: 0,
        srcaddr: 0,
        dstaddr: 0,
        descaddr: 0,
    };
    ctl.dmac.intstatus.bits = with_bit32(ctl.dmac.intstatus.bits, id as u32, true);
}

/// The hardware's failure of the armed block transfer: no data moves, the
/// channel disables itself, its transfer-error flag rises, the error is
/// recorded in the channel status, and the channel's interrupt becomes
/// pending. A deterministic harness calls this to play a bus fault.
pub fn hw_error_transfer(ctl: &mut DmaController<IrqsBound>, t: &Transfer)
    requires
        old(ctl).wf(),
        t.wf(),
    ensures
        final(ctl).wf(),
        final(ctl).dmac.channel@ == old(ctl).dmac.channel@.update(
            t.spec_id() as int,
            ChannelRegs {
                chctrla: spec_with_bit32(
                    old(ctl).dmac.channel@[t.spec_id() as int].chctrla,
                    1u32,
                    false,
                ),
                chintflag: spec_with_bit8(
                    old(ctl).dmac.channel@[t.spec_id() as int].chintflag,
                    0u8,
                    true,
                ),
                chstatus: spec_with_bit8(
                    old(ctl).dmac.channel@[t.spec_id() as int].chstatus,
                    2u8,
                    true,
                ),
                ..old(ctl).dmac.channel@[t.spec_id() as int]
            },
        ),
        final(ctl).writeback@ == old(ctl).writeback@.update(
            t.spec_id() as int,
            TransferDescriptor {
                btctrl: 0u16,
                btcnt: 0u16,
                srcaddr: 0u32,
                dstaddr: 0u32,
                descaddr: 0u32,
            },
        ),
        final(ctl).dmac.intstatus.bits == spec_with_bit32(
            old(ctl).dmac.intstatus.bits,
            t.spec_id() as u32,
            true,
        ),
        hw_step_frame(*old(ctl), *final(ctl)),
{
    let id = t.channel.id() as usize;
    let prev = ctl.dmac.channel[id];
    ctl.dmac.channel[id] = ChannelRegs {
        chctrla: with_bit32(prev.chctrla, 1u32, false),
        chintenset: prev.chintenset,
        chintflag: with_bit8(prev.chintflag, 0u8, true),
        chstatus: with_bit8(prev.chstatus, 2u8, true),
        chprilvl: prev.chprilvl,
    };
    ctl.writeback[id] = TransferDescriptor {
        btctrl: 0,
        btcnt: 0,
        srcaddr: 0,
        dstaddr: 0,
        descaddr: 0,
    };
    ctl.dmac.intstatus.bits = with_bit32(ctl.dmac.intstatus.bits, id as u32, true);
}

/// A hardware step touches only channel registers, the interrupt summary,
/// and the write-back memory.
pub open spec fn hw_step_frame(
    pre: DmaController<IrqsBound>,
    post: DmaController<IrqsBound>,
) -> bool {
    &&& post.dmac == (RegisterBlock {
        channel: post.dmac.channel,
        intstatus: post.dmac.intstatus,
        ..pre.dmac
    })
    &&& post.descriptors == pre.descriptors
    &&& post.wakers == pre.wakers
    &&& post.spec_split_done() == pre.spec_split_done()
}

/// Move a ready channel into the busy stage; only arming does this.
fn rebrand_busy(c: Channel<ReadyFuture>) -> (r: Channel<Busy>)
    ensures
        r.spec_id() == c.spec_id(),
{
    crate::dmac::rebrand(c)
}

/// Move a busy channel back to the ready stage; only completion and
/// cancellation do this.
fn rebrand_ready(c: Channel<Busy>) -> (r: Channel<ReadyFuture>)
    ensures
        r.spec_id() == c.spec_id(),
{
    crate::dmac::rebrand(c)
}

} // verus!
