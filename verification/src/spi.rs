//! The serial engine configured as an SPI bus, with word-by-word and
//! DMA-backed asynchronous transfers.
//!
//! The word-by-word path exchanges one word per step over the data
//! register, against the received-word sequence the harness loads into
//! the model's receive stream; every word written is recorded in the
//! transmit log, so the contracts pin down exactly what crossed the bus
//! in each direction. The DMA path arms one transfer per direction and,
//! before completion may be claimed, demands the engine's own
//! transmit-complete flag — returning earlier could deassert the chip
//! select in the middle of the final word.
//!
//! Waiting is the registry/recheck protocol of the waker slots: the
//! engine's interrupt handler disables the interrupts it observed and
//! wakes the direction's slot, and the poll step registers its
//! continuation before re-checking the flags.

use vstd::prelude::*;

use crate::dmac::{Channel, DmaController, IrqsBound, NoneT, ReadyFuture, TriggerAction};
use crate::dmac_regs::{get_bit8, spec_bit8, spec_bit16};
use crate::interrupts::{Binding, InterruptId, Nvic};
use crate::sercom::{
    sercom_rx_trigger, sercom_tx_trigger, sercom_vector, spec_sercom_rx_trigger,
    spec_sercom_tx_trigger, spec_sercom_vector, SercomPtr, SercomRegs, NUM_SERCOM,
};
use crate::transfer::{DmaError, DummyBuffer, Transfer, TransferBuffer};
use crate::waker::WakerSlot;

verus! {

/// Handler identity of the SPI interrupt handler, as recorded in a
/// binding certificate.
pub const SPI_HANDLER: u64 = 3;

/// Interrupt flag: the data register is empty, a word may be written.
pub const FLAG_DRE: u8 = 0x01;

/// Interrupt flag: the last word has been shifted out completely.
pub const FLAG_TXC: u8 = 0x02;

/// Interrupt flag: a received word is available.
pub const FLAG_RXC: u8 = 0x04;

/// Interrupt flag: an error condition is recorded in the status register.
pub const FLAG_ERROR: u8 = 0x80;

/// The flags that belong to the receive direction's waker slot.
pub const RX_FLAGS: u8 = 0x84;

/// The flags that belong to the transmit direction's waker slot.
pub const TX_FLAGS: u8 = 0x03;

/// Status bit: receive buffer overflow.
pub const STATUS_BUFOVF: u16 = 0x0004;

/// Status bit: transaction length error.
pub const STATUS_LENERR: u16 = 0x0800;

/// A typed SPI failure, surfaced to the caller rather than retried.
#[derive(Clone, Copy, Debug, PartialEq, Eq, Structural)]
pub enum Error {
    /// A received word was lost to a buffer overflow.
    Overflow,
    /// The transaction length is not supported.
    LengthError,
    /// The DMA engine reported a transfer error.
    Dma(DmaError),
}

/// The fault recorded for the engine, if any: nothing unless the error
/// flag is raised, then by the status register — an overflow outranks a
/// length error; an error flag with no recorded cause is spurious.
pub open spec fn spec_spi_fault(intflag: u8, status: u16) -> Option<Error> {
    if !spec_bit8(intflag, 7) {
        None
    } else if spec_bit16(status, 2) {
        Some(Error::Overflow)
    } else if spec_bit16(status, 11) {
        Some(Error::LengthError)
    } else {
        None
    }
}

/// An enabled SPI engine: its registers, plus the model of the wire — the
/// words received so far pending in the receive stream, and the log of
/// every word shifted out.
pub struct Spi {
    /// The underlying serial engine's registers.
    pub regs: SercomRegs,
    /// The serial engine instance number.
    pub num: u8,
    /// Received words not yet read, in arrival order; a deterministic
    /// harness plays the bus peer by appending here.
    pub rx_fifo: Vec<u8>,
    /// Every word shifted out, in order.
    pub tx_log: Vec<u8>,
}

impl Spi {
    /// Take ownership of an enabled serial engine instance.
    pub fn new(regs: SercomRegs, num: u8) -> (r: Spi)
        ensures
            r.regs == regs,
            r.num == num,
            r.rx_fifo@.len() == 0,
            r.tx_log@.len() == 0,
    {
        Spi { regs, num, rx_fifo: Vec::new(), tx_log: Vec::new() }
    }

    /// The harness's side of the wire: a received word arrives, and the
    /// receive-complete flag rises.
    pub fn hw_receive_word(&mut self, word: u8)
        ensures
            final(self).rx_fifo@ == old(self).rx_fifo@.push(word),
            final(self).regs == (SercomRegs {
                intflag: old(self).regs.intflag | 0x04u8,
                ..old(self).regs
            }),
            final(self).tx_log == old(self).tx_log,
            final(self).num == old(self).num,
    {
        self.rx_fifo.push(word);
        self.regs.intflag = self.regs.intflag | 0x04u8;
    }

    /// The harness's side of the wire: the shifter runs dry, and the
    /// data-register-empty and transmit-complete flags rise.
    pub fn hw_tx_ready(&mut self)
        ensures
            final(self).regs == (SercomRegs {
                intflag: old(self).regs.intflag | 0x03u8,
                ..old(self).regs
            }),
            final(self).rx_fifo == old(self).rx_fifo,
            final(self).tx_log == old(self).tx_log,
            final(self).num == old(self).num,
    {
        self.regs.intflag = self.regs.intflag | 0x03u8;
    }

    /// Upgrade the engine for asynchronous use. Demands the [`Binding`]
    /// certificate wiring the SPI handler to this instance's vector, then
    /// clears any stale pending state and unmasks the vector. Words read
    /// without a word to send transmit a no-op word, zero by default.
    pub fn into_future(self, binding: Binding, nvic: &mut Nvic) -> (r: SpiFuture<NoneT, NoneT>)
        requires
            old(nvic).wf(),
            self.num < NUM_SERCOM,
            binding.spec_vectors() == seq![spec_sercom_vector(self.num)],
            binding.spec_handler() == SPI_HANDLER,
        ensures
            final(nvic).wf(),
            crate::interrupts::spec_unpend_then_enable_effect(
                *old(nvic),
                *final(nvic),
                seq![spec_sercom_vector(self.num)],
            ),
            r.spi == self,
            r.nop_word == 0,
            !r.rx_slot.spec_ready(),
            !r.tx_slot.spec_ready(),
    {
        let mut vecs: Vec<InterruptId> = Vec::new();
        vecs.push(sercom_vector(self.num));
        proof {
            assert(vecs@ == seq![spec_sercom_vector(self.num)]);
        }
        crate::interrupts::apply_unpend(nvic, &vecs);
        let ghost mid = *nvic;
        crate::interrupts::apply_enable(nvic, &vecs);
        proof {
            let vs = seq![spec_sercom_vector(self.num)];
            assert forall|j: int|
                0 <= j < crate::interrupts::NUM_VECTORS implies (#[trigger] nvic.enabled@[j])
                == (old(nvic).enabled@[j] || crate::interrupts::covers(vs, j)) by {
                assert(nvic.enabled@[j] == (mid.enabled@[j] || crate::interrupts::covers(vs, j)));
                assert(mid.enabled@[j] == old(nvic).enabled@[j]);
            }
            assert forall|j: int|
                0 <= j < crate::interrupts::NUM_VECTORS implies (#[trigger] nvic.pending@[j])
                == (old(nvic).pending@[j] && !crate::interrupts::covers(vs, j)) by {
                assert(mid.pending@[j] == (old(nvic).pending@[j] && !crate::interrupts::covers(
                    vs,
                    j,
                )));
                assert(nvic.pending@[j] == mid.pending@[j]);
            }
        }
        SpiFuture {
            spi: self,
            nop_word: 0,
            rx_channel: NoneT,
            tx_channel: NoneT,
            rx_slot: WakerSlot::new(),
            tx_slot: WakerSlot::new(),
        }
    }
}

/// The asynchronous SPI bus: the engine, the configured no-op word, the
/// optional DMA channel per direction, and one waker slot per direction.
pub struct SpiFuture<R, T> {
    /// The enabled engine.
    pub spi: Spi,
    /// The word transmitted by read-only exchanges.
    pub nop_word: u8,
    /// The receive-direction DMA channel, if any.
    pub rx_channel: R,
    /// The transmit-direction DMA channel, if any.
    pub tx_channel: T,
    /// The receive direction's suspension record.
    pub rx_slot: WakerSlot,
    /// The transmit direction's suspension record.
    pub tx_slot: WakerSlot,
}

impl<R, T> SpiFuture<R, T> {
    /// Handle to the engine's data register, for DMA transfers.
    pub fn sercom_ptr(&self) -> (r: SercomPtr)
        ensures
            r == SercomPtr(self.spi.num),
    {
        SercomPtr(self.spi.num)
    }

    /// Return the underlying engine.
    pub fn free(self) -> (r: Spi)
        ensures
            r == self.spi,
    {
        self.spi
    }

    /// Configure the no-op word transmitted by read-only exchanges.
    pub fn nop_word(&mut self, word: u8)
        ensures
            *final(self) == (SpiFuture { nop_word: word, ..*old(self) }),
    {
        self.nop_word = word;
    }

    /// One poll of a flag wait: if one of the wanted flags is already
    /// raised, resume at once; otherwise disable all of the engine's
    /// interrupts, register the continuation with the direction slots the
    /// wanted flags belong to, enable exactly the wanted interrupts, and
    /// re-check the flags before yielding — so a flag raised at any point
    /// before the re-check is observed, never lost.
    pub fn poll_flags(&mut self, wanted: u8, w: &core::task::Waker) -> (r: bool)
        ensures
            r == (old(self).spi.regs.intflag & wanted != 0),
            r ==> *final(self) == *old(self),
            !r ==> final(self).spi.regs == (SercomRegs {
                intenset: wanted,
                ..old(self).spi.regs
            }),
            !r ==> final(self).spi.rx_fifo == old(self).spi.rx_fifo && final(self).spi.tx_log
                == old(self).spi.tx_log && final(self).spi.num == old(self).spi.num,
            !r ==> final(self).nop_word == old(self).nop_word,
            final(self).rx_slot.spec_ready() == old(self).rx_slot.spec_ready(),
            final(self).tx_slot.spec_ready() == old(self).tx_slot.spec_ready(),
    {
        if self.spi.regs.intflag & wanted != 0 {
            return true;
        }
        self.spi.regs.intenset = 0;
        if wanted & RX_FLAGS != 0 {
            self.rx_slot.register(w);
        }
        if wanted & TX_FLAGS != 0 {
            self.tx_slot.register(w);
        }
        self.spi.regs.intenset = wanted;
        let pending = self.spi.regs.intflag;
        pending & wanted != 0
    }

    /// Surface the fault recorded for the engine, if any.
    pub fn read_flags_errors(&self) -> (r: Result<(), Error>)
        ensures
            ({
                let fault = spec_spi_fault(self.spi.regs.intflag, self.spi.regs.status);
                match fault {
                    Some(e) => r == Result::<(), Error>::Err(e),
                    None => r is Ok,
                }
            }),
    {
        if !get_bit8(self.spi.regs.intflag, 7) {
            return Ok(());
        }
        if crate::dmac_regs::get_bit16(self.spi.regs.status, 2) {
            Err(Error::Overflow)
        } else if crate::dmac_regs::get_bit16(self.spi.regs.status, 11) {
            Err(Error::LengthError)
        } else {
            Ok(())
        }
    }
}

/// What one full-duplex word exchange requires of the model: the engine
/// can accept a word, the previous word has left the shifter, and a
/// received word is pending.
pub open spec fn spec_word_ready(s: Spi) -> bool {
    &&& spec_bit8(s.regs.intflag, 0)
    &&& spec_bit8(s.regs.intflag, 1)
    &&& spec_bit8(s.regs.intflag, 2)
    &&& s.rx_fifo@.len() >= 1
}

impl SpiFuture<NoneT, NoneT> {
    /// Attach a DMA channel to the receive direction.
    pub fn with_rx_dma_channel(self, rx_channel: Channel<ReadyFuture>) -> (r: SpiFuture<
        Channel<ReadyFuture>,
        NoneT,
    >)
        ensures
            r.spi == self.spi,
            r.nop_word == self.nop_word,
            r.rx_channel == rx_channel,
            r.rx_slot == self.rx_slot,
            r.tx_slot == self.tx_slot,
    {
        SpiFuture {
            spi: self.spi,
            nop_word: self.nop_word,
            rx_channel,
            tx_channel: self.tx_channel,
            rx_slot: self.rx_slot,
            tx_slot: self.tx_slot,
        }
    }

    /// Attach a DMA channel to the transmit direction.
    pub fn with_tx_dma_channel(self, tx_channel: Channel<ReadyFuture>) -> (r: SpiFuture<
        NoneT,
        Channel<ReadyFuture>,
    >)
        ensures
            r.spi == self.spi,
            r.nop_word == self.nop_word,
            r.tx_channel == tx_channel,
            r.rx_slot == self.rx_slot,
            r.tx_slot == self.tx_slot,
    {
        SpiFuture {
            spi: self.spi,
            nop_word: self.nop_word,
            rx_channel: self.rx_channel,
            tx_channel,
            rx_slot: self.rx_slot,
            tx_slot: self.tx_slot,
        }
    }

    /// Attach a DMA channel to each direction.
    pub fn with_dma_channels(
        self,
        rx_channel: Channel<ReadyFuture>,
        tx_channel: Channel<ReadyFuture>,
    ) -> (r: SpiFuture<Channel<ReadyFuture>, Channel<ReadyFuture>>)
        ensures
            r.spi == self.spi,
            r.nop_word == self.nop_word,
            r.rx_channel == rx_channel,
            r.tx_channel == tx_channel,
            r.rx_slot == self.rx_slot,
            r.tx_slot == self.tx_slot,
    {
        SpiFuture {
            spi: self.spi,
            nop_word: self.nop_word,
            rx_channel,
            tx_channel,
            rx_slot: self.rx_slot,
            tx_slot: self.tx_slot,
        }
    }

    /// Exchange one word on the bus: transmit `to_send` and return the
    /// received word. A fault recorded for the engine is surfaced instead,
    /// with nothing transmitted.
    pub fn transfer_word_in_place(&mut self, to_send: u8) -> (r: Result<u8, Error>)
        requires
            spec_word_ready(old(self).spi),
        ensures
            ({
                let fault = spec_spi_fault(old(self).spi.regs.intflag, old(self).spi.regs.status);
                match fault {
                    Some(e) => r == Result::<u8, Error>::Err(e) && *final(self) == *old(self),
                    None => {
                        &&& r == Result::<u8, Error>::Ok(old(self).spi.rx_fifo@[0])
                        &&& final(self).spi.tx_log@ == old(self).spi.tx_log@.push(to_send)
                        &&& final(self).spi.rx_fifo@ == old(self).spi.rx_fifo@.drop_first()
                        &&& final(self).spi.regs == (SercomRegs {
                            data: old(self).spi.rx_fifo@[0] as u16,
                            ..old(self).spi.regs
                        })
                        &&& final(self).spi.num == old(self).spi.num
                        &&& final(self).nop_word == old(self).nop_word
                        &&& final(self).rx_slot == old(self).rx_slot
                        &&& final(self).tx_slot == old(self).tx_slot
                    },
                }
            }),
    {
        match self.read_flags_errors() {
            Err(e) => Err(e),
            Ok(()) => {
                self.spi.tx_log.push(to_send);
                let word = self.spi.rx_fifo.remove(0);
                self.spi.regs.data = word as u16;
                Ok(word)
            },
        }
    }

    /// Read words, one exchange per word, transmitting the no-op word for
    /// each: `buffer` is overwritten with the next `buffer.len()` received
    /// words.
    pub fn read(&mut self, buffer: &mut Vec<u8>) -> (r: Result<(), Error>)
        requires
            spec_word_ready(old(self).spi),
            spec_spi_fault(old(self).spi.regs.intflag, old(self).spi.regs.status) is None,
            old(self).spi.rx_fifo@.len() >= old(buffer)@.len(),
        ensures
            r is Ok,
            final(buffer)@ == old(self).spi.rx_fifo@.take(old(buffer)@.len() as int),
            final(self).spi.rx_fifo@ == old(self).spi.rx_fifo@.skip(old(buffer)@.len() as int),
            final(self).spi.tx_log@ == old(self).spi.tx_log@ + Seq::new(
                old(buffer)@.len(),
                |i: int| old(self).nop_word,
            ),
            final(self).nop_word == old(self).nop_word,
            final(self).spi.num == old(self).spi.num,
    {
        let n = buffer.len();
        let mut i: usize = 0;
        while i < n
            invariant
                i <= n,
                n == buffer.len(),
                self.spi.regs == (SercomRegs { data: self.spi.regs.data, ..old(self).spi.regs }),
                spec_spi_fault(old(self).spi.regs.intflag, old(self).spi.regs.status) is None,
                spec_bit8(old(self).spi.regs.intflag, 0),
                spec_bit8(old(self).spi.regs.intflag, 1),
                spec_bit8(old(self).spi.regs.intflag, 2),
                self.spi.rx_fifo@ == old(self).spi.rx_fifo@.skip(i as int),
                old(self).spi.rx_fifo@.len() >= n,
                buffer@.len() == n,
                forall|k: int|
                    0 <= k < i ==> (#[trigger] buffer@[k]) == old(self).spi.rx_fifo@[k],
                forall|k: int| i <= k < n ==> (#[trigger] buffer@[k]) == old(buffer)@[k],
                self.spi.tx_log@ == old(self).spi.tx_log@ + Seq::new(
                    i as nat,
                    |k: int| old(self).nop_word,
                ),
                self.nop_word == old(self).nop_word,
                self.spi.num == old(self).spi.num,
            decreases n - i,
        {
            let nop = self.nop_word;
            let word = match self.transfer_word_in_place(nop) {
                Ok(w) => w,
                Err(e) => {
                    proof {
                        assert(false);
                    }
                    return Err(e);
                },
            };
            buffer[i] = word;
            proof {
                assert(self.spi.tx_log@ =~= old(self).spi.tx_log@ + Seq::new(
                    (i + 1) as nat,
                    |k: int| old(self).nop_word,
                ));
                assert(self.spi.rx_fifo@ =~= old(self).spi.rx_fifo@.skip(i + 1));
                assert(old(self).spi.rx_fifo@.skip(i as int)[0] == old(self).spi.rx_fifo@[
                    i as int
                ]);
            }
            i = i + 1;
        }
        proof {
            assert(buffer@ =~= old(self).spi.rx_fifo@.take(n as int));
        }
        Ok(())
    }

    /// Write words, one exchange per word; each received word is read and
    /// discarded so the receive buffer cannot overflow.
    pub fn write(&mut self, words: &Vec<u8>) -> (r: Result<(), Error>)
        requires
            spec_word_ready(old(self).spi),
            spec_spi_fault(old(self).spi.regs.intflag, old(self).spi.regs.status) is None,
            old(self).spi.rx_fifo@.len() >= words@.len(),
        ensures
            r is Ok,
            final(self).spi.tx_log@ == old(self).spi.tx_log@ + words@,
            final(self).spi.rx_fifo@ == old(self).spi.rx_fifo@.skip(words@.len() as int),
            final(self).nop_word == old(self).nop_word,
            final(self).spi.num == old(self).spi.num,
    {
        let n = words.len();
        let mut i: usize = 0;
        while i < n
            invariant
                i <= n,
                n == words.len(),
                self.spi.regs == (SercomRegs { data: self.spi.regs.data, ..old(self).spi.regs }),
                spec_spi_fault(old(self).spi.regs.intflag, old(self).spi.regs.status) is None,
                spec_bit8(old(self).spi.regs.intflag, 0),
                spec_bit8(old(self).spi.regs.intflag, 1),
                spec_bit8(old(self).spi.regs.intflag, 2),
                self.spi.rx_fifo@ == old(self).spi.rx_fifo@.skip(i as int),
                old(self).spi.rx_fifo@.len() >= n,
                self.spi.tx_log@ == old(self).spi.tx_log@ + words@.take(i as int),
                self.nop_word == old(self).nop_word,
                self.spi.num == old(self).spi.num,
            decreases n - i,
        {
            let word = words[i];
            match self.transfer_word_in_place(word) {
                Ok(_) => {},
                Err(e) => {
                    proof {
                        assert(false);
                    }
                    return Err(e);
                },
            }
            proof {
                assert(self.spi.tx_log@ =~= old(self).spi.tx_log@ + words@.take(i + 1));
                assert(self.spi.rx_fifo@ =~= old(self).spi.rx_fifo@.skip(i + 1));
            }
            i = i + 1;
        }
        proof {
            assert(words@.take(n as int) == words@);
        }
        Ok(())
    }

    /// Exchange word by word: `read_buf` receives one word per exchange,
    /// transmitting the corresponding word of `write_words`, padded with
    /// the no-op word when `read_buf` is the longer; words of
    /// `write_words` beyond `read_buf`'s length are ignored.
    pub fn transfer_word_by_word(&mut self, read_buf: &mut Vec<u8>, write_words: &Vec<u8>) -> (r:
        Result<(), Error>)
        requires
            spec_word_ready(old(self).spi),
            spec_spi_fault(old(self).spi.regs.intflag, old(self).spi.regs.status) is None,
            old(self).spi.rx_fifo@.len() >= old(read_buf)@.len(),
        ensures
            r is Ok,
            final(read_buf)@ == old(self).spi.rx_fifo@.take(old(read_buf)@.len() as int),
            final(self).spi.rx_fifo@ == old(self).spi.rx_fifo@.skip(
                old(read_buf)@.len() as int,
            ),
            final(self).spi.tx_log@ == old(self).spi.tx_log@ + Seq::new(
                old(read_buf)@.len(),
                |i: int|
                    if i < write_words@.len() {
                        write_words@[i]
                    } else {
                        old(self).nop_word
                    },
            ),
            final(self).nop_word == old(self).nop_word,
            final(self).spi.num == old(self).spi.num,
    {
        let n = read_buf.len();
        let mut i: usize = 0;
        while i < n
            invariant
                i <= n,
                n == read_buf.len(),
                self.spi.regs == (SercomRegs { data: self.spi.regs.data, ..old(self).spi.regs }),
                spec_spi_fault(old(self).spi.regs.intflag, old(self).spi.regs.status) is None,
                spec_bit8(old(self).spi.regs.intflag, 0),
                spec_bit8(old(self).spi.regs.intflag, 1),
                spec_bit8(old(self).spi.regs.intflag, 2),
                self.spi.rx_fifo@ == old(self).spi.rx_fifo@.skip(i as int),
                old(self).spi.rx_fifo@.len() >= n,
                read_buf@.len() == n,
                forall|k: int|
                    0 <= k < i ==> (#[trigger] read_buf@[k]) == old(self).spi.rx_fifo@[k],
                forall|k: int| i <= k < n ==> (#[trigger] read_buf@[k]) == old(read_buf)@[k],
                self.spi.tx_log@ == old(self).spi.tx_log@ + Seq::new(
                    i as nat,
                    |k: int|
                        if k < write_words@.len() {
                            write_words@[k]
                        } else {
                            old(self).nop_word
                        },
                ),
                self.nop_word == old(self).nop_word,
                self.spi.num == old(self).spi.num,
            decreases n - i,
        {
            let to_send = if i < write_words.len() {
                write_words[i]
            } else {
                self.nop_word
            };
            let word = match self.transfer_word_in_place(to_send) {
                Ok(w) => w,
                Err(e) => {
                    proof {
                        assert(false);
                    }
                    return Err(e);
                },
            };
            read_buf[i] = word;
            proof {
                assert(self.spi.tx_log@ =~= old(self).spi.tx_log@ + Seq::new(
                    (i + 1) as nat,
                    |k: int|
                        if k < write_words@.len() {
                            write_words@[k]
                        } else {
                            old(self).nop_word
                        },
                ));
                assert(self.spi.rx_fifo@ =~= old(self).spi.rx_fifo@.skip(i + 1));
            }
            i = i + 1;
        }
        proof {
            assert(read_buf@ =~= old(self).spi.rx_fifo@.take(n as int));
        }
        Ok(())
    }
}

/// The engine's interrupt handler: for each direction with an enabled
/// interrupt among the pending flags, disable the pending interrupts —
/// without clearing the flags, which the woken operation will claim — and
/// wake that direction's waker slot.
pub struct InterruptHandler;

impl InterruptHandler {
    /// Service one firing of the engine's interrupt.
    pub fn service<R, T>(fut: &mut SpiFuture<R, T>)
        ensures
            ({
                let pending = old(fut).spi.regs.intflag;
                let enabled = old(fut).spi.regs.intenset;
                let rx_event = pending & enabled & RX_FLAGS != 0;
                let tx_event = pending & enabled & TX_FLAGS != 0;
                &&& final(fut).spi.regs == (SercomRegs {
                    intenset: if rx_event || tx_event {
                        enabled & !pending
                    } else {
                        enabled
                    },
                    ..old(fut).spi.regs
                })
                &&& final(fut).rx_slot.spec_ready() == (old(fut).rx_slot.spec_ready()
                    || rx_event)
                &&& final(fut).tx_slot.spec_ready() == (old(fut).tx_slot.spec_ready()
                    || tx_event)
                &&& final(fut).spi.rx_fifo == old(fut).spi.rx_fifo
                &&& final(fut).spi.tx_log == old(fut).spi.tx_log
                &&& final(fut).spi.num == old(fut).spi.num
                &&& final(fut).nop_word == old(fut).nop_word
            }),
    {
        let pending = fut.spi.regs.intflag;
        let enabled = fut.spi.regs.intenset;
        let rx_event = pending & enabled & RX_FLAGS != 0;
        let tx_event = pending & enabled & TX_FLAGS != 0;
        if rx_event {
            fut.spi.regs.intenset = enabled & !pending;
            fut.rx_slot.wake();
        }
        if tx_event {
            fut.spi.regs.intenset = enabled & !pending;
            fut.tx_slot.wake();
        }
    }
}

impl crate::interrupts::Handler for InterruptHandler {
    type Context = SpiFuture<NoneT, NoneT>;

    fn on_interrupt(ctx: &mut SpiFuture<NoneT, NoneT>) {
        InterruptHandler::service(ctx);
    }
}

/// A duplex DMA exchange in flight: the engine, and one armed transfer
/// per direction. The engine and both channels come back only from
/// [`SpiDmaTransfer::finish`], after the hardware has observably
/// completed both directions and the engine has finished shifting.
pub struct SpiDmaTransfer {
    /// The enabled engine.
    pub spi: Spi,
    /// The configured no-op word.
    pub nop_word: u8,
    /// The receive direction's suspension record.
    pub rx_slot: WakerSlot,
    /// The transmit direction's suspension record.
    pub tx_slot: WakerSlot,
    /// The armed peripheral-to-memory transfer.
    pub rx: Transfer,
    /// The armed memory-to-peripheral transfer.
    pub tx: Transfer,
}

impl SpiFuture<Channel<ReadyFuture>, Channel<ReadyFuture>> {
    /// Exchange words in and out of the bus simultaneously using DMA:
    /// arm a peripheral-to-memory transfer that drains received words
    /// into `read`, and a memory-to-peripheral transfer that feeds
    /// `write` to the shifter, each triggered beat by beat by its
    /// direction's data-ready signal. Equal lengths are required — with
    /// different lengths the exchange must go word by word, so that the
    /// shorter direction can be padded.
    pub fn transfer_dma(
        self,
        read: Vec<u8>,
        write: Vec<u8>,
        ctl: &mut DmaController<IrqsBound>,
    ) -> (r: SpiDmaTransfer)
        requires
            old(ctl).wf(),
            self.rx_channel.wf(),
            self.tx_channel.wf(),
            self.rx_channel.spec_id() != self.tx_channel.spec_id(),
            read@.len() == write@.len(),
            0 < read@.len() <= 0xFFFF,
            self.spi.num < NUM_SERCOM,
        ensures
            final(ctl).wf(),
            r.spi == self.spi,
            r.nop_word == self.nop_word,
            r.rx.wf(),
            r.tx.wf(),
            r.rx.spec_id() == self.rx_channel.spec_id(),
            r.tx.spec_id() == self.tx_channel.spec_id(),
            r.rx.spec_dest().spec_incrementing(),
            r.rx.spec_dest().spec_words() == read@,
            !r.rx.spec_source().spec_incrementing(),
            r.tx.spec_source().spec_incrementing(),
            r.tx.spec_source().spec_words() == write@,
            !r.tx.spec_dest().spec_incrementing(),
            final(ctl).descriptors@ == old(ctl).descriptors@.update(
                self.rx_channel.spec_id() as int,
                crate::transfer::spec_descriptor_for(false, true, read@.len() as int),
            ).update(
                self.tx_channel.spec_id() as int,
                crate::transfer::spec_descriptor_for(true, false, read@.len() as int),
            ),
            final(ctl).dmac.channel@[self.rx_channel.spec_id() as int]
                == crate::transfer::spec_armed_channel_regs(
                old(ctl).dmac.channel@[self.rx_channel.spec_id() as int],
                spec_sercom_rx_trigger(self.spi.num),
                TriggerAction::Beat,
            ),
            final(ctl).dmac.channel@[self.tx_channel.spec_id() as int]
                == crate::transfer::spec_armed_channel_regs(
                old(ctl).dmac.channel@[self.tx_channel.spec_id() as int],
                spec_sercom_tx_trigger(self.spi.num),
                TriggerAction::Beat,
            ),
            !final(ctl).wakers.spec_ready_at(self.rx_channel.spec_id() as int),
            !final(ctl).wakers.spec_ready_at(self.tx_channel.spec_id() as int),
    {
        let n = read.len();
        let rx_trigger = sercom_rx_trigger(self.spi.num);
        let tx_trigger = sercom_tx_trigger(self.spi.num);
        let rx = Transfer::transfer_future(
            self.rx_channel,
            TransferBuffer::fixed(0, n),
            TransferBuffer::new(read),
            rx_trigger,
            TriggerAction::Beat,
            ctl,
        );
        let tx = Transfer::transfer_future(
            self.tx_channel,
            TransferBuffer::new(write),
            TransferBuffer::fixed(0, n),
            tx_trigger,
            TriggerAction::Beat,
            ctl,
        );
        SpiDmaTransfer {
            spi: self.spi,
            nop_word: self.nop_word,
            rx_slot: self.rx_slot,
            tx_slot: self.tx_slot,
            rx,
            tx,
        }
    }

    /// Read words into `read` using DMA, transmitting the no-op word for
    /// every received word.
    pub fn read_dma(self, read: Vec<u8>, ctl: &mut DmaController<IrqsBound>) -> (r:
        SpiDmaTransfer)
        requires
            old(ctl).wf(),
            self.rx_channel.wf(),
            self.tx_channel.wf(),
            self.rx_channel.spec_id() != self.tx_channel.spec_id(),
            0 < read@.len() <= 0xFFFF,
            self.spi.num < NUM_SERCOM,
        ensures
            final(ctl).wf(),
            r.spi == self.spi,
            r.nop_word == self.nop_word,
            r.rx.wf(),
            r.tx.wf(),
            r.rx.spec_id() == self.rx_channel.spec_id(),
            r.tx.spec_id() == self.tx_channel.spec_id(),
            r.rx.spec_dest().spec_incrementing(),
            r.rx.spec_dest().spec_words() == read@,
            !r.tx.spec_source().spec_incrementing(),
            r.tx.spec_source().spec_words() == seq![self.nop_word],
            !final(ctl).wakers.spec_ready_at(self.rx_channel.spec_id() as int),
            !final(ctl).wakers.spec_ready_at(self.tx_channel.spec_id() as int),
    {
        let n = read.len();
        let rx_trigger = sercom_rx_trigger(self.spi.num);
        let tx_trigger = sercom_tx_trigger(self.spi.num);
        let source = DummyBuffer::new(self.nop_word, n).into_buffer();
        let rx = Transfer::transfer_future(
            self.rx_channel,
            TransferBuffer::fixed(0, n),
            TransferBuffer::new(read),
            rx_trigger,
            TriggerAction::Beat,
            ctl,
        );
        let tx = Transfer::transfer_future(
            self.tx_channel,
            source,
            TransferBuffer::fixed(0, n),
            tx_trigger,
            TriggerAction::Beat,
            ctl,
        );
        SpiDmaTransfer {
            spi: self.spi,
            nop_word: self.nop_word,
            rx_slot: self.rx_slot,
            tx_slot: self.tx_slot,
            rx,
            tx,
        }
    }

    /// Write the words of `write` using DMA; the simultaneously received
    /// words are drained into a one-word sink and discarded, so the
    /// receive buffer cannot overflow.
    pub fn write_dma(self, write: Vec<u8>, ctl: &mut DmaController<IrqsBound>) -> (r:
        SpiDmaTransfer)
        requires
            old(ctl).wf(),
            self.rx_channel.wf(),
            self.tx_channel.wf(),
            self.rx_channel.spec_id() != self.tx_channel.spec_id(),
            0 < write@.len() <= 0xFFFF,
            self.spi.num < NUM_SERCOM,
        ensures
            final(ctl).wf(),
            r.spi == self.spi,
            r.nop_word == self.nop_word,
            r.rx.wf(),
            r.tx.wf(),
            r.rx.spec_id() == self.rx_channel.spec_id(),
            r.tx.spec_id() == self.tx_channel.spec_id(),
            !r.rx.spec_dest().spec_incrementing(),
            r.tx.spec_source().spec_incrementing(),
            r.tx.spec_source().spec_words() == write@,
            !final(ctl).wakers.spec_ready_at(self.rx_channel.spec_id() as int),
            !final(ctl).wakers.spec_ready_at(self.tx_channel.spec_id() as int),
    {
        let n = write.len();
        let rx_trigger = sercom_rx_trigger(self.spi.num);
        let tx_trigger = sercom_tx_trigger(self.spi.num);
        let sink = DummyBuffer::new(0xFF, n).into_buffer();
        let rx = Transfer::transfer_future(
            self.rx_channel,
            TransferBuffer::fixed(0, n),
            sink,
            rx_trigger,
            TriggerAction::Beat,
            ctl,
        );
        let tx = Transfer::transfer_future(
            self.tx_channel,
            TransferBuffer::new(write),
            TransferBuffer::fixed(0, n),
            tx_trigger,
            TriggerAction::Beat,
            ctl,
        );
        SpiDmaTransfer {
            spi: self.spi,
            nop_word: self.nop_word,
            rx_slot: self.rx_slot,
            tx_slot: self.tx_slot,
            rx,
            tx,
        }
    }
}

impl SpiDmaTransfer {
    /// Resume after both directions have been completed by the hardware
    /// and — so that the chip select is not deasserted mid-word — the
    /// engine's own transmit-complete flag has risen. Returns the bus
    /// with its channels reattached, the received words, and the
    /// outcome: a transfer error in either direction surfaces as a DMA
    /// error, and a fault recorded for the engine outranks success.
    pub fn finish(self, ctl: &mut DmaController<IrqsBound>) -> (r: (
        SpiFuture<Channel<ReadyFuture>, Channel<ReadyFuture>>,
        Vec<u8>,
        Result<(), Error>,
    ))
        requires
            old(ctl).wf(),
            self.rx.wf(),
            self.tx.wf(),
            self.rx.spec_id() != self.tx.spec_id(),
            !crate::dmac_regs::spec_bit32(
                old(ctl).dmac.channel@[self.rx.spec_id() as int].chctrla,
                1,
            ),
            !crate::dmac_regs::spec_bit32(
                old(ctl).dmac.channel@[self.tx.spec_id() as int].chctrla,
                1,
            ),
            spec_bit8(self.spi.regs.intflag, 1),
        ensures
            final(ctl).wf(),
            r.0.spi == self.spi,
            r.0.nop_word == self.nop_word,
            r.0.rx_channel.spec_id() == self.rx.spec_id(),
            r.0.tx_channel.spec_id() == self.tx.spec_id(),
            r.1@ == self.rx.spec_dest().spec_words(),
            ({
                let rx_err = spec_bit8(
                    old(ctl).dmac.channel@[self.rx.spec_id() as int].chstatus,
                    2,
                );
                let tx_err = spec_bit8(
                    old(ctl).dmac.channel@[self.tx.spec_id() as int].chstatus,
                    2,
                );
                if rx_err || tx_err {
                    r.2 == Result::<(), Error>::Err(Error::Dma(DmaError::TransferError))
                } else {
                    match spec_spi_fault(self.spi.regs.intflag, self.spi.regs.status) {
                        Some(e) => r.2 == Result::<(), Error>::Err(e),
                        None => r.2 is Ok,
                    }
                }
            }),
    {
        let (rx_ch, _rx_src, rx_dest, rx_res) = self.rx.complete(ctl);
        let (tx_ch, _tx_src, _tx_dest, tx_res) = self.tx.complete(ctl);
        let fut = SpiFuture {
            spi: self.spi,
            nop_word: self.nop_word,
            rx_channel: rx_ch,
            tx_channel: tx_ch,
            rx_slot: self.rx_slot,
            tx_slot: self.tx_slot,
        };
        let read_back = rx_dest.into_words();
        if rx_res.is_err() || tx_res.is_err() {
            return (fut, read_back, Err(Error::Dma(DmaError::TransferError)));
        }
        let outcome = fut.read_flags_errors();
        (fut, read_back, outcome)
    }
}

} // verus!
