use std::sync::atomic::{AtomicUsize, Ordering};
use std::sync::Arc;

use samd_hal::dmac::{DmaController, PriorityLevel, DMAC_HANDLER};
use samd_hal::dmac_regs::RegisterBlock;
use samd_hal::i2c::{Config, Error as I2cError, Flags, I2cFuture, Pads, Status, I2C_HANDLER};
use samd_hal::interrupts::{Bindings, DmacInterruptSources, InterruptId, Nvic};
use samd_hal::sercom::SercomRegs;
use samd_hal::spi::{
    Error as SpiError, InterruptHandler, Spi, FLAG_DRE, FLAG_RXC, FLAG_TXC, SPI_HANDLER,
};
use samd_hal::transfer::{hw_complete_transfer, on_interrupt, DmaError, TransferBuffer};

struct CountingWake(AtomicUsize);

impl futures::task::ArcWake for CountingWake {
    fn wake_by_ref(arc_self: &Arc<Self>) {
        arc_self.0.fetch_add(1, Ordering::SeqCst);
    }
}

fn counting_waker() -> (Arc<CountingWake>, core::task::Waker) {
    let counter = Arc::new(CountingWake(AtomicUsize::new(0)));
    let waker = futures::task::waker(counter.clone());
    (counter, waker)
}

#[test]
fn i2c_config_programs_master_mode() {
    let config = Config::new(SercomRegs::new(), 0, Pads, 100_000);
    // Master-mode bits in the mode field.
    assert_eq!(config.registers.sercom.ctrla, 0x14);
    let i2c = config.enable();
    assert_eq!(i2c.config.registers.sercom.ctrla, 0x16);
    let config = i2c.disable();
    assert_eq!(config.registers.sercom.ctrla, 0x14);
}

#[test]
fn i2c_flag_and_status_operations() {
    let config = Config::new(SercomRegs::new(), 0, Pads, 100_000);
    let mut i2c = config.enable();
    i2c.enable_interrupts(Flags { bits: 0x03 });
    assert_eq!(i2c.config.registers.sercom.intenset, 0x03);
    i2c.disable_interrupts(Flags { bits: 0x01 });
    assert_eq!(i2c.config.registers.sercom.intenset, 0x02);

    i2c.config.registers.sercom.intflag = 0x83;
    assert_eq!(i2c.read_flags().bits, 0x83);
    i2c.clear_flags(Flags { bits: 0x80 });
    assert_eq!(i2c.read_flags().bits, 0x03);

    i2c.config.registers.sercom.status = 0x0013;
    assert_eq!(i2c.read_status().bits, 0x0013);
    i2c.clear_status(Status { bits: 0x0003 });
    assert_eq!(i2c.read_status().bits, 0x0010);
}

#[test]
fn i2c_write_refused_while_bus_unknown() {
    let mut nvic = Nvic::new();
    let mut bindings = Bindings::new();
    let binding = bindings.bind(&DmacInterruptSources, DMAC_HANDLER).unwrap();
    let mut ctl = DmaController::init(RegisterBlock::new(4)).into_future(binding, &mut nvic);
    let chs = ctl.split().unwrap();
    let ch0 = chs.0.init(&mut ctl, PriorityLevel::Lvl0);

    let config = Config::new(SercomRegs::new(), 0, Pads, 100_000);
    let i2c = config.enable();
    let mut fut = I2cFuture::new(i2c);
    // Bus state is unknown after reset: the transfer must not start.
    let buf = TransferBuffer::new(vec![1, 2, 3]);
    let refused = fut.write_dma(0x50, buf, ch0, &mut ctl);
    let (ch0, buf, err) = refused.err().unwrap();
    assert_eq!(err, I2cError::BusError);
    assert_eq!(ch0.id(), 0);
    assert_eq!(buf.buffer_len(), 3);
}

#[test]
fn i2c_dma_write_round_trip() {
    let mut nvic = Nvic::new();
    let mut bindings = Bindings::new();
    let binding = bindings.bind(&DmacInterruptSources, DMAC_HANDLER).unwrap();
    let mut ctl = DmaController::init(RegisterBlock::new(4)).into_future(binding, &mut nvic);
    let chs = ctl.split().unwrap();
    let ch0 = chs.0.init(&mut ctl, PriorityLevel::Lvl0);

    let _ = bindings.bind(&InterruptId::Sercom0, I2C_HANDLER).unwrap();
    let config = Config::new(SercomRegs::new(), 0, Pads, 100_000);
    let mut i2c = config.enable();
    // The bus reports idle.
    i2c.config.registers.sercom.status = 0x0010;
    let mut fut = I2cFuture::new(i2c);

    let buf = TransferBuffer::new(vec![0x11, 0x22, 0x33, 0x44]);
    let mut t = fut.write_dma(0x50, buf, ch0, &mut ctl).ok().unwrap();
    // Address, write direction, length-enable, and a four-beat length.
    assert_eq!(fut.i2c.config.registers.sercom.addr, (0x50 << 1) | 0x2000 | (4 << 16));
    // The descriptor moves four beats from memory into the fixed data
    // register window.
    assert_eq!(ctl.descriptors[0].btctrl, 0x0401);
    assert_eq!(ctl.descriptors[0].btcnt, 4);

    let (counter, waker) = counting_waker();
    assert!(!t.poll(&mut ctl, &waker));
    hw_complete_transfer(&mut ctl, &mut t);
    on_interrupt(&mut ctl);
    assert_eq!(counter.0.load(Ordering::SeqCst), 1);
    assert!(t.poll(&mut ctl, &waker));
    let (_ch, _src, _dst, outcome) = t.complete(&mut ctl);
    assert_eq!(fut.finish_dma(outcome), Ok(()));
}

#[test]
fn i2c_finish_surfaces_bus_faults() {
    let config = Config::new(SercomRegs::new(), 1, Pads, 100_000);
    let mut i2c = config.enable();
    i2c.config.registers.sercom.status = 0x0010;
    let mut fut = I2cFuture::new(i2c);

    // A failed data movement is a bus error.
    assert_eq!(
        fut.finish_dma(Err(DmaError::TransferError)),
        Err(I2cError::BusError)
    );
    // The addressed device did not acknowledge.
    fut.i2c.config.registers.sercom.status = 0x0010 | 0x0004;
    assert_eq!(fut.finish_dma(Ok(())), Err(I2cError::Nack));
    // Arbitration loss outranks the missing acknowledge.
    fut.i2c.config.registers.sercom.status = 0x0010 | 0x0004 | 0x0002;
    assert_eq!(fut.finish_dma(Ok(())), Err(I2cError::ArbitrationLost));
    // A bus error outranks everything.
    fut.i2c.config.registers.sercom.status = 0x0010 | 0x0007;
    assert_eq!(fut.finish_dma(Ok(())), Err(I2cError::BusError));
    // Nothing recorded: success.
    fut.i2c.config.registers.sercom.status = 0x0010;
    assert_eq!(fut.finish_dma(Ok(())), Ok(()));
}

fn spi_future() -> (samd_hal::spi::SpiFuture<samd_hal::dmac::NoneT, samd_hal::dmac::NoneT>, Nvic)
{
    let mut nvic = Nvic::new();
    let mut bindings = Bindings::new();
    let binding = bindings.bind(&InterruptId::Sercom1, SPI_HANDLER).unwrap();
    let spi = Spi::new(SercomRegs::new(), 1);
    let fut = spi.into_future(binding, &mut nvic);
    (fut, nvic)
}

#[test]
fn spi_word_exchange_round_trip() {
    let (mut fut, _nvic) = spi_future();
    fut.spi.hw_tx_ready();
    fut.spi.hw_receive_word(0x9A);
    let received = fut.transfer_word_in_place(0x42).unwrap();
    assert_eq!(received, 0x9A);
    assert_eq!(fut.spi.tx_log, vec![0x42]);
}

#[test]
fn spi_read_transmits_nop_words() {
    let (mut fut, _nvic) = spi_future();
    fut.nop_word(0x5A);
    fut.spi.hw_tx_ready();
    for w in [1u8, 2, 3] {
        fut.spi.hw_receive_word(w);
    }
    let mut buffer = vec![0u8; 3];
    fut.read(&mut buffer).unwrap();
    assert_eq!(buffer, vec![1, 2, 3]);
    // One no-op word went out per received word.
    assert_eq!(fut.spi.tx_log, vec![0x5A, 0x5A, 0x5A]);
    assert_eq!(fut.spi.rx_fifo.len(), 0);
}

#[test]
fn spi_write_drains_received_words() {
    let (mut fut, _nvic) = spi_future();
    fut.spi.hw_tx_ready();
    for w in [0u8, 0, 0, 0] {
        fut.spi.hw_receive_word(w);
    }
    fut.write(&vec![9, 8, 7, 6]).unwrap();
    assert_eq!(fut.spi.tx_log, vec![9, 8, 7, 6]);
    // Every simultaneously received word was read and discarded.
    assert_eq!(fut.spi.rx_fifo.len(), 0);
}

#[test]
fn spi_word_by_word_pads_with_nop() {
    let (mut fut, _nvic) = spi_future();
    fut.nop_word(0xEE);
    fut.spi.hw_tx_ready();
    for w in [10u8, 20, 30, 40] {
        fut.spi.hw_receive_word(w);
    }
    let mut read_buf = vec![0u8; 4];
    fut.transfer_word_by_word(&mut read_buf, &vec![0xA1, 0xA2]).unwrap();
    assert_eq!(read_buf, vec![10, 20, 30, 40]);
    // The write side is padded with the no-op word once it runs out.
    assert_eq!(fut.spi.tx_log, vec![0xA1, 0xA2, 0xEE, 0xEE]);
}

#[test]
fn spi_overflow_is_surfaced() {
    let (mut fut, _nvic) = spi_future();
    fut.spi.hw_tx_ready();
    fut.spi.hw_receive_word(0x01);
    // The engine records a buffer overflow.
    fut.spi.regs.intflag |= 0x80;
    fut.spi.regs.status = 0x0004;
    assert_eq!(fut.transfer_word_in_place(0), Err(SpiError::Overflow));
    // Nothing was transmitted.
    assert_eq!(fut.spi.tx_log.len(), 0);
}

#[test]
fn spi_poll_flags_registers_then_rechecks() {
    let (mut fut, _nvic) = spi_future();
    let (counter, waker) = counting_waker();
    // Nothing pending: the wait arms its interrupts and suspends.
    assert!(!fut.poll_flags(FLAG_RXC, &waker));
    assert_eq!(fut.spi.regs.intenset, FLAG_RXC);
    // The word arrives and the handler wakes the receive direction.
    fut.spi.hw_receive_word(0x77);
    InterruptHandler::service(&mut fut);
    assert_eq!(counter.0.load(Ordering::SeqCst), 1);
    // The handler disabled the serviced interrupt without clearing the
    // flag, which the resumed wait now observes.
    assert_eq!(fut.spi.regs.intenset, 0);
    assert!(fut.poll_flags(FLAG_RXC, &waker));
}

#[test]
fn spi_interrupt_handler_wakes_each_direction() {
    let (mut fut, _nvic) = spi_future();
    let (rx_counter, rx_waker) = counting_waker();
    let (tx_counter, tx_waker) = counting_waker();
    assert!(!fut.poll_flags(FLAG_RXC, &rx_waker));
    assert!(!fut.poll_flags(FLAG_DRE | FLAG_TXC, &tx_waker));
    fut.spi.hw_tx_ready();
    InterruptHandler::service(&mut fut);
    assert_eq!(rx_counter.0.load(Ordering::SeqCst), 0);
    assert_eq!(tx_counter.0.load(Ordering::SeqCst), 1);
}

#[test]
fn spi_dma_exchange_round_trip() {
    let mut nvic = Nvic::new();
    let mut bindings = Bindings::new();
    let dmac_binding = bindings.bind(&DmacInterruptSources, DMAC_HANDLER).unwrap();
    let spi_binding = bindings.bind(&InterruptId::Sercom0, SPI_HANDLER).unwrap();
    let mut ctl = DmaController::init(RegisterBlock::new(4)).into_future(dmac_binding, &mut nvic);
    let chs = ctl.split().unwrap();
    let ch0 = chs.0.init(&mut ctl, PriorityLevel::Lvl0);
    let ch1 = chs.1.init(&mut ctl, PriorityLevel::Lvl0);

    let spi = Spi::new(SercomRegs::new(), 0);
    let fut = spi.into_future(spi_binding, &mut nvic).with_dma_channels(ch0, ch1);

    let mut exchange = fut.transfer_dma(vec![0u8; 4], vec![1, 2, 3, 4], &mut ctl);
    // One transfer per direction, each triggered by its data-ready
    // signal: receive on channel 0, transmit on channel 1.
    assert_eq!(ctl.dmac.channel(0).chctrla, 0x0020_0102);
    assert_eq!(ctl.dmac.channel(1).chctrla, 0x0020_0202);
    assert_eq!(ctl.descriptors[1].btcnt, 4);

    let (counter, waker) = counting_waker();
    assert!(!exchange.rx.poll(&mut ctl, &waker));
    assert!(!exchange.tx.poll(&mut ctl, &waker));
    hw_complete_transfer(&mut ctl, &mut exchange.rx);
    hw_complete_transfer(&mut ctl, &mut exchange.tx);
    on_interrupt(&mut ctl);
    assert_eq!(counter.0.load(Ordering::SeqCst), 2);
    assert!(exchange.rx.poll(&mut ctl, &waker));
    assert!(exchange.tx.poll(&mut ctl, &waker));

    // The engine finishes shifting before completion may be claimed.
    exchange.spi.hw_tx_ready();
    let (fut, read_back, outcome) = exchange.finish(&mut ctl);
    assert_eq!(outcome, Ok(()));
    // The fixed data-register window model supplies zero words.
    assert_eq!(read_back, vec![0u8; 4]);
    assert_eq!(fut.rx_channel.id(), 0);
    assert_eq!(fut.tx_channel.id(), 1);
    // Both channels are idle again.
    assert_eq!(ctl.dmac.channel(0).chctrla, 0);
    assert_eq!(ctl.dmac.channel(1).chctrla, 0);
}

#[test]
fn spi_dma_error_is_surfaced() {
    let mut nvic = Nvic::new();
    let mut bindings = Bindings::new();
    let dmac_binding = bindings.bind(&DmacInterruptSources, DMAC_HANDLER).unwrap();
    let spi_binding = bindings.bind(&InterruptId::Sercom2, SPI_HANDLER).unwrap();
    let mut ctl = DmaController::init(RegisterBlock::new(4)).into_future(dmac_binding, &mut nvic);
    let chs = ctl.split().unwrap();
    let ch2 = chs.2.init(&mut ctl, PriorityLevel::Lvl0);
    let ch3 = chs.3.init(&mut ctl, PriorityLevel::Lvl0);

    let spi = Spi::new(SercomRegs::new(), 2);
    let fut = spi.into_future(spi_binding, &mut nvic).with_dma_channels(ch2, ch3);
    let mut exchange = fut.write_dma(vec![5, 6, 7], &mut ctl);
    hw_complete_transfer(&mut ctl, &mut exchange.rx);
    samd_hal::transfer::hw_error_transfer(&mut ctl, &exchange.tx);
    on_interrupt(&mut ctl);
    exchange.spi.hw_tx_ready();
    let (_fut, _read_back, outcome) = exchange.finish(&mut ctl);
    assert_eq!(outcome, Err(SpiError::Dma(DmaError::TransferError)));
}
